//! What the operator configures: the application, and the backup, restore
//! and update policies around it.

use vstd::prelude::*;

use crate::schedule::Interval;
use crate::text::same_text;

verus! {

/// The characters of each string of a list.
pub open spec fn texts(v: Seq<String>) -> Seq<Seq<char>> {
    Seq::new(v.len(), |i: int| v[i]@)
}

/// The characters of each pair of a list of pairs.
pub open spec fn pairs(v: Seq<(String, String)>) -> Seq<(Seq<char>, Seq<char>)> {
    Seq::new(v.len(), |i: int| (v[i].0@, v[i].1@))
}

/// The characters of an optional list of strings; an absent list is empty.
pub open spec fn texts_of(v: Option<Vec<String>>) -> Seq<Seq<char>> {
    match v {
        Some(items) => texts(items@),
        None => Seq::empty(),
    }
}

/// The characters of an optional list of pairs; an absent list is empty.
pub open spec fn pairs_of(v: Option<Vec<(String, String)>>) -> Seq<(Seq<char>, Seq<char>)> {
    match v {
        Some(items) => pairs(items@),
        None => Seq::empty(),
    }
}

/// A text that names no variant of the type it was read as.
#[derive(Clone, Copy, Debug, PartialEq, Eq, Structural)]
pub struct UnknownVariant;

/// The whole configuration.
#[derive(Clone, Debug)]
pub struct Config {
    pub backup: Option<BackupConfig>,
    pub app: AppConfig,
    pub update: Option<UpdateConfig>,
    /// Restores to run once before the application first starts.
    pub restore: Vec<RestoreConfig>,
}

/// The application container.
///
/// `environments` lists the variables in the order in which they are handed
/// to the container runtime.
#[derive(Clone, Debug)]
pub struct AppConfig {
    pub image: String,
    pub args: Option<Vec<String>>,
    pub volumes: Option<Vec<String>>,
    pub ports: Option<Vec<String>>,
    pub network_mode: Option<NetworkMode>,
    pub environments: Option<Vec<(String, String)>>,
    pub cap_add: Option<Vec<String>>,
}

/// Where and how often the application's data is backed up.
#[derive(Clone, Debug)]
pub struct BackupConfig {
    pub repo: String,
    pub src: String,
    pub interval: Interval,
    pub strategy: Option<BackupStrategy>,
    pub environments: Option<Vec<(String, String)>>,
}

/// From where the application's data is restored before its first start.
#[derive(Clone, Debug)]
pub struct RestoreConfig {
    pub repo: String,
    pub dst: String,
    pub strategy: Option<RestoreStrategy>,
    pub environments: Option<Vec<(String, String)>>,
}

/// How often a newer image is looked for.
#[derive(Clone, Debug)]
pub struct UpdateConfig {
    pub interval: Interval,
}

impl Default for UpdateConfig {
    fn default() -> (r: Self)
        ensures
            r.interval == Interval::Daily,
    {
        UpdateConfig { interval: Interval::Daily }
    }
}

/// Whether the application is stopped while a backup runs.
#[derive(Clone, Copy, Debug, PartialEq, Eq, Structural)]
pub enum BackupStrategy {
    StopApp,
    Live,
}

impl Default for BackupStrategy {
    fn default() -> (r: Self)
        ensures
            r == BackupStrategy::StopApp,
    {
        BackupStrategy::StopApp
    }
}

impl BackupStrategy {
    /// The name of the strategy in configuration files.
    pub open spec fn text(self) -> Seq<char> {
        match self {
            BackupStrategy::StopApp => "stop_app"@,
            BackupStrategy::Live => "live"@,
        }
    }

    /// The strategy in force where the configuration may leave it out.
    pub open spec fn or_default(chosen: Option<BackupStrategy>) -> BackupStrategy {
        match chosen {
            Some(s) => s,
            None => BackupStrategy::StopApp,
        }
    }

    /// The strategy in force: the chosen one, or stopping the application.
    pub fn effective(chosen: Option<BackupStrategy>) -> (r: BackupStrategy)
        ensures
            r == Self::or_default(chosen),
    {
        match chosen {
            Some(s) => s,
            None => BackupStrategy::StopApp,
        }
    }

    /// Writes the strategy's name.
    pub fn to_string(&self) -> (r: String)
        ensures
            r@ == self.text(),
    {
        match self {
            BackupStrategy::StopApp => "stop_app".to_owned(),
            BackupStrategy::Live => "live".to_owned(),
        }
    }

    /// Reads a strategy from its exact name.
    pub fn from_str(s: &str) -> (r: Result<BackupStrategy, UnknownVariant>)
        ensures
            r == (if s@ == "stop_app"@ {
                Ok(BackupStrategy::StopApp)
            } else if s@ == "live"@ {
                Ok(BackupStrategy::Live)
            } else {
                Err(UnknownVariant)
            }),
    {
        if same_text(s, "stop_app") {
            Ok(BackupStrategy::StopApp)
        } else if same_text(s, "live") {
            Ok(BackupStrategy::Live)
        } else {
            Err(UnknownVariant)
        }
    }
}

/// Whether a restore overwrites data that is already there.
#[derive(Clone, Copy, Debug, PartialEq, Eq, Structural)]
pub enum RestoreStrategy {
    Always,
    IfMissing,
}

impl Default for RestoreStrategy {
    fn default() -> (r: Self)
        ensures
            r == RestoreStrategy::IfMissing,
    {
        RestoreStrategy::IfMissing
    }
}

impl RestoreStrategy {
    /// The name of the strategy in configuration files.
    pub open spec fn text(self) -> Seq<char> {
        match self {
            RestoreStrategy::Always => "always"@,
            RestoreStrategy::IfMissing => "if_missing"@,
        }
    }

    /// The strategy in force where the configuration may leave it out.
    pub open spec fn or_default(chosen: Option<RestoreStrategy>) -> RestoreStrategy {
        match chosen {
            Some(s) => s,
            None => RestoreStrategy::IfMissing,
        }
    }

    /// Writes the strategy's name.
    pub fn to_string(&self) -> (r: String)
        ensures
            r@ == self.text(),
    {
        match self {
            RestoreStrategy::Always => "always".to_owned(),
            RestoreStrategy::IfMissing => "if_missing".to_owned(),
        }
    }

    /// Reads a strategy from its exact name.
    pub fn from_str(s: &str) -> (r: Result<RestoreStrategy, UnknownVariant>)
        ensures
            r == (if s@ == "always"@ {
                Ok(RestoreStrategy::Always)
            } else if s@ == "if_missing"@ {
                Ok(RestoreStrategy::IfMissing)
            } else {
                Err(UnknownVariant)
            }),
    {
        if same_text(s, "always") {
            Ok(RestoreStrategy::Always)
        } else if same_text(s, "if_missing") {
            Ok(RestoreStrategy::IfMissing)
        } else {
            Err(UnknownVariant)
        }
    }
}

/// The network that the container joins.
#[derive(Clone, Copy, Debug, PartialEq, Eq, Structural)]
pub enum NetworkMode {
    Host,
    Bridge,
}

impl NetworkMode {
    /// The name of the mode, as the container runtime and configuration
    /// files write it.
    pub open spec fn text(self) -> Seq<char> {
        match self {
            NetworkMode::Host => "host"@,
            NetworkMode::Bridge => "bridge"@,
        }
    }

    /// Writes the mode's name.
    pub fn to_string(&self) -> (r: String)
        ensures
            r@ == self.text(),
    {
        match self {
            NetworkMode::Host => "host".to_owned(),
            NetworkMode::Bridge => "bridge".to_owned(),
        }
    }

    /// Reads a mode from its exact name.
    pub fn from_str(s: &str) -> (r: Result<NetworkMode, UnknownVariant>)
        ensures
            r == (if s@ == "host"@ {
                Ok(NetworkMode::Host)
            } else if s@ == "bridge"@ {
                Ok(NetworkMode::Bridge)
            } else {
                Err(UnknownVariant)
            }),
    {
        if same_text(s, "host") {
            Ok(NetworkMode::Host)
        } else if same_text(s, "bridge") {
            Ok(NetworkMode::Bridge)
        } else {
            Err(UnknownVariant)
        }
    }
}

} // verus!
