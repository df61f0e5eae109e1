//! Command lines of the external tools: the container runtime and the backup
//! tool.

use vstd::prelude::*;

use crate::config::{pairs, pairs_of, texts, texts_of, AppConfig, BackupConfig, NetworkMode, RestoreConfig};

verus! {

/// A command to run: the program, its arguments in order, and the variables
/// added to its environment in order.
#[derive(Clone, Debug)]
pub struct Command {
    pub program: String,
    pub args: Vec<String>,
    pub envs: Vec<(String, String)>,
}

/// A command as sequences of characters.
pub struct CommandView {
    pub program: Seq<char>,
    pub args: Seq<Seq<char>>,
    pub envs: Seq<(Seq<char>, Seq<char>)>,
}

impl View for Command {
    type V = CommandView;

    open spec fn view(&self) -> CommandView {
        CommandView { program: self.program@, args: texts(self.args@), envs: pairs(self.envs@) }
    }
}

impl Command {
    /// A command that runs `program` without arguments.
    pub fn new(program: &str) -> (r: Command)
        ensures
            r@ == (CommandView { program: program@, args: Seq::empty(), envs: Seq::empty() }),
    {
        let r = Command { program: program.to_owned(), args: Vec::new(), envs: Vec::new() };
        assert(r@.args =~= Seq::empty());
        assert(r@.envs =~= Seq::empty());
        r
    }

    /// Adds one argument at the end.
    pub fn arg(&mut self, a: &str)
        ensures
            final(self)@ == (CommandView { args: old(self)@.args.push(a@), ..old(self)@ }),
    {
        self.args.push(a.to_owned());
        assert(self@.args =~= old(self)@.args.push(a@));
    }

    /// Adds each of `items` as an argument, in order.
    pub fn args(&mut self, items: &Vec<String>)
        ensures
            final(self)@ == (CommandView { args: old(self)@.args + texts(items@), ..old(self)@ }),
    {
        let mut i: usize = 0;
        while i < items.len()
            invariant
                i <= items.len(),
                self@ == (CommandView {
                    args: old(self)@.args + texts(items@).take(i as int),
                    ..old(self)@
                }),
            decreases items.len() - i,
        {
            self.arg(items[i].as_str());
            assert(texts(items@).take(i + 1) =~= texts(items@).take(i as int).push(items[i as int]@));
            assert(self@.args =~= old(self)@.args + texts(items@).take(i + 1));
            i += 1;
        }
        assert(texts(items@).take(i as int) =~= texts(items@));
    }

    /// Sets one variable in the command's environment.
    pub fn env(&mut self, key: &str, value: &str)
        ensures
            final(self)@ == (CommandView { envs: old(self)@.envs.push((key@, value@)), ..old(self)@ }),
    {
        self.envs.push((key.to_owned(), value.to_owned()));
        assert(self@.envs =~= old(self)@.envs.push((key@, value@)));
    }
}

/// Settings that the backup tool needs whatever it is asked to do.
pub trait ResticConfig {
    /// The variables to add to the tool's environment.
    spec fn environment_pairs(&self) -> Seq<(Seq<char>, Seq<char>)>;

    /// The repository locator.
    spec fn repository(&self) -> Seq<char>;

    fn environments(&self) -> (r: &Option<Vec<(String, String)>>)
        ensures
            pairs_of(*r) == self.environment_pairs(),
    ;

    fn repo(&self) -> (r: &str)
        ensures
            r@ == self.repository(),
    ;
}

impl ResticConfig for BackupConfig {
    open spec fn environment_pairs(&self) -> Seq<(Seq<char>, Seq<char>)> {
        pairs_of(self.environments)
    }

    open spec fn repository(&self) -> Seq<char> {
        self.repo@
    }

    fn environments(&self) -> (r: &Option<Vec<(String, String)>>) {
        &self.environments
    }

    fn repo(&self) -> (r: &str) {
        self.repo.as_str()
    }
}

impl ResticConfig for RestoreConfig {
    open spec fn environment_pairs(&self) -> Seq<(Seq<char>, Seq<char>)> {
        pairs_of(self.environments)
    }

    open spec fn repository(&self) -> Seq<char> {
        self.repo@
    }

    fn environments(&self) -> (r: &Option<Vec<(String, String)>>) {
        &self.environments
    }

    fn repo(&self) -> (r: &str) {
        self.repo.as_str()
    }
}

/// `items` with `flag` in front of each.
pub open spec fn flagged(flag: Seq<char>, items: Seq<Seq<char>>) -> Seq<Seq<char>>
    decreases items.len(),
{
    if items.len() == 0 {
        Seq::empty()
    } else {
        flagged(flag, items.drop_last()).push(flag).push(items.last())
    }
}

/// One `-e` and one `key=value` for each variable.
pub open spec fn env_flags(envs: Seq<(Seq<char>, Seq<char>)>) -> Seq<Seq<char>>
    decreases envs.len(),
{
    if envs.len() == 0 {
        Seq::empty()
    } else {
        env_flags(envs.drop_last()).push("-e"@).push(envs.last().0 + "="@ + envs.last().1)
    }
}

/// The network option of the container runtime, if a mode is chosen.
pub open spec fn network_flags(mode: Option<NetworkMode>) -> Seq<Seq<char>> {
    match mode {
        Some(m) => seq!["--network"@, m.text()],
        None => Seq::empty(),
    }
}

/// The backup tool with its repository selected.
pub open spec fn restic_base(envs: Seq<(Seq<char>, Seq<char>)>, repo: Seq<char>) -> CommandView {
    CommandView { program: "restic"@, args: seq!["-r"@, repo], envs }
}

/// The command that backs up the configured source path.
pub open spec fn backup_command(config: BackupConfig) -> CommandView {
    CommandView {
        args: seq!["-r"@, config.repo@, "--verbose"@, "backup"@, config.src@],
        ..restic_base(pairs_of(config.environments), config.repo@)
    }
}

/// The command that restores the latest snapshot to the destination.
pub open spec fn restore_command(config: RestoreConfig) -> CommandView {
    CommandView {
        args: seq![
            "-r"@,
            config.repo@,
            "--verbose"@,
            "restore"@,
            "latest"@,
            "--target"@,
            config.dst@,
        ],
        ..restic_base(pairs_of(config.environments), config.repo@)
    }
}

/// The command that lists the latest snapshot of the source path as JSON.
pub open spec fn snapshot_query_command(config: BackupConfig) -> CommandView {
    CommandView {
        args: seq![
            "-r"@,
            config.repo@,
            "snapshots"@,
            "--json"@,
            "--latest"@,
            "1"@,
            "--path"@,
            config.src@,
        ],
        ..restic_base(pairs_of(config.environments), config.repo@)
    }
}

/// The command that starts the application container.
pub open spec fn run_app_command(config: AppConfig) -> CommandView {
    CommandView { program: "podman"@, args: run_app_args(config), envs: Seq::empty() }
}

/// The arguments with which the container runtime starts the application:
/// variables, volumes, capabilities, ports and network, then the options
/// that remove the container on exit and give it an init process, the
/// image, and the application's own arguments.
pub open spec fn run_app_args(config: AppConfig) -> Seq<Seq<char>> {
    seq!["run"@] + env_flags(pairs_of(config.environments)) + flagged(
        "-v"@,
        texts_of(config.volumes),
    ) + flagged("--cap-add"@, texts_of(config.cap_add)) + flagged("-p"@, texts_of(config.ports))
        + network_flags(config.network_mode) + seq!["--rm"@, "--init"@, config.image@] + texts_of(
        config.args,
    )
}

/// Adds `flag` and the item, for each item of an optional list.
fn push_flagged(cmd: &mut Command, flag: &str, items: &Option<Vec<String>>)
    ensures
        final(cmd)@ == (CommandView {
            args: old(cmd)@.args + flagged(flag@, texts_of(*items)),
            ..old(cmd)@
        }),
{
    match items {
        Some(list) => {
            let mut i: usize = 0;
            assert(texts(list@).take(0) =~= Seq::empty());
            assert(cmd@.args =~= old(cmd)@.args + flagged(flag@, texts(list@).take(0)));
            while i < list.len()
                invariant
                    i <= list.len(),
                    cmd@ == (CommandView {
                        args: old(cmd)@.args + flagged(flag@, texts(list@).take(i as int)),
                        ..old(cmd)@
                    }),
                decreases list.len() - i,
            {
                cmd.arg(flag);
                cmd.arg(list[i].as_str());
                proof {
                    let next = texts(list@).take(i + 1);
                    assert(next.drop_last() =~= texts(list@).take(i as int));
                    assert(next.last() == list[i as int]@);
                    assert(cmd@.args =~= old(cmd)@.args + flagged(flag@, next));
                }
                i += 1;
            }
            assert(texts(list@).take(i as int) =~= texts(list@));
        },
        None => {
            assert(cmd@.args =~= old(cmd)@.args + flagged(flag@, Seq::empty()));
        },
    }
}

/// Adds `-e` and `key=value` for each variable of an optional list.
fn push_env_flags(cmd: &mut Command, envs: &Option<Vec<(String, String)>>)
    ensures
        final(cmd)@ == (CommandView {
            args: old(cmd)@.args + env_flags(pairs_of(*envs)),
            ..old(cmd)@
        }),
{
    match envs {
        Some(list) => {
            let mut i: usize = 0;
            assert(pairs(list@).take(0) =~= Seq::empty());
            assert(cmd@.args =~= old(cmd)@.args + env_flags(pairs(list@).take(0)));
            while i < list.len()
                invariant
                    i <= list.len(),
                    cmd@ == (CommandView {
                        args: old(cmd)@.args + env_flags(pairs(list@).take(i as int)),
                        ..old(cmd)@
                    }),
                decreases list.len() - i,
            {
                let pair = &list[i];
                let mut assignment = pair.0.clone();
                assignment.append("=");
                assignment.append(pair.1.as_str());
                cmd.arg("-e");
                cmd.arg(assignment.as_str());
                proof {
                    let next = pairs(list@).take(i + 1);
                    assert(next.drop_last() =~= pairs(list@).take(i as int));
                    assert(next.last() == (list[i as int].0@, list[i as int].1@));
                    assert(cmd@.args =~= old(cmd)@.args + env_flags(next));
                }
                i += 1;
            }
            assert(pairs(list@).take(i as int) =~= pairs(list@));
        },
        None => {
            assert(cmd@.args =~= old(cmd)@.args + env_flags(Seq::empty()));
        },
    }
}

/// Sets each variable of an optional list in the command's environment.
fn push_envs(cmd: &mut Command, envs: &Option<Vec<(String, String)>>)
    ensures
        final(cmd)@ == (CommandView { envs: old(cmd)@.envs + pairs_of(*envs), ..old(cmd)@ }),
{
    match envs {
        Some(list) => {
            let mut i: usize = 0;
            assert(cmd@.envs =~= old(cmd)@.envs + pairs(list@).take(0));
            while i < list.len()
                invariant
                    i <= list.len(),
                    cmd@ == (CommandView {
                        envs: old(cmd)@.envs + pairs(list@).take(i as int),
                        ..old(cmd)@
                    }),
                decreases list.len() - i,
            {
                let pair = &list[i];
                cmd.env(pair.0.as_str(), pair.1.as_str());
                assert(cmd@.envs =~= old(cmd)@.envs + pairs(list@).take(i + 1));
                i += 1;
            }
            assert(pairs(list@).take(i as int) =~= pairs(list@));
        },
        None => {
            assert(cmd@.envs =~= old(cmd)@.envs + Seq::empty());
        },
    }
}

/// The backup tool with the configured environment and repository, ready
/// for a subcommand.
pub fn build_restic_command<C: ResticConfig>(config: &C) -> (r: Command)
    ensures
        r@ == restic_base(config.environment_pairs(), config.repository()),
{
    let mut cmd = Command::new("restic");
    push_envs(&mut cmd, config.environments());
    cmd.arg("-r");
    cmd.arg(config.repo());
    assert(cmd@.envs =~= config.environment_pairs());
    assert(cmd@.args =~= seq!["-r"@, config.repository()]);
    cmd
}

/// The command that backs up the configured source path.
pub fn backup(config: &BackupConfig) -> (r: Command)
    ensures
        r@ == backup_command(*config),
{
    let mut cmd = build_restic_command(config);
    cmd.arg("--verbose");
    cmd.arg("backup");
    cmd.arg(config.src.as_str());
    assert(cmd@.args =~= seq!["-r"@, config.repo@, "--verbose"@, "backup"@, config.src@]);
    cmd
}

/// The command that restores the latest snapshot to the configured
/// destination.
pub fn restore(r: &RestoreConfig) -> (cmd: Command)
    ensures
        cmd@ == restore_command(*r),
{
    let mut cmd = build_restic_command(r);
    cmd.arg("--verbose");
    cmd.arg("restore");
    cmd.arg("latest");
    cmd.arg("--target");
    cmd.arg(r.dst.as_str());
    assert(cmd@.args =~= seq![
        "-r"@,
        r.repo@,
        "--verbose"@,
        "restore"@,
        "latest"@,
        "--target"@,
        r.dst@,
    ]);
    cmd
}

/// The command that lists, as JSON, the latest snapshot of the configured
/// source path.
pub fn latest_snapshot_query(backup: &BackupConfig) -> (r: Command)
    ensures
        r@ == snapshot_query_command(*backup),
{
    let mut cmd = build_restic_command(backup);
    cmd.arg("snapshots");
    cmd.arg("--json");
    cmd.arg("--latest");
    cmd.arg("1");
    cmd.arg("--path");
    cmd.arg(backup.src.as_str());
    assert(cmd@.args =~= seq![
        "-r"@,
        backup.repo@,
        "snapshots"@,
        "--json"@,
        "--latest"@,
        "1"@,
        "--path"@,
        backup.src@,
    ]);
    cmd
}

/// The command that pulls the application's image.
pub fn pull_image(config: &AppConfig) -> (r: Command)
    ensures
        r@ == (CommandView {
            program: "podman"@,
            args: seq!["pull"@, config.image@],
            envs: Seq::empty(),
        }),
{
    let mut cmd = Command::new("podman");
    cmd.arg("pull");
    cmd.arg(config.image.as_str());
    assert(cmd@.args =~= seq!["pull"@, config.image@]);
    cmd
}

/// The command that describes an image as JSON.
pub fn inspect_image(image_name: &str) -> (r: Command)
    ensures
        r@ == (CommandView {
            program: "podman"@,
            args: seq!["inspect"@, image_name@, "--format"@, "json"@],
            envs: Seq::empty(),
        }),
{
    let mut cmd = Command::new("podman");
    cmd.arg("inspect");
    cmd.arg(image_name);
    cmd.arg("--format");
    cmd.arg("json");
    assert(cmd@.args =~= seq!["inspect"@, image_name@, "--format"@, "json"@]);
    cmd
}

/// The command that starts the application container.
pub fn run_app(config: &AppConfig) -> (r: Command)
    ensures
        r@ == run_app_command(*config),
{
    let mut cmd = Command::new("podman");
    cmd.arg("run");
    assert(cmd@.args =~= seq!["run"@]);
    push_env_flags(&mut cmd, &config.environments);
    push_flagged(&mut cmd, "-v", &config.volumes);
    push_flagged(&mut cmd, "--cap-add", &config.cap_add);
    push_flagged(&mut cmd, "-p", &config.ports);
    let ghost before_network = cmd@.args;
    match &config.network_mode {
        Some(mode) => {
            let name = mode.to_string();
            cmd.arg("--network");
            cmd.arg(name.as_str());
        },
        None => {},
    }
    assert(cmd@.args =~= before_network + network_flags(config.network_mode));
    let ghost before_tail = cmd@.args;
    cmd.arg("--rm");
    cmd.arg("--init");
    cmd.arg(config.image.as_str());
    assert(cmd@.args =~= before_tail + seq!["--rm"@, "--init"@, config.image@]);
    let ghost before_args = cmd@.args;
    match &config.args {
        Some(list) => {
            cmd.args(list);
        },
        None => {},
    }
    assert(cmd@.args =~= before_args + texts_of(config.args));
    cmd
}

} // verus!
