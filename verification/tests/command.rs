use supervisor::command::{
    backup, build_restic_command, inspect_image, latest_snapshot_query, pull_image, restore,
    run_app, Command, ResticConfig,
};
use supervisor::config::{
    AppConfig, BackupConfig, BackupStrategy, NetworkMode, RestoreConfig, RestoreStrategy,
    UnknownVariant, UpdateConfig,
};
use supervisor::schedule::Interval;

fn s(text: &str) -> String {
    text.to_string()
}

fn list(items: &[&str]) -> Vec<String> {
    items.iter().map(|i| i.to_string()).collect()
}

fn plain_app() -> AppConfig {
    AppConfig {
        image: s("docker.io/library/nginx:latest"),
        args: None,
        volumes: None,
        ports: None,
        network_mode: None,
        environments: None,
        cap_add: None,
    }
}

fn backup_config() -> BackupConfig {
    BackupConfig {
        repo: s("s3:bucket/repo"),
        src: s("/data"),
        interval: Interval::Daily,
        strategy: None,
        environments: Some(vec![(s("RESTIC_PASSWORD"), s("hunter2")), (s("AWS_KEY"), s("k"))]),
    }
}

fn restore_config() -> RestoreConfig {
    RestoreConfig {
        repo: s("/mnt/repo"),
        dst: s("/data"),
        strategy: Some(RestoreStrategy::IfMissing),
        environments: None,
    }
}

#[test]
fn command_collects_arguments_and_variables_in_order() {
    let mut cmd = Command::new("tool");
    cmd.arg("a");
    cmd.args(&list(&["b", "c"]));
    cmd.env("K", "V");
    cmd.env("L", "W");
    assert_eq!(cmd.program, "tool");
    assert_eq!(cmd.args, list(&["a", "b", "c"]));
    assert_eq!(cmd.envs, vec![(s("K"), s("V")), (s("L"), s("W"))]);
}

#[test]
fn run_app_with_nothing_but_an_image() {
    let cmd = run_app(&plain_app());
    assert_eq!(cmd.program, "podman");
    assert_eq!(cmd.args, list(&["run", "--rm", "--init", "docker.io/library/nginx:latest"]));
    assert!(cmd.envs.is_empty());
}

#[test]
fn run_app_orders_every_option() {
    let app = AppConfig {
        image: s("img"),
        args: Some(list(&["serve", "--port", "80"])),
        volumes: Some(list(&["/a:/a", "/b:/b"])),
        ports: Some(list(&["80:80"])),
        network_mode: Some(NetworkMode::Host),
        environments: Some(vec![(s("A"), s("1")), (s("B"), s("x=y"))]),
        cap_add: Some(list(&["NET_ADMIN"])),
    };
    let cmd = run_app(&app);
    assert_eq!(
        cmd.args,
        list(&[
            "run", "-e", "A=1", "-e", "B=x=y", "-v", "/a:/a", "-v", "/b:/b", "--cap-add",
            "NET_ADMIN", "-p", "80:80", "--network", "host", "--rm", "--init", "img", "serve",
            "--port", "80",
        ])
    );
    assert!(cmd.envs.is_empty());
}

#[test]
fn run_app_with_empty_lists_and_bridge() {
    let app = AppConfig {
        image: s("img"),
        args: Some(vec![]),
        volumes: Some(vec![]),
        ports: None,
        network_mode: Some(NetworkMode::Bridge),
        environments: Some(vec![]),
        cap_add: None,
    };
    assert_eq!(run_app(&app).args, list(&["run", "--network", "bridge", "--rm", "--init", "img"]));
}

#[test]
fn pull_image_names_the_image() {
    let cmd = pull_image(&plain_app());
    assert_eq!(cmd.program, "podman");
    assert_eq!(cmd.args, list(&["pull", "docker.io/library/nginx:latest"]));
    assert!(cmd.envs.is_empty());
}

#[test]
fn inspect_image_asks_for_json() {
    let cmd = inspect_image("img:1");
    assert_eq!(cmd.program, "podman");
    assert_eq!(cmd.args, list(&["inspect", "img:1", "--format", "json"]));
    assert!(cmd.envs.is_empty());
}

#[test]
fn restic_base_passes_credentials_in_the_environment() {
    let cmd = build_restic_command(&backup_config());
    assert_eq!(cmd.program, "restic");
    assert_eq!(cmd.args, list(&["-r", "s3:bucket/repo"]));
    assert_eq!(cmd.envs, vec![(s("RESTIC_PASSWORD"), s("hunter2")), (s("AWS_KEY"), s("k"))]);
    assert!(!cmd.args.iter().any(|a| a.contains("hunter2")));
}

#[test]
fn restic_base_for_a_restore_policy() {
    let cmd = build_restic_command(&restore_config());
    assert_eq!(cmd.program, "restic");
    assert_eq!(cmd.args, list(&["-r", "/mnt/repo"]));
    assert!(cmd.envs.is_empty());
}

#[test]
fn backup_command_line() {
    let cmd = backup(&backup_config());
    assert_eq!(cmd.program, "restic");
    assert_eq!(cmd.args, list(&["-r", "s3:bucket/repo", "--verbose", "backup", "/data"]));
    assert_eq!(cmd.envs.len(), 2);
}

#[test]
fn restore_command_line() {
    let cmd = restore(&restore_config());
    assert_eq!(cmd.program, "restic");
    assert_eq!(
        cmd.args,
        list(&["-r", "/mnt/repo", "--verbose", "restore", "latest", "--target", "/data"])
    );
}

#[test]
fn snapshot_query_command_line() {
    let cmd = latest_snapshot_query(&backup_config());
    assert_eq!(
        cmd.args,
        list(&[
            "-r", "s3:bucket/repo", "snapshots", "--json", "--latest", "1", "--path", "/data",
        ])
    );
    assert_eq!(cmd.envs.len(), 2);
}

#[test]
fn restic_config_getters() {
    let b = backup_config();
    assert_eq!(b.repo(), "s3:bucket/repo");
    assert_eq!(b.environments().as_ref().map(|e| e.len()), Some(2));
    let r = restore_config();
    assert_eq!(r.repo(), "/mnt/repo");
    assert!(r.environments().is_none());
}

#[test]
fn backup_strategy_names() {
    assert_eq!(BackupStrategy::StopApp.to_string(), "stop_app");
    assert_eq!(BackupStrategy::Live.to_string(), "live");
    assert_eq!(BackupStrategy::from_str("stop_app"), Ok(BackupStrategy::StopApp));
    assert_eq!(BackupStrategy::from_str("live"), Ok(BackupStrategy::Live));
    assert_eq!(BackupStrategy::from_str("Live"), Err(UnknownVariant));
    assert_eq!(BackupStrategy::from_str(" live"), Err(UnknownVariant));
}

#[test]
fn backup_strategy_defaults_to_stopping_the_app() {
    assert_eq!(BackupStrategy::default(), BackupStrategy::StopApp);
    assert_eq!(BackupStrategy::effective(None), BackupStrategy::StopApp);
    assert_eq!(BackupStrategy::effective(Some(BackupStrategy::Live)), BackupStrategy::Live);
}

#[test]
fn restore_strategy_names() {
    assert_eq!(RestoreStrategy::Always.to_string(), "always");
    assert_eq!(RestoreStrategy::IfMissing.to_string(), "if_missing");
    assert_eq!(RestoreStrategy::from_str("always"), Ok(RestoreStrategy::Always));
    assert_eq!(RestoreStrategy::from_str("if_missing"), Ok(RestoreStrategy::IfMissing));
    assert_eq!(RestoreStrategy::from_str("never"), Err(UnknownVariant));
    assert_eq!(RestoreStrategy::default(), RestoreStrategy::IfMissing);
}

#[test]
fn network_mode_names() {
    assert_eq!(NetworkMode::Host.to_string(), "host");
    assert_eq!(NetworkMode::Bridge.to_string(), "bridge");
    assert_eq!(NetworkMode::from_str("host"), Ok(NetworkMode::Host));
    assert_eq!(NetworkMode::from_str("bridge"), Ok(NetworkMode::Bridge));
    assert_eq!(NetworkMode::from_str(""), Err(UnknownVariant));
}

#[test]
fn update_defaults_to_daily() {
    assert!(matches!(UpdateConfig::default().interval, Interval::Daily));
}
