//! The daemon and its launcher.

use hostcmd::cli::{Cli, Commands, ConnectionArgs, ServerArgs};
use hostcmd::config::{HomeNotSet, HostPath};
use hostcmd::failure::Failure;
use hostcmd::daemon::{
    daemon_ready_file_path, format_ready_error, is_launcher, judge_start, parse_daemon_ready_error,
    plan_launch, resolve_daemon_files, server_ready_file, DaemonFiles, Launch, LaunchAction,
    LaunchEvent, ReadyFile, StartVerdict, DAEMON_READY_OK,
};

fn path(text: &str) -> HostPath {
    HostPath::from_text(text)
}

fn args() -> ServerArgs {
    ServerArgs {
        connection: ConnectionArgs {
            secret: "s".into(),
            port: 8080,
            host: "h".into(),
        },
        log_file: None,
        pid_file: path("~/x.pid"),
        daemon: true,
        ssh_forward: None,
        ssh_forward_port: None,
        allow: vec![],
    }
}

fn settings(args: &ServerArgs) -> Vec<(&'static str, Option<String>)> {
    let plan = plan_launch(args, &path("/l"), &path("/p"), &path("/r"));
    assert_eq!(plan.args, ["server", "--daemon"]);
    plan.settings
        .into_iter()
        .map(|setting| {
            let value = setting
                .value
                .map(|value| String::from_utf8(value).expect("the value is a text"));
            (setting.name, value)
        })
        .collect()
}

fn some(text: &str) -> Option<String> {
    Some(text.to_string())
}

fn failed(text: &str, remove: bool) -> StartVerdict {
    StartVerdict::Failed {
        failure: Failure::plain(text.into()),
        remove,
    }
}

fn look(contents: &str) -> StartVerdict {
    judge_start(&path("/r"), None, ReadyFile::Contents(contents.into()))
}

#[test]
fn only_the_first_process_launches() {
    assert!(is_launcher(true, false));
    assert!(!is_launcher(true, true));
    assert!(!is_launcher(false, false));
}

#[test]
fn daemon_ready_file_comes_first() {
    assert_eq!(
        server_ready_file(Some(path("a")), Some(path("b"))),
        Some(path("a"))
    );
    assert_eq!(server_ready_file(None, Some(path("b"))), Some(path("b")));
    assert_eq!(server_ready_file(None, None), None);
}

#[test]
fn launch_removes_what_is_not_set() {
    assert_eq!(
        settings(&args()),
        [
            ("HOSTCMD_SECRET", some("s")),
            ("HOSTCMD_PORT", some("8080")),
            ("HOSTCMD_HOST", some("h")),
            ("HOSTCMD_LOG_FILE", some("/l")),
            ("HOSTCMD_PID_FILE", some("/p")),
            ("HOSTCMD_DAEMON_READY_FILE", some("/r")),
            ("HOSTCMD_SSH_FORWARD", None),
            ("HOSTCMD_SSH_FORWARD_PORT", None),
            ("HOSTCMD_ALLOW", None),
        ]
    );
}

#[test]
fn launch_hands_everything_on() {
    let mut args = args();
    args.ssh_forward = Some("jump".into());
    args.ssh_forward_port = Some(2222);
    args.allow = vec!["pbcopy".into(), "uname".into()];
    assert_eq!(
        settings(&args)[6..],
        [
            ("HOSTCMD_SSH_FORWARD", some("jump")),
            ("HOSTCMD_SSH_FORWARD_PORT", some("2222")),
            ("HOSTCMD_ALLOW", some("pbcopy,uname")),
        ]
    );
}

#[test]
fn allow_list_survives_the_launch() {
    let mut args = args();
    args.allow = vec!["a".into(), "".into(), "b c".into()];
    let value = settings(&args)[8].1.clone().expect("the list is set");
    let pieces: Vec<&str> = value.split(',').collect();
    assert_eq!(pieces, args.allow);
}

#[test]
fn configuration_survives_the_launch() {
    let mut full = args();
    full.connection.port = 65535;
    full.ssh_forward = Some("jump".into());
    full.ssh_forward_port = Some(0);
    full.allow = vec!["pbcopy".into(), "uname".into()];
    for args in [args(), full] {
        let mut words: Vec<String> = vec!["hostcmd".into(), "server".into(), "--daemon".into()];
        for (name, value) in settings(&args) {
            let option = match name {
                "HOSTCMD_SECRET" => "--secret",
                "HOSTCMD_PORT" => "--port",
                "HOSTCMD_HOST" => "--host",
                "HOSTCMD_LOG_FILE" => "--log-file",
                "HOSTCMD_PID_FILE" => "--pid-file",
                "HOSTCMD_SSH_FORWARD" => "--ssh-forward",
                "HOSTCMD_SSH_FORWARD_PORT" => "--ssh-forward-port",
                "HOSTCMD_ALLOW" => "--allow",
                _ => continue,
            };
            if let Some(value) = value {
                words.push(option.into());
                words.push(value);
            }
        }
        match Cli::try_parse_from(words).expect("the child's arguments should parse").command {
            Commands::Server(child) => assert_eq!(
                child,
                ServerArgs {
                    log_file: Some(path("/l")),
                    pid_file: path("/p"),
                    ..args
                }
            ),
            other => panic!("expected the server command, got {other:?}"),
        }
    }
}

#[test]
fn launched_settings_differ() {
    let mut names: Vec<&str> = settings(&args()).iter().map(|setting| setting.0).collect();
    names.sort();
    names.dedup();
    assert_eq!(names.len(), 9);
}

#[test]
fn daemon_files_are_resolved() {
    assert_eq!(resolve_daemon_files(&args(), None), Err(HomeNotSet));
    let files = resolve_daemon_files(&args(), Some(&path("/h"))).expect("home is known");
    assert_eq!(files.pid_file, path("/h/x.pid"));
    assert_eq!(files.log_file, path("/h/.local/share/hostcmd/server.log"));
}

#[test]
fn ready_file_stands_beside_the_pid_file() {
    let temporary = path("/tmp");
    assert_eq!(
        daemon_ready_file_path(Some(&path("/run")), &temporary, 12, 345),
        path("/run/server.ready.12.345")
    );
    assert_eq!(
        daemon_ready_file_path(Some(&path("")), &temporary, 12, 345),
        path("/tmp/server.ready.12.345")
    );
    assert_eq!(
        daemon_ready_file_path(None, &temporary, 0, u128::MAX),
        path("/tmp/server.ready.0.340282366920938463463374607431768211455")
    );
}

#[test]
fn startup_errors_are_read() {
    assert_eq!(format_ready_error("no port"), "ERR no port\n");
    assert_eq!(parse_daemon_ready_error("ERR no port\n"), Some("no port"));
    assert_eq!(parse_daemon_ready_error("ERR  a \n\t"), Some(" a"));
    assert_eq!(parse_daemon_ready_error("ERR "), Some(""));
    assert_eq!(parse_daemon_ready_error("ERR"), None);
    assert_eq!(parse_daemon_ready_error("OK\n"), None);
    assert_eq!(parse_daemon_ready_error("err x"), None);
}

#[test]
fn ready_daemon_is_reported() {
    assert_eq!(look(DAEMON_READY_OK), StartVerdict::Ready);
}

#[test]
fn half_written_ready_file_is_awaited() {
    for contents in ["", "O", "OK", "E", "ERR"] {
        assert_eq!(look(contents), StartVerdict::Waiting);
    }
    assert_eq!(
        judge_start(&path("/r"), None, ReadyFile::Missing),
        StartVerdict::Waiting
    );
}

#[test]
fn startup_error_reaches_the_launcher() {
    let contents = || ReadyFile::Contents(format_ready_error("server failed: busy"));
    let verdict = failed("server failed: busy", true);
    assert_eq!(judge_start(&path("/r"), None, contents()), verdict);
    assert_eq!(
        judge_start(&path("/r"), Some("exit status: 1"), contents()),
        verdict
    );
}

#[test]
fn exited_child_is_a_failure() {
    for file in [
        ReadyFile::Missing,
        ReadyFile::Unreadable(Failure::plain("x".into())),
        ReadyFile::Contents(DAEMON_READY_OK.into()),
    ] {
        assert_eq!(
            judge_start(&path("/r"), Some("exit status: 1"), file),
            failed(
                "daemon child exited before startup completed: exit status: 1",
                true
            )
        );
    }
}

#[test]
fn unreadable_ready_file_is_a_failure() {
    assert_eq!(
        judge_start(
            &path("/r"),
            None,
            ReadyFile::Unreadable(Failure::plain("Permission denied".into()))
        ),
        StartVerdict::Failed {
            failure: Failure::plain("Permission denied".into())
                .within("failed to read daemon readiness file /r".into()),
            remove: false
        }
    );
}

fn launch_after(steps: usize) -> Launch {
    let (mut launch, first) = Launch::begin(DaemonFiles {
        pid_file: path("/p"),
        log_file: path("/l"),
    });
    assert_eq!(first, LaunchAction::CreatePidDirectory);
    let actions = [
        LaunchAction::CreateLogDirectory,
        LaunchAction::NameReadyFile,
        LaunchAction::Locate,
        LaunchAction::Spawn,
        LaunchAction::Look { pause: false },
    ];
    for action in actions.into_iter().take(steps) {
        if action == LaunchAction::Locate {
            launch.name_ready_file(path("/r"));
        }
        assert_eq!(launch.step(LaunchEvent::Succeeded), action);
    }
    launch
}

fn looked(contents: &str) -> LaunchEvent {
    LaunchEvent::Looked {
        exited: None,
        file: ReadyFile::Contents(contents.into()),
    }
}

#[test]
fn launcher_waits_until_the_daemon_is_up() {
    let mut launch = launch_after(5);
    assert_eq!(
        launch.step(looked("")),
        LaunchAction::Look { pause: true }
    );
    assert_eq!(launch.step(looked("OK\n")), LaunchAction::Finish);
    assert_eq!(launch.step(looked("OK\n")), LaunchAction::Rest);
}

#[test]
fn launcher_fails_with_the_daemon() {
    assert_eq!(
        launch_after(5).step(looked("ERR busy\n")),
        LaunchAction::Fail {
            failure: Failure::plain("busy".into()),
            remove: true
        }
    );
    assert_eq!(
        launch_after(5).step(LaunchEvent::Looked {
            exited: Some("exit status: 3".into()),
            file: ReadyFile::Missing
        }),
        LaunchAction::Fail {
            failure: Failure::plain(
                "daemon child exited before startup completed: exit status: 3".into()
            ),
            remove: true
        }
    );
}

#[test]
fn launcher_names_the_step_that_failed() {
    let texts = [
        "failed to create pid file directory /p",
        "failed to create log file directory /l",
        "system clock is before Unix epoch",
        "failed to locate current executable",
        "failed to start daemon child",
        "failed to poll daemon child",
    ];
    for (steps, text) in texts.iter().enumerate() {
        assert_eq!(
            launch_after(steps).step(LaunchEvent::Failed(Failure::plain("x".into()))),
            LaunchAction::Fail {
                failure: Failure::plain("x".into()).within(text.to_string()),
                remove: false
            }
        );
    }
}
