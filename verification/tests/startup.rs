//! Starting the server.

use hostcmd::config::HostPath;
use hostcmd::daemon::{judge_start, ReadyFile, StartVerdict};
use hostcmd::failure::Failure;
use hostcmd::ssh::ServeEnd;
use hostcmd::startup::{failure_report, Startup, StartupAction, StartupEvent, StartupPhase};

fn path(text: &str) -> HostPath {
    HostPath::from_text(text)
}

fn begin() -> (Startup, StartupAction) {
    Startup::begin(
        Some(path("/l")),
        path("/p"),
        Some("ssh jump".into()),
        Some(path("/r")),
    )
}

fn course() -> Vec<(StartupEvent, StartupAction)> {
    vec![
        (StartupEvent::Succeeded, StartupAction::Resolve),
        (StartupEvent::Resolved("1.2.3.4:5".into()), StartupAction::Bind),
        (StartupEvent::Succeeded, StartupAction::CreatePidDirectory),
        (StartupEvent::Succeeded, StartupAction::WritePid),
        (StartupEvent::Succeeded, StartupAction::Forward),
        (StartupEvent::Succeeded, StartupAction::Ready),
        (StartupEvent::Succeeded, StartupAction::Serve),
    ]
}

#[test]
fn every_step_is_taken_in_order() {
    let (mut startup, first) = begin();
    assert_eq!(first, StartupAction::PrepareLog);
    for (event, action) in course() {
        assert_eq!(startup.step(event), action);
    }
    assert_eq!(startup.step(StartupEvent::Succeeded), StartupAction::Rest);
    assert_eq!(
        startup.step(StartupEvent::Ended(ServeEnd::Server)),
        StartupAction::Finish
    );
    assert_eq!(startup.phase, StartupPhase::Done);
    assert_eq!(startup.step(StartupEvent::Succeeded), StartupAction::Rest);
}

#[test]
fn unwanted_steps_are_left_out() {
    let (mut startup, first) = Startup::begin(None, path("/p"), None, None);
    assert_eq!(first, StartupAction::Resolve);
    startup.step(StartupEvent::Resolved("a".into()));
    startup.step(StartupEvent::Succeeded);
    startup.step(StartupEvent::Succeeded);
    assert_eq!(startup.step(StartupEvent::Succeeded), StartupAction::Serve);
}

#[test]
fn ready_file_is_written_without_a_forward_too() {
    let (mut startup, _) = Startup::begin(None, path("/p"), None, Some(path("/r")));
    startup.step(StartupEvent::Resolved("a".into()));
    startup.step(StartupEvent::Succeeded);
    startup.step(StartupEvent::Succeeded);
    assert_eq!(startup.step(StartupEvent::Succeeded), StartupAction::Ready);
}

#[test]
fn failures_name_the_step_and_are_reported() {
    let texts = [
        "failed to prepare log file /l",
        "invalid host or port",
        "failed to bind 1.2.3.4:5",
        "failed to create pid file directory /p",
        "failed to write pid file /p",
        "failed to start ssh forward: ssh jump",
        "failed to write daemon readiness file /r",
    ];
    for (n, text) in texts.iter().enumerate() {
        let (mut startup, _) = begin();
        for (event, _) in course().into_iter().take(n) {
            startup.step(event);
        }
        assert_eq!(
            startup.step(StartupEvent::Failed(Failure::plain("x".into()))),
            StartupAction::Fail {
                failure: Failure::plain("x".into()).within(text.to_string()),
                report: Some(format!("ERR {text}: x\n")),
            }
        );
        assert_eq!(startup.phase, StartupPhase::Done);
    }
}

#[test]
fn end_of_the_forward_is_a_failure() {
    let (mut startup, _) = begin();
    for (event, _) in course() {
        startup.step(event);
    }
    match startup.step(StartupEvent::Ended(ServeEnd::ForwardExited(Failure::plain("x".into())))) {
        StartupAction::Fail { failure, .. } => {
            assert_eq!(failure.text(), "ssh forward exited: x")
        }
        other => panic!("expected a failure, got {other:?}"),
    }
}

#[test]
fn failure_reaches_the_launcher() {
    let (mut startup, _) = begin();
    let report = match startup.step(StartupEvent::Failed(Failure::plain("disk full".into()))) {
        StartupAction::Fail { report, .. } => report.expect("there is a launcher"),
        other => panic!("expected a failure, got {other:?}"),
    };
    assert_eq!(
        judge_start(&path("/r"), None, ReadyFile::Contents(report)),
        StartVerdict::Failed {
            failure: Failure::plain("failed to prepare log file /l: disk full".into()),
            remove: true
        }
    );
}

#[test]
fn nobody_is_told_where_nobody_waits() {
    assert_eq!(failure_report(None, "x"), None);
    assert_eq!(
        failure_report(Some(&path("/r")), "x"),
        Some("ERR x\n".to_string())
    );
}
