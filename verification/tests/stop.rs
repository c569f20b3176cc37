//! Stopping a daemon.

use hostcmd::config::HostPath;
use hostcmd::failure::Failure;
use hostcmd::stop::{
    find_process_to_stop, format_pid_file, parse_pid, PidError, Stop, StopAction, StopEvent,
    StopPhase, StopSignal, StopTarget,
};

const GROUP: StopTarget = StopTarget::ProcessGroup(42);
const PROCESS: StopTarget = StopTarget::Process(42);

fn gone() -> StopEvent {
    StopEvent::Gone(Failure::plain("ESRCH: No such process".into()))
}

fn signal(pause: bool, target: StopTarget, signal: StopSignal) -> StopAction {
    StopAction::Signal {
        pause,
        target,
        signal,
    }
}

fn failure(context: &str, cause: &str) -> StopAction {
    StopAction::Fail {
        pause: false,
        failure: Failure::plain(cause.into()).within(context.into()),
    }
}

fn watched() -> Stop {
    let (mut stop, first) = Stop::begin(42);
    assert_eq!(first, signal(false, GROUP, StopSignal::Term));
    assert_eq!(
        stop.step(StopEvent::Delivered),
        signal(false, GROUP, StopSignal::Probe)
    );
    stop
}

fn killed() -> Stop {
    let mut stop = watched();
    for _ in 0..99 {
        assert_eq!(
            stop.step(StopEvent::Delivered),
            signal(true, GROUP, StopSignal::Probe)
        );
    }
    assert_eq!(
        stop.step(StopEvent::Delivered),
        signal(true, GROUP, StopSignal::Kill)
    );
    stop
}

#[test]
fn pid_files_are_read() {
    assert_eq!(parse_pid("42\n"), Ok(42));
    assert_eq!(parse_pid(" \t+7\u{a0}\n"), Ok(7));
    assert_eq!(parse_pid("2147483647"), Ok(i32::MAX));
    assert_eq!(parse_pid(""), Err(PidError::Empty));
    assert_eq!(parse_pid(" \n"), Err(PidError::Empty));
    assert_eq!(parse_pid("0"), Err(PidError::NotPositive));
    assert_eq!(parse_pid("-5"), Err(PidError::NotPositive));
    assert_eq!(
        parse_pid("2147483648"),
        Err(PidError::Invalid {
            text: "2147483648".into(),
            cause: "number too large to fit in target type".into()
        })
    );
    assert_eq!(
        parse_pid("4 2"),
        Err(PidError::Invalid {
            text: "4 2".into(),
            cause: "invalid digit found in string".into()
        })
    );
}

#[test]
fn unreadable_pid_files_have_words() {
    assert_eq!(PidError::Empty.failure().text(), "pid file is empty");
    assert_eq!(
        PidError::NotPositive.failure().text(),
        "pid file contains invalid pid 0"
    );
    match parse_pid("a\"b\n") {
        Err(error) => assert_eq!(
            error.failure().links,
            [
                "invalid pid file contents \"a\\\"b\"",
                "invalid digit found in string"
            ]
        ),
        Ok(pid) => panic!("expected a refusal, got {pid}"),
    }
}

#[test]
fn pid_file_round_trips() {
    assert_eq!(format_pid_file(1), "1\n");
    for pid in [1u32, 9, 10, 4321, i32::MAX as u32] {
        assert_eq!(parse_pid(&format_pid_file(pid)), Ok(pid as i32));
    }
    assert_eq!(format_pid_file(u32::MAX), "4294967295\n");
}

#[test]
fn targets_have_names_and_numbers() {
    assert_eq!(GROUP.text(), "process group 42");
    assert_eq!(PROCESS.text(), "process 42");
    assert_eq!(GROUP.kill_pid(), -42);
    assert_eq!(PROCESS.kill_pid(), 42);
}

#[test]
fn obedient_daemon_is_only_asked() {
    let mut stop = watched();
    assert_eq!(
        stop.step(StopEvent::Delivered),
        signal(true, GROUP, StopSignal::Probe)
    );
    assert_eq!(stop.step(gone()), StopAction::Finish);
    assert_eq!(stop.phase, StopPhase::Done);
    assert_eq!(stop.step(gone()), StopAction::Rest);
}

#[test]
fn process_is_asked_where_there_is_no_group() {
    let (mut stop, _) = Stop::begin(42);
    assert_eq!(stop.step(gone()), signal(false, PROCESS, StopSignal::Term));
    assert_eq!(
        stop.step(StopEvent::Delivered),
        signal(false, PROCESS, StopSignal::Probe)
    );
    assert_eq!(stop.step(gone()), StopAction::Finish);
}

#[test]
fn stubborn_daemon_is_killed_after_the_grace_period() {
    let mut stop = killed();
    assert_eq!(stop.step(gone()), signal(false, GROUP, StopSignal::Probe));
    assert_eq!(stop.step(gone()), StopAction::Finish);
}

#[test]
fn immortal_daemon_is_given_up() {
    let mut stop = killed();
    assert_eq!(
        stop.step(StopEvent::Delivered),
        signal(false, GROUP, StopSignal::Probe)
    );
    for _ in 0..99 {
        assert_eq!(
            stop.step(StopEvent::Delivered),
            signal(true, GROUP, StopSignal::Probe)
        );
    }
    assert_eq!(
        stop.step(StopEvent::Delivered),
        StopAction::Fail {
            pause: true,
            failure: Failure::plain("process group 42 did not exit after KILL".into())
        }
    );
}

#[test]
fn undelivered_signals_have_words() {
    let denied = || StopEvent::Failed(Failure::plain("EPERM: Operation not permitted".into()));
    let (mut stop, _) = Stop::begin(42);
    assert_eq!(
        stop.step(denied()),
        failure("failed to signal process group 42", "EPERM: Operation not permitted")
    );
    let (mut stop, _) = Stop::begin(42);
    stop.step(gone());
    assert_eq!(
        stop.step(gone()),
        failure("failed to signal process 42", "ESRCH: No such process")
    );
    assert_eq!(
        watched().step(denied()),
        failure("failed to check process group 42", "EPERM: Operation not permitted")
    );
    assert_eq!(
        killed().step(denied()),
        failure("failed to signal process group 42", "EPERM: Operation not permitted")
    );
    let mut stop = killed();
    stop.step(gone());
    assert_eq!(
        stop.step(denied()),
        failure("failed to check process group 42", "EPERM: Operation not permitted")
    );
}

#[test]
fn process_to_stop_is_found() {
    let path = HostPath::from_text("/p");
    assert_eq!(find_process_to_stop(&path, Ok("17\n".into())), Ok(17));
    assert_eq!(
        find_process_to_stop(&path, Ok("".into())),
        Err(Failure::plain("pid file is empty".into()))
    );
    assert_eq!(
        find_process_to_stop(&path, Err(Failure::plain("No such file".into()))),
        Err(Failure::plain("No such file".into()).within("failed to read pid file /p".into()))
    );
}
