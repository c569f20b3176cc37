//! One command on the server.

use hostcmd::command::{
    exit_code, kill_args, output_buffer, output_frame, output_refusal, plan_command, spawn_failure, CommandRun,
    EndSignal, MissingCommand, RunAction, RunEvent, RunPhase, StreamKind,
};
use hostcmd::failure::Failure;
use hostcmd::protocol::{DecodedServerFrame, ForwardedEnvVar, BYTE_FRAME_HEADER_SIZE, CHUNK_SIZE};
use hostcmd::session::ExecRequest;

fn request(words: &[&str]) -> ExecRequest {
    ExecRequest {
        command: words.iter().map(|word| word.to_string()).collect(),
        forward_env: vec![
            ForwardedEnvVar {
                name: "DISPLAY".into(),
                value: ":0".into(),
            },
            ForwardedEnvVar {
                name: "HOSTCMD_CLIENT_USERNAME".into(),
                value: "root".into(),
            },
        ],
        client_hostname: "host".into(),
        client_username: "user".into(),
        client_cwd: "/cwd".into(),
    }
}

fn run(events: Vec<RunEvent>) -> Vec<RunAction> {
    let mut run = CommandRun::new();
    events.into_iter().map(|event| run.step(event)).collect()
}

fn failed(links: &[&str]) -> RunAction {
    let mut chain = vec!["command execution failed".to_string()];
    chain.extend(links.iter().map(|link| link.to_string()));
    RunAction::Fail {
        failure: Failure { links: chain },
        cause: Some(links[0].to_string()),
    }
}

#[test]
fn command_is_planned() {
    let plan = plan_command(&request(&["sh", "-c", "true"])).expect("there is a command");
    assert_eq!(plan.program, "sh");
    assert_eq!(plan.args, ["-c", "true"]);
    let env: Vec<(&str, &str)> = plan
        .env
        .iter()
        .map(|var| (var.name.as_str(), var.value.as_str()))
        .collect();
    assert_eq!(
        env,
        [
            ("DISPLAY", ":0"),
            ("HOSTCMD_CLIENT_USERNAME", "root"),
            ("HOSTCMD_CLIENT_HOSTNAME", "host"),
            ("HOSTCMD_CLIENT_USERNAME", "user"),
            ("HOSTCMD_CLIENT_CWD", "/cwd"),
            ("HOSTCMD_CLIENT_EXEC", "true"),
        ]
    );
}

#[test]
fn command_knows_its_origin_whatever_is_forwarded() {
    let plan = plan_command(&request(&["env"])).expect("there is a command");
    let last = |name: &str| {
        plan.env
            .iter()
            .rev()
            .find(|var| var.name == name)
            .map(|var| var.value.clone())
    };
    assert_eq!(last("HOSTCMD_CLIENT_USERNAME"), Some("user".into()));
    assert_eq!(last("DISPLAY"), Some(":0".into()));
}

#[test]
fn missing_command_is_refused() {
    assert_eq!(plan_command(&request(&[])), Err(MissingCommand));
    assert_eq!(MissingCommand.message(), "missing command");
    assert_eq!(spawn_failure("nope"), "failed to spawn nope");
}

#[test]
fn output_is_framed_in_place() {
    let mut buffer = output_buffer();
    assert_eq!(buffer.len(), BYTE_FRAME_HEADER_SIZE + CHUNK_SIZE);
    assert!(buffer.iter().all(|byte| *byte == 0));
    buffer[BYTE_FRAME_HEADER_SIZE..BYTE_FRAME_HEADER_SIZE + 3].copy_from_slice(b"abc");
    let frame = output_frame(StreamKind::Stderr, buffer, 3).expect("something was read");
    assert_eq!(frame, [2, 0, 0, 0, 3, b'a', b'b', b'c']);
    assert_eq!(
        DecodedServerFrame::decode(&frame),
        Ok(DecodedServerFrame::Stderr(b"abc"))
    );
    let full = output_frame(StreamKind::Stdout, output_buffer(), CHUNK_SIZE)
        .expect("something was read");
    assert_eq!(
        DecodedServerFrame::decode(&full),
        Ok(DecodedServerFrame::Stdout(&[0; CHUNK_SIZE]))
    );
    assert_eq!(output_frame(StreamKind::Stdout, output_buffer(), 0), None);
}

#[test]
fn output_is_framed_up_to_its_end() {
    for size in [0, 1, CHUNK_SIZE, CHUNK_SIZE * 2 + 3] {
        let output: Vec<u8> = (0..size).map(|n| n as u8).collect();
        let mut rest = &output[..];
        let mut frames = Vec::new();
        loop {
            let mut buffer = output_buffer();
            let room = &mut buffer[BYTE_FRAME_HEADER_SIZE..];
            let read = rest.len().min(room.len());
            room[..read].copy_from_slice(&rest[..read]);
            rest = &rest[read..];
            match output_frame(StreamKind::Stderr, buffer, read) {
                Some(frame) => frames.push(frame),
                None => break,
            }
        }
        let mut together = Vec::new();
        for frame in &frames {
            match DecodedServerFrame::decode(frame) {
                Ok(DecodedServerFrame::Stderr(chunk)) => together.extend_from_slice(chunk),
                other => panic!("expected a stderr frame, got {other:?}"),
            }
        }
        assert_eq!(together, output);
        assert_eq!(frames.is_empty(), size == 0);
    }
    assert_eq!(
        output_refusal(Failure::plain("channel closed".into())).text(),
        "client disconnected while streaming output: channel closed"
    );
}

#[test]
fn exit_codes_have_a_fallback() {
    assert_eq!(exit_code(Some(0)), 0);
    assert_eq!(exit_code(Some(-9)), -9);
    assert_eq!(exit_code(None), 1);
}

#[test]
fn signals_go_to_the_process_group() {
    assert_eq!(kill_args(123, EndSignal::Term), ["-TERM", "-123"]);
    assert_eq!(kill_args(u32::MAX, EndSignal::Kill), ["-KILL", "-4294967295"]);
}

#[test]
fn exit_code_is_reported_after_the_output() {
    assert_eq!(
        run(vec![
            RunEvent::Exited(Some(3)),
            RunEvent::StreamEnded,
            RunEvent::StreamEnded,
            RunEvent::Reported,
            RunEvent::Reported,
        ]),
        [
            RunAction::AwaitStdout,
            RunAction::AwaitStderr,
            RunAction::Report(3),
            RunAction::Finish,
            RunAction::Wait,
        ]
    );
    assert_eq!(
        run(vec![
            RunEvent::Exited(None),
            RunEvent::StreamEnded,
            RunEvent::StreamEnded,
        ])[2],
        RunAction::Report(1)
    );
}

#[test]
fn obedient_command_is_not_killed() {
    assert_eq!(
        run(vec![
            RunEvent::Cancelled(Some(7)),
            RunEvent::Cancelled(Some(7)),
            RunEvent::Exited(None),
        ]),
        [
            RunAction::Terminate(Some(7)),
            RunAction::Wait,
            RunAction::AwaitStdout,
        ]
    );
}

#[test]
fn stubborn_command_is_killed() {
    assert_eq!(
        run(vec![
            RunEvent::Cancelled(Some(7)),
            RunEvent::GraceElapsed(Some(7)),
            RunEvent::Exited(None),
        ]),
        [
            RunAction::Terminate(Some(7)),
            RunAction::KillGroup(7),
            RunAction::AwaitStdout,
        ]
    );
    assert_eq!(
        run(vec![
            RunEvent::Cancelled(None),
            RunEvent::GraceElapsed(None),
            RunEvent::Killed,
            RunEvent::Exited(Some(0)),
        ]),
        [
            RunAction::Terminate(None),
            RunAction::KillProcess,
            RunAction::Reap,
            RunAction::AwaitStdout,
        ]
    );
}

#[test]
fn uncancelled_command_is_left_alone() {
    assert_eq!(
        run(vec![RunEvent::GraceElapsed(Some(7)), RunEvent::Killed]),
        [RunAction::Wait, RunAction::Wait]
    );
}

#[test]
fn failures_name_what_was_done() {
    let x = || Failure::plain("x".into());
    assert_eq!(
        run(vec![RunEvent::WaitFailed(x())])[0],
        failed(&["failed to wait for command", "x"])
    );
    assert_eq!(
        run(vec![RunEvent::Cancelled(None), RunEvent::WaitFailed(x())])[1],
        failed(&["failed to wait for cancelled command", "x"])
    );
    assert_eq!(
        run(vec![
            RunEvent::Cancelled(None),
            RunEvent::GraceElapsed(None),
            RunEvent::KillFailed(x()),
        ])[2],
        failed(&["failed to kill cancelled command", "x"])
    );
    assert_eq!(
        run(vec![
            RunEvent::Cancelled(None),
            RunEvent::GraceElapsed(Some(1)),
            RunEvent::WaitFailed(x()),
        ])[2],
        failed(&["failed to wait for killed command", "x"])
    );
    assert_eq!(
        run(vec![RunEvent::Exited(None), RunEvent::StreamFailed(x())])[1],
        failed(&["x"])
    );
    assert_eq!(
        run(vec![RunEvent::Exited(None), RunEvent::StreamPanicked(x())])[1],
        failed(&["stdout task panicked", "x"])
    );
    assert_eq!(
        run(vec![
            RunEvent::Exited(None),
            RunEvent::StreamEnded,
            RunEvent::StreamFailed(x()),
        ])[2],
        failed(&["x"])
    );
    assert_eq!(
        run(vec![
            RunEvent::Exited(None),
            RunEvent::StreamEnded,
            RunEvent::StreamPanicked(x()),
        ])[2],
        failed(&["stderr task panicked", "x"])
    );
    assert_eq!(
        run(vec![
            RunEvent::Exited(None),
            RunEvent::StreamEnded,
            RunEvent::StreamEnded,
            RunEvent::ReportRefused(x()),
        ])[3],
        RunAction::Fail {
            failure: x().within("client disconnected before exit code was sent".into()),
            cause: None,
        }
    );
}

#[test]
fn failure_is_told_in_short_and_in_full() {
    let failure = Failure::plain("x".into())
        .within("b".into())
        .within("a".into());
    assert_eq!(failure.outermost(), "a");
    assert_eq!(failure.text(), "a: b: x");
    assert_eq!(Failure { links: vec![] }.outermost(), "");
}

#[test]
fn done_is_final() {
    let mut command = CommandRun::new();
    command.step(RunEvent::WaitFailed(Failure::plain("x".into())));
    assert_eq!(command.phase, RunPhase::Done);
    assert_eq!(command.step(RunEvent::Exited(Some(0))), RunAction::Wait);
    assert_eq!(command.phase, RunPhase::Done);
}
