//! One connection on the server.

use hostcmd::failure::Failure;
use hostcmd::protocol::{ClientFrame, ServerControlFrame};
use hostcmd::session::{
    CancelReason, ExecRequest, Incoming, Phase, Session, SessionAction, SessionEvent,
};

fn error(text: &str) -> Vec<u8> {
    ServerControlFrame::Error(text.to_string()).encode()
}

fn exec(words: &[&str]) -> ClientFrame {
    ClientFrame::Exec {
        command: words.iter().map(|word| word.to_string()).collect(),
        forward_env: vec![],
        client_hostname: "h".into(),
        client_username: "u".into(),
        client_cwd: "/".into(),
    }
}

fn binary(frame: ClientFrame) -> SessionEvent {
    SessionEvent::Message(Incoming::Binary(frame.encode()))
}

fn running() -> Session {
    let mut session = Session::new();
    session.step(&[], binary(exec(&["cat"])));
    assert_eq!(session.step(&[], SessionEvent::Accepted), SessionAction::Wait);
    assert_eq!(session.phase, Phase::Running);
    session
}

#[test]
fn allowed_request_is_started() {
    let mut session = Session::new();
    assert!(session.awaits_client());
    let action = session.step(&["uname".to_string()], binary(exec(&["uname", "-a"])));
    assert_eq!(
        action,
        SessionAction::Start(ExecRequest {
            command: vec!["uname".into(), "-a".into()],
            forward_env: vec![],
            client_hostname: "h".into(),
            client_username: "u".into(),
            client_cwd: "/".into(),
        })
    );
    assert_eq!(session.phase, Phase::Starting);
    assert!(!session.awaits_client());
}

#[test]
fn refused_requests_get_one_answer() {
    let allowed = ["true".to_string()];
    for (event, text) in [
        (binary(ClientFrame::Cancel), "expected exec frame before cancel"),
        (
            binary(ClientFrame::Stdin(vec![1])),
            "expected exec frame before stdin",
        ),
        (
            binary(ClientFrame::StdinEof),
            "expected exec frame before stdin",
        ),
        (
            SessionEvent::Message(Incoming::Binary(vec![1, 0])),
            "client exec: reading command argument count",
        ),
        (
            SessionEvent::Message(Incoming::Other),
            "expected binary exec frame",
        ),
        (
            SessionEvent::Message(Incoming::Close),
            "expected binary exec frame",
        ),
    ] {
        let mut session = Session::new();
        assert_eq!(
            session.step(&allowed, event),
            SessionAction::Reply(error(text))
        );
        assert_eq!(session.phase, Phase::Left);
        assert_eq!(
            session.step(&allowed, binary(exec(&["true"]))),
            SessionAction::Wait
        );
        assert_eq!(session.phase, Phase::Left);
    }
}

#[test]
fn disallowed_command_is_named_and_answered() {
    let allowed = ["true".to_string()];
    for words in [&["false", "-x"][..], &[]] {
        let mut session = Session::new();
        assert_eq!(
            session.step(&allowed, binary(exec(words))),
            SessionAction::Reject {
                command: words.iter().map(|word| word.to_string()).collect(),
                frame: error("command is not allowed"),
            }
        );
        assert_eq!(session.phase, Phase::Left);
        assert_eq!(
            session.step(&allowed, binary(exec(&["true"]))),
            SessionAction::Wait
        );
    }
}

#[test]
fn client_that_says_nothing_gets_nothing() {
    for incoming in [Incoming::Ended, Incoming::Failed] {
        let mut session = Session::new();
        assert_eq!(
            session.step(&[], SessionEvent::Message(incoming)),
            SessionAction::Leave
        );
        assert_eq!(session.phase, Phase::Left);
    }
}

#[test]
fn stopped_actor_is_reported() {
    let mut session = Session::new();
    session.step(&[], binary(exec(&["cat"])));
    assert_eq!(
        session.step(&[], SessionEvent::ActorStopped),
        SessionAction::Reply(error("server actor stopped"))
    );
}

#[test]
fn output_is_relayed_in_order() {
    let mut session = running();
    for chunk in [vec![1, 2], vec![3], vec![]] {
        assert_eq!(
            session.step(&[], SessionEvent::Output(chunk.clone())),
            SessionAction::Send(chunk)
        );
    }
    assert_eq!(
        session.step(&[], SessionEvent::Exited(7)),
        SessionAction::Send(vec![3, 0, 0, 0, 7])
    );
    assert_eq!(
        session.step(&[], SessionEvent::OutputEnded),
        SessionAction::AwaitReport
    );
    assert_eq!(session.step(&[], SessionEvent::Finished), SessionAction::Close);
    assert_eq!(session.phase, Phase::Left);
}

#[test]
fn stdin_is_relayed_until_it_ends() {
    let mut session = running();
    assert_eq!(
        session.step(&[], binary(ClientFrame::Stdin(vec![5, 6]))),
        SessionAction::WriteStdin(vec![5, 6])
    );
    assert_eq!(
        session.step(&[], binary(ClientFrame::StdinEof)),
        SessionAction::CloseStdin
    );
    assert_eq!(
        session.step(&[], binary(ClientFrame::Stdin(vec![7]))),
        SessionAction::Wait
    );
}

#[test]
fn refused_stdin_is_not_offered_again() {
    let mut session = running();
    session.step(&[], SessionEvent::StdinRefused);
    assert_eq!(
        session.step(&[], binary(ClientFrame::Stdin(vec![7]))),
        SessionAction::Wait
    );
}

#[test]
fn command_is_cancelled_once() {
    for (event, reason, words) in [
        (binary(ClientFrame::Cancel), CancelReason::Requested, None),
        (
            SessionEvent::Message(Incoming::Binary(vec![])),
            CancelReason::BadFrame,
            Some("reading client frame tag"),
        ),
        (
            SessionEvent::Message(Incoming::Binary(vec![3, 0, 0, 0, 2, 7])),
            CancelReason::BadFrame,
            Some("client stdin: reading bytes"),
        ),
        (
            SessionEvent::Message(Incoming::Close),
            CancelReason::Closed,
            None,
        ),
        (
            SessionEvent::Message(Incoming::Ended),
            CancelReason::Ended,
            None,
        ),
        (
            SessionEvent::Message(Incoming::Failed),
            CancelReason::ReadFailed,
            None,
        ),
    ] {
        let mut session = running();
        assert!(session.awaits_client());
        assert_eq!(
            session.step(&[], event),
            SessionAction::Cancel {
                reason,
                frame_error: words.map(str::to_string),
                signal: true
            }
        );
        assert!(!session.awaits_client());
        assert_eq!(
            session.step(&[], binary(ClientFrame::Cancel)),
            SessionAction::Wait
        );
        assert_eq!(
            session.step(&[], SessionEvent::Output(vec![1])),
            SessionAction::Send(vec![1])
        );
        assert_eq!(
            session.step(&[], SessionEvent::SendFailed),
            SessionAction::CancelAndLeave { signal: false }
        );
    }
}

#[test]
fn failed_send_cancels_and_leaves() {
    let mut session = running();
    assert_eq!(
        session.step(&[], SessionEvent::SendFailed),
        SessionAction::CancelAndLeave { signal: true }
    );
    assert_eq!(session.phase, Phase::Left);
}

#[test]
fn second_request_and_other_messages_are_ignored() {
    let mut session = running();
    assert_eq!(
        session.step(&[], binary(exec(&["rm"]))),
        SessionAction::IgnoreExec
    );
    assert_eq!(
        session.step(&[], SessionEvent::Message(Incoming::Other)),
        SessionAction::Wait
    );
    assert_eq!(session, running());
}

#[test]
fn failures_are_reported_last() {
    let finishing = || {
        let mut session = running();
        session.step(&[], SessionEvent::OutputEnded);
        session
    };
    assert_eq!(
        finishing().step(
            &[],
            SessionEvent::Failed(
                Failure::plain("no such file".into()).within("failed to spawn x".into())
            )
        ),
        SessionAction::Reply(error("failed to spawn x"))
    );
    assert_eq!(
        finishing().step(&[], SessionEvent::Lost),
        SessionAction::Reply(error("exec task stopped"))
    );
}
