//! One client session.

use hostcmd::cli::{ConnectionArgs, ExecArgs};
use hostcmd::client::{
    client_outcome, connect_failure, format_url, plan_client, resolve_client_cwd,
    resolve_client_hostname, resolve_client_username, stdin_buffer, stdin_frame, ClientAction, ClientEvent,
    ClientFacts, ClientOutcome, ClientPhase, ClientSession, IdentityError, Received,
};
use hostcmd::command::{output_buffer, output_frame, StreamKind};
use hostcmd::failure::Failure;
use hostcmd::protocol::{
    put_stderr_frame_header, put_stdout_frame_header, ClientFrame, ForwardedEnvVar,
    ServerControlFrame, CHUNK_SIZE,
};
use hostcmd::text::with_context;
use hostcmd::session::{ExecRequest, Incoming, Session, SessionAction, SessionEvent};

fn request() -> ExecRequest {
    ExecRequest {
        command: vec!["cat".into(), "-n".into()],
        forward_env: vec![ForwardedEnvVar {
            name: "A".into(),
            value: "b".into(),
        }],
        client_hostname: "host".into(),
        client_username: "user".into(),
        client_cwd: "/cwd".into(),
    }
}

fn running() -> ClientSession {
    let (mut session, _) = ClientSession::open(request());
    assert_eq!(session.step(ClientEvent::Sent), ClientAction::Wait);
    assert_eq!(session.phase, ClientPhase::Running);
    session
}

fn running_server() -> Session {
    let mut server = Session::new();
    let (_, frame) = ClientSession::open(request());
    server.step(&[], SessionEvent::Message(Incoming::Binary(frame)));
    server.step(&[], SessionEvent::Accepted);
    server
}

fn received(bytes: Vec<u8>) -> ClientEvent {
    ClientEvent::Message(Received::Binary(bytes))
}

#[test]
fn identity_is_resolved() {
    assert_eq!(resolve_client_hostname(b"box"), Ok("box".to_string()));
    assert_eq!(
        resolve_client_hostname(&[b'b', 0xff]),
        Ok("b\u{fffd}".to_string())
    );
    assert_eq!(
        resolve_client_hostname(b""),
        Err(IdentityError::EmptyHostname)
    );
    assert_eq!(
        resolve_client_username(Some("me".into())),
        Ok("me".to_string())
    );
    assert_eq!(
        resolve_client_username(Some("".into())),
        Err(IdentityError::EmptyUsername)
    );
    assert_eq!(resolve_client_username(None), Err(IdentityError::MissingUser));
    assert_eq!(resolve_client_cwd(b"/tmp"), Ok("/tmp".to_string()));
    assert_eq!(resolve_client_cwd(b""), Err(IdentityError::EmptyCwd));
}

#[test]
fn identity_errors_have_words() {
    assert_eq!(
        IdentityError::EmptyHostname.message(),
        "client hostname is empty"
    );
    assert_eq!(
        IdentityError::MissingUser.message(),
        "client user record is missing"
    );
    assert_eq!(
        IdentityError::EmptyUsername.message(),
        "client username is empty"
    );
    assert_eq!(
        IdentityError::EmptyCwd.message(),
        "client current working directory is empty"
    );
}

#[test]
fn url_names_host_and_port() {
    assert_eq!(format_url("127.0.0.1", 8080), "ws://127.0.0.1:8080/ws");
}

#[test]
fn stdin_becomes_frames() {
    assert_eq!(
        stdin_frame(Some(b"ab")),
        (ClientFrame::Stdin(b"ab".to_vec()), false)
    );
    assert_eq!(stdin_frame(Some(b"")), (ClientFrame::StdinEof, true));
    assert_eq!(stdin_frame(None), (ClientFrame::Cancel, true));
}

#[test]
fn stdin_is_framed_up_to_its_end() {
    let input: Vec<u8> = (0..CHUNK_SIZE * 2 + 7).map(|n| n as u8).collect();
    let mut rest = &input[..];
    let mut frames = Vec::new();
    loop {
        let mut buffer = stdin_buffer();
        assert_eq!(buffer.len(), CHUNK_SIZE);
        let read = rest.len().min(buffer.len());
        buffer[..read].copy_from_slice(&rest[..read]);
        rest = &rest[read..];
        let (frame, last) = stdin_frame(Some(&buffer[..read]));
        frames.push(frame);
        if last {
            break;
        }
    }
    assert_eq!(frames.pop(), Some(ClientFrame::StdinEof));
    let mut together = Vec::new();
    for frame in frames {
        match ClientFrame::decode(&frame.encode()) {
            Ok(ClientFrame::Stdin(chunk)) => together.extend(chunk),
            other => panic!("expected a stdin frame, got {other:?}"),
        }
    }
    assert_eq!(together, input);
}

#[test]
fn request_comes_first() {
    let (mut session, frame) = ClientSession::open(request());
    match ClientFrame::decode(&frame) {
        Ok(ClientFrame::Exec {
            command,
            forward_env,
            client_hostname,
            client_username,
            client_cwd,
        }) => {
            assert_eq!(command, ["cat", "-n"]);
            assert_eq!(forward_env.len(), 1);
            assert_eq!(client_hostname, "host");
            assert_eq!(client_username, "user");
            assert_eq!(client_cwd, "/cwd");
        }
        other => panic!("expected an exec frame, got {other:?}"),
    }
    assert_eq!(session.step(ClientEvent::Interrupted), ClientAction::Wait);
    assert_eq!(
        session.step(ClientEvent::SendFailed("gone".into())),
        ClientAction::Fail("failed to send exec request: gone".into())
    );
}

#[test]
fn output_is_mirrored_and_the_last_exit_code_kept() {
    let mut session = running();
    let mut stdout = vec![0; 7];
    put_stdout_frame_header(&mut stdout, 2);
    let mut stderr = vec![7; 6];
    put_stderr_frame_header(&mut stderr, 1);
    assert_eq!(
        session.step(received(stdout)),
        ClientAction::WriteStdout(vec![0, 0])
    );
    assert_eq!(
        session.step(received(stderr)),
        ClientAction::WriteStderr(vec![7])
    );
    for code in [4, 5] {
        assert_eq!(
            session.step(received(ServerControlFrame::Exit(code).encode())),
            ClientAction::Wait
        );
    }
    assert_eq!(
        session.step(ClientEvent::Message(Received::Other)),
        ClientAction::Wait
    );
    assert_eq!(
        session.step(ClientEvent::Message(Received::Ended)),
        ClientAction::End(5)
    );
    assert_eq!(session.phase, ClientPhase::Ended);
}

#[test]
fn missing_exit_code_is_a_failure() {
    assert_eq!(
        running().step(ClientEvent::Message(Received::Ended)),
        ClientAction::End(1)
    );
}

#[test]
fn failures_have_words() {
    for (event, text) in [
        (
            ClientEvent::SendFailed("x".into()),
            "failed to send stdin frame: x",
        ),
        (
            ClientEvent::InterruptUnavailable("x".into()),
            "failed to listen for ctrl-c: x",
        ),
        (
            ClientEvent::Message(Received::Failed("x".into())),
            "websocket read failed: x",
        ),
        (ClientEvent::WriteFailed("broken pipe".into()), "broken pipe"),
        (
            received(ServerControlFrame::Error("command is not allowed".into()).encode()),
            "command is not allowed",
        ),
        (
            received(vec![3]),
            "server exit: reading exit code: truncated frame",
        ),
    ] {
        let mut session = running();
        assert_eq!(session.step(event), ClientAction::Fail(text.into()));
        assert_eq!(session.phase, ClientPhase::Ended);
        assert_eq!(session.step(ClientEvent::Interrupted), ClientAction::Wait);
    }
    assert_eq!(with_context("a", "b"), "a: b");
}

#[test]
fn interrupt_cancels_the_command() {
    let mut session = running();
    let frame = match session.step(ClientEvent::Interrupted) {
        ClientAction::Send(frame) => frame,
        other => panic!("expected a frame, got {other:?}"),
    };
    assert_eq!(
        running_server().step(&[], SessionEvent::Message(Incoming::Binary(frame))),
        SessionAction::Cancel {
            reason: hostcmd::session::CancelReason::Requested,
            frame_error: None,
            signal: true
        }
    );
    assert_eq!(session.step(ClientEvent::Sent), ClientAction::CloseAndEnd(130));

    let mut session = running();
    session.step(ClientEvent::Interrupted);
    assert_eq!(
        session.step(ClientEvent::SendFailed("x".into())),
        ClientAction::Fail("failed to send cancel request: x".into())
    );
}

#[test]
fn stdin_crosses_the_connection() {
    let mut session = running();
    let mut server = running_server();
    for (read, action) in [
        (&b"ab"[..], SessionAction::WriteStdin(b"ab".to_vec())),
        (&b""[..], SessionAction::CloseStdin),
    ] {
        let (frame, _) = stdin_frame(Some(read));
        match session.step(ClientEvent::Stdin(frame)) {
            ClientAction::Send(frame) => assert_eq!(
                server.step(&[], SessionEvent::Message(Incoming::Binary(frame))),
                action
            ),
            other => panic!("expected a frame, got {other:?}"),
        }
    }
    assert!(!session.read_stdin);
    assert_eq!(
        session.step(ClientEvent::Stdin(ClientFrame::Stdin(vec![1]))),
        ClientAction::Wait
    );
}

#[test]
fn ended_stdin_reader_closes_stdin() {
    let mut session = running();
    assert_eq!(session.step(ClientEvent::StdinEnded), ClientAction::Wait);
    assert!(!session.read_stdin);
    let mut session = running();
    session.step(ClientEvent::Stdin(ClientFrame::Cancel));
    assert!(!session.read_stdin);
}

#[test]
fn output_crosses_the_connection() {
    for (kind, action) in [
        (StreamKind::Stdout, ClientAction::WriteStdout(vec![0, 0, 0])),
        (StreamKind::Stderr, ClientAction::WriteStderr(vec![0, 0, 0])),
    ] {
        let frame = output_frame(kind, output_buffer(), 3).expect("something was read");
        match running_server().step(&[], SessionEvent::Output(frame)) {
            SessionAction::Send(frame) => assert_eq!(running().step(received(frame)), action),
            other => panic!("expected a frame, got {other:?}"),
        }
    }
}

#[test]
fn exit_code_crosses_the_connection() {
    let mut session = running();
    match running_server().step(&[], SessionEvent::Exited(42)) {
        SessionAction::Send(frame) => session.step(received(frame)),
        other => panic!("expected a frame, got {other:?}"),
    };
    assert_eq!(
        session.step(ClientEvent::Message(Received::Ended)),
        ClientAction::End(42)
    );
}

#[test]
fn refusal_crosses_the_connection() {
    let (_, frame) = ClientSession::open(request());
    let reply = Session::new().step(
        &["true".to_string()],
        SessionEvent::Message(Incoming::Binary(frame)),
    );
    match reply {
        SessionAction::Reject { frame, .. } => assert_eq!(
            running().step(received(frame)),
            ClientAction::Fail("command is not allowed".into())
        ),
        other => panic!("expected a reply, got {other:?}"),
    }
}

#[test]
fn failure_crosses_the_connection() {
    let mut server = running_server();
    server.step(&[], SessionEvent::OutputEnded);
    match server.step(&[], SessionEvent::Failed(Failure::plain("missing command".into()))) {
        SessionAction::Reply(frame) => assert_eq!(
            running().step(received(frame)),
            ClientAction::Fail("missing command".into())
        ),
        other => panic!("expected a reply, got {other:?}"),
    }
}

#[test]
fn process_ends_with_the_outcome() {
    assert_eq!(
        client_outcome(Ok(3)),
        ClientOutcome {
            code: 3,
            complaint: None
        }
    );
    assert_eq!(
        client_outcome(Err("no".into())),
        ClientOutcome {
            code: 1,
            complaint: Some("Error: no".into())
        }
    );
}

fn exec_args() -> ExecArgs {
    ExecArgs {
        connection: ConnectionArgs {
            secret: "s".into(),
            port: 9,
            host: "h".into(),
        },
        command: vec!["cat".into(), "-n".into()],
    }
}

fn facts() -> ClientFacts {
    ClientFacts {
        hostname: Ok(b"host".to_vec()),
        username: Ok(Some("user".into())),
        cwd: Ok(b"/cwd".to_vec()),
    }
}

#[test]
fn client_is_planned() {
    let forwarded = request().forward_env;
    let plan = plan_client(exec_args(), forwarded, facts()).expect("all facts are known");
    assert_eq!(plan.url, "ws://h:9/ws");
    assert_eq!(plan.request, request());
    assert_eq!(
        connect_failure(&plan.url, "refused"),
        "failed to connect to ws://h:9/ws: refused"
    );
}

#[test]
fn first_missing_fact_is_the_failure() {
    let fail = |facts: ClientFacts| plan_client(exec_args(), vec![], facts);
    let x = || "x".to_string();
    for (facts, text) in [
        (
            ClientFacts {
                hostname: Err(x()),
                username: Err(x()),
                cwd: Err(x()),
            },
            "failed to determine client hostname: x",
        ),
        (
            ClientFacts {
                hostname: Ok(vec![]),
                ..facts()
            },
            "client hostname is empty",
        ),
        (
            ClientFacts {
                username: Err(x()),
                cwd: Err(x()),
                ..facts()
            },
            "failed to determine client username: x",
        ),
        (
            ClientFacts {
                username: Ok(None),
                ..facts()
            },
            "client user record is missing",
        ),
        (
            ClientFacts {
                username: Ok(Some("".into())),
                ..facts()
            },
            "client username is empty",
        ),
        (
            ClientFacts {
                cwd: Err(x()),
                ..facts()
            },
            "failed to determine client current working directory: x",
        ),
        (
            ClientFacts {
                cwd: Ok(vec![]),
                ..facts()
            },
            "client current working directory is empty",
        ),
    ] {
        assert_eq!(fail(facts), Err(text.to_string()));
    }
}
