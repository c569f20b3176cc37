//! The wire format.

use hostcmd::decode_error::{DecodeError, DecodeStep};
use hostcmd::protocol::{
    put_stderr_frame_header, put_stdout_frame_header, ClientFrame, ClientFrameTag,
    DecodedServerFrame, ForwardedEnvVar, ServerControlFrame, ServerFrameTag, BYTE_FRAME_HEADER_SIZE,
    CHUNK_SIZE,
};
use hostcmd::wire::FrameError;

/// Formats an error with its full context chain.
fn error_chain(error: DecodeError) -> String {
    error.chain()
}

fn refused(bytes: &[u8]) -> DecodeError {
    ClientFrame::decode(bytes).expect_err("the frame should be refused")
}

fn refused_by_client(bytes: &[u8]) -> DecodeError {
    DecodedServerFrame::decode(bytes).expect_err("the frame should be refused")
}

fn exec_frame() -> ClientFrame {
    ClientFrame::Exec {
        command: vec!["a".into(), "".into()],
        forward_env: vec![ForwardedEnvVar {
            name: "N".into(),
            value: "é".into(),
        }],
        client_hostname: "h".into(),
        client_username: "u".into(),
        client_cwd: "/".into(),
    }
}

/// Verifies that client exec frames round-trip through the wire format.
#[test]
fn client_exec_round_trip() {
    let frame = ClientFrame::Exec {
        command: vec!["sh".into(), "-lc".into(), "printf test".into()],
        forward_env: vec![
            ForwardedEnvVar {
                name: "DISPLAY".into(),
                value: ":0".into(),
            },
            ForwardedEnvVar {
                name: "SSH_AUTH_SOCK".into(),
                value: "/tmp/ssh.sock".into(),
            },
        ],
        client_hostname: "workstation".into(),
        client_username: "esamatti".into(),
        client_cwd: "/workspace/project".into(),
    };

    let decoded = ClientFrame::decode(&frame.encode()).expect("client exec should decode");

    assert_eq!(
        decoded, frame,
        "client exec frame should round-trip through encode and decode"
    );
}

/// Verifies that server error frames round-trip through the wire format.
#[test]
fn server_error_round_trip() {
    let frame = ServerControlFrame::Error("permission denied".into());

    let encoded = frame.encode();
    let decoded = DecodedServerFrame::decode(&encoded).expect("server error should decode");

    assert_eq!(
        decoded,
        DecodedServerFrame::Error("permission denied".into()),
        "server error frame should round-trip through encode and decode"
    );
}

/// Verifies that borrowed server output decoding avoids allocating output payloads.
#[test]
fn borrowed_server_stdout_decodes_payload_slice() {
    let mut encoded = vec![0; BYTE_FRAME_HEADER_SIZE + 3];
    put_stdout_frame_header(&mut encoded[..BYTE_FRAME_HEADER_SIZE], 3);
    encoded[BYTE_FRAME_HEADER_SIZE..].copy_from_slice(b"abc");

    let decoded = DecodedServerFrame::decode(&encoded).expect("borrowed stdout should decode");

    assert_eq!(
        decoded,
        DecodedServerFrame::Stdout(b"abc"),
        "borrowed stdout frame should reference the expected payload bytes"
    );
}

/// Verifies that a hand-written client exec frame decodes successfully.
#[test]
fn client_exec_decodes_from_inlined_frame() {
    let encoded = [
        1, // client exec tag
        0, 0, 0, 2, // command length
        0, 0, 0, 2, b's', b'h', // command[0]
        0, 0, 0, 5, b'e', b'c', b'h', b'o', b'o', // command[1]
        0, 0, 0, 0, // forwarded env length
        0, 0, 0, 5, b'h', b'o', b's', b't', b'a', // hostname
        0, 0, 0, 5, b'u', b's', b'e', b'r', b'a', // username
        0, 0, 0, 5, b'/', b't', b'm', b'p', b'a', // cwd
    ];

    let decoded = ClientFrame::decode(&encoded).expect("inlined client exec should decode");

    assert_eq!(
        decoded,
        ClientFrame::Exec {
            command: vec!["sh".into(), "echoo".into()],
            forward_env: vec![],
            client_hostname: "hosta".into(),
            client_username: "usera".into(),
            client_cwd: "/tmpa".into(),
        },
        "inlined client exec bytes should decode into the expected frame"
    );
}

/// Verifies that truncated client exec payloads include the exec tag prefix in context.
#[test]
fn client_exec_decode_error_includes_tag_prefix() {
    let encoded = [1, 0, 0, 0, 1];
    let error = ClientFrame::decode(&encoded).expect_err("client exec should fail to decode");
    let message = error_chain(error);

    assert!(
        message.contains("client exec: reading command argument 0"),
        "client exec decode errors should mention the argument index context"
    );
    assert!(
        message.contains("truncated frame"),
        "client exec decode errors should preserve the truncated frame root cause"
    );
}

/// Verifies that trailing bytes in client cancel frames include the cancel tag prefix.
#[test]
fn client_cancel_trailing_bytes_error_includes_tag_prefix() {
    let encoded = [2, 0];
    let error = ClientFrame::decode(&encoded).expect_err("client cancel should fail to decode");
    let message = error_chain(error);

    assert!(
        message.contains("client cancel: validating trailing bytes"),
        "client cancel decode errors should include the cancel tag context"
    );
    assert!(
        message.contains("trailing frame bytes"),
        "client cancel decode errors should preserve the trailing bytes root cause"
    );
}

/// Verifies that truncated server exit payloads include the exit tag prefix in context.
#[test]
fn server_exit_decode_error_includes_tag_prefix() {
    let encoded = [3];
    let error =
        DecodedServerFrame::decode(&encoded).expect_err("server exit should fail to decode");
    let message = error_chain(error);

    assert!(
        message.contains("server exit: reading exit code"),
        "server exit decode errors should include the exit tag context"
    );
    assert!(
        message.contains("truncated frame"),
        "server exit decode errors should preserve the truncated frame root cause"
    );
}

/// Verifies that invalid UTF-8 in server error payloads includes the error tag prefix.
#[test]
fn server_error_decode_error_includes_tag_prefix() {
    let encoded = [4, 0, 0, 0, 1, 0xff];
    let error =
        DecodedServerFrame::decode(&encoded).expect_err("server error should fail to decode");
    let message = error_chain(error);

    assert!(
        message.contains("server error: reading message"),
        "server error decode errors should include the error tag context"
    );
    assert!(
        message.contains("invalid utf-8 string"),
        "server error decode errors should preserve the invalid UTF-8 root cause"
    );
}

#[test]
fn client_frames_have_their_bytes() {
    assert_eq!(ClientFrame::Cancel.encode(), [2]);
    assert_eq!(
        ClientFrame::Stdin(vec![7, 8]).encode(),
        [3, 0, 0, 0, 2, 7, 8]
    );
    assert_eq!(ClientFrame::StdinEof.encode(), [4]);
    assert_eq!(
        exec_frame().encode(),
        [
            1, 0, 0, 0, 2, 0, 0, 0, 1, b'a', 0, 0, 0, 0, 0, 0, 0, 1, 0, 0, 0, 1, b'N', 0, 0, 0, 2,
            0xc3, 0xa9, 0, 0, 0, 1, b'h', 0, 0, 0, 1, b'u', 0, 0, 0, 1, b'/'
        ]
    );
}

#[test]
fn server_frames_have_their_bytes() {
    assert_eq!(ServerControlFrame::Exit(-2).encode(), [3, 255, 255, 255, 254]);
    assert_eq!(ServerControlFrame::Exit(258).encode(), [3, 0, 0, 1, 2]);
    assert_eq!(
        ServerControlFrame::Error("no".into()).encode(),
        [4, 0, 0, 0, 2, b'n', b'o']
    );
}

#[test]
fn every_client_frame_round_trips() {
    for frame in [
        exec_frame(),
        ClientFrame::Cancel,
        ClientFrame::Stdin(vec![]),
        ClientFrame::Stdin(vec![0; CHUNK_SIZE]),
        ClientFrame::StdinEof,
    ] {
        assert_eq!(ClientFrame::decode(&frame.encode()), Ok(frame));
    }
}

#[test]
fn every_server_frame_round_trips() {
    for code in [0, 1, -1, 130, i32::MIN, i32::MAX] {
        assert_eq!(
            DecodedServerFrame::decode(&ServerControlFrame::Exit(code).encode()),
            Ok(DecodedServerFrame::Exit(code))
        );
    }
    let mut stderr = vec![0; 9];
    put_stderr_frame_header(&mut stderr, 4);
    assert_eq!(
        DecodedServerFrame::decode(&stderr),
        Ok(DecodedServerFrame::Stderr(&[0, 0, 0, 0]))
    );
}

#[test]
fn decoded_frames_are_canonical() {
    let bytes = [3, 0, 0, 0, 2, 7, 8];
    let frame = ClientFrame::decode(&bytes).expect("stdin should decode");
    assert_eq!(frame.encode(), bytes);
    let bytes = [4, 0, 0, 0, 2, b'n', b'o'];
    match DecodedServerFrame::decode(&bytes) {
        Ok(DecodedServerFrame::Error(text)) => {
            assert_eq!(ServerControlFrame::Error(text).encode(), bytes)
        }
        other => panic!("expected an error frame, got {other:?}"),
    }
}

#[test]
fn different_frames_have_different_bytes() {
    assert_ne!(
        ClientFrame::Stdin(vec![]).encode(),
        ClientFrame::StdinEof.encode()
    );
    assert_ne!(
        ServerControlFrame::Exit(1).encode(),
        ServerControlFrame::Exit(2).encode()
    );
}

#[test]
fn headers_keep_what_follows() {
    let mut buffer = [9u8; 7];
    put_stdout_frame_header(&mut buffer, 0x01020304);
    assert_eq!(buffer, [1, 1, 2, 3, 4, 9, 9]);
    put_stderr_frame_header(&mut buffer, 2);
    assert_eq!(buffer, [2, 0, 0, 0, 2, 9, 9]);
}

#[test]
fn refusals_name_the_value() {
    assert_eq!(refused(&[]).chain(), "reading client frame tag: truncated frame");
    assert_eq!(
        refused(&[9]).chain(),
        "decoding client frame tag: unknown client frame 9"
    );
    assert_eq!(
        refused(&[1, 0]).chain(),
        "client exec: reading command argument count: truncated frame"
    );
    assert_eq!(
        refused(&[1, 0, 0, 0, 1, 0, 0, 0, 1, b'a']).chain(),
        "client exec: reading forwarded env count: truncated frame"
    );
    assert_eq!(
        refused(&[1, 0, 0, 0, 0, 0, 0, 0, 1, 0]).chain(),
        "client exec: reading forwarded env 0 name: truncated frame"
    );
    assert_eq!(
        refused(&[1, 0, 0, 0, 0, 0, 0, 0, 1, 0, 0, 0, 0, 0, 0, 0, 5]).chain(),
        "client exec: reading forwarded env 0 value: truncated frame"
    );
    assert_eq!(
        refused(&[1, 0, 0, 0, 0, 0, 0, 0, 0]).chain(),
        "client exec: reading hostname: truncated frame"
    );
    assert_eq!(
        refused(&[1, 0, 0, 0, 0, 0, 0, 0, 0, 0, 0, 0, 0]).chain(),
        "client exec: reading username: truncated frame"
    );
    assert_eq!(
        refused(&[1, 0, 0, 0, 0, 0, 0, 0, 0, 0, 0, 0, 0, 0, 0, 0, 0]).chain(),
        "client exec: reading cwd: truncated frame"
    );
    let mut long = exec_frame().encode();
    long.push(0);
    assert_eq!(
        refused(&long).chain(),
        "client exec: validating trailing bytes: trailing frame bytes"
    );
    assert_eq!(
        refused(&[3, 0, 0, 0, 2, 1]).chain(),
        "client stdin: reading bytes: truncated frame"
    );
    assert_eq!(
        refused(&[3, 0, 0, 0, 1, 1, 1]).chain(),
        "client stdin: validating trailing bytes: trailing frame bytes"
    );
    assert_eq!(
        refused(&[4, 4]).chain(),
        "client stdin_eof: validating trailing bytes: trailing frame bytes"
    );
    assert_eq!(
        refused_by_client(&[]).chain(),
        "reading server frame tag: truncated frame"
    );
    assert_eq!(
        refused_by_client(&[0]).chain(),
        "decoding server frame tag: unknown server frame 0"
    );
    assert_eq!(
        refused_by_client(&[1, 0, 0, 0, 1]).chain(),
        "server stdout: reading bytes: truncated frame"
    );
    assert_eq!(
        refused_by_client(&[1, 0, 0, 0, 0, 0]).chain(),
        "server stdout: validating trailing bytes: trailing frame bytes"
    );
    assert_eq!(
        refused_by_client(&[2, 0]).chain(),
        "server stderr: reading bytes: truncated frame"
    );
    assert_eq!(
        refused_by_client(&[2, 0, 0, 0, 0, 0]).chain(),
        "server stderr: validating trailing bytes: trailing frame bytes"
    );
    assert_eq!(
        refused_by_client(&[3, 0, 0, 0, 0, 0]).chain(),
        "server exit: validating trailing bytes: trailing frame bytes"
    );
    assert_eq!(
        refused_by_client(&[4, 0, 0, 0, 0, 0]).chain(),
        "server error: validating trailing bytes: trailing frame bytes"
    );
}

#[test]
fn refusals_say_how_far_a_text_is_utf8() {
    assert_eq!(
        refused_by_client(&[4, 0, 0, 0, 3, b'a', 0xff, b'b']).chain(),
        "server error: reading message: invalid utf-8 string: invalid utf-8 sequence of 1 bytes from index 1"
    );
    assert_eq!(
        refused_by_client(&[4, 0, 0, 0, 2, b'a', 0xc3]).chain(),
        "server error: reading message: invalid utf-8 string: incomplete utf-8 byte sequence from index 1"
    );
    assert_eq!(
        refused(&[1, 0, 0, 0, 1, 0, 0, 0, 1, 0x80]),
        DecodeError {
            step: DecodeStep::ExecCommandArgument(0),
            cause: FrameError::InvalidUtf8 {
                valid_up_to: 0,
                error_len: Some(1)
            },
        }
    );
}

#[test]
fn outermost_message_leaves_the_cause_out() {
    assert_eq!(refused(&[9]).message(), "decoding client frame tag");
}

#[test]
fn huge_count_is_refused_without_its_elements() {
    assert_eq!(
        refused(&[1, 255, 255, 255, 255]).message(),
        "client exec: reading command argument 0"
    );
}

#[test]
fn tags_go_by_their_bytes() {
    for byte in 1..=4 {
        assert_eq!(ClientFrameTag::try_from(byte).map(|tag| tag.as_u8()), Ok(byte));
        assert_eq!(ServerFrameTag::try_from(byte).map(|tag| tag.as_u8()), Ok(byte));
    }
    assert_eq!(
        ClientFrameTag::try_from(0),
        Err(FrameError::UnknownClientFrame(0))
    );
    assert_eq!(
        ServerFrameTag::try_from(5),
        Err(FrameError::UnknownServerFrame(5))
    );
}

#[test]
fn cut_frames_are_truncated() {
    for frame in [
        exec_frame(),
        ClientFrame::Cancel,
        ClientFrame::Stdin(vec![1, 2, 3]),
        ClientFrame::StdinEof,
    ] {
        let encoded = frame.encode();
        for n in 0..encoded.len() {
            assert_eq!(refused(&encoded[..n]).cause, FrameError::Truncated);
        }
    }
    for frame in [
        ServerControlFrame::Exit(-1),
        ServerControlFrame::Error("é".into()),
    ] {
        let encoded = frame.encode();
        for n in 0..encoded.len() {
            assert_eq!(refused_by_client(&encoded[..n]).cause, FrameError::Truncated);
        }
    }
}

#[test]
fn lengthened_frames_have_trailing_bytes() {
    for frame in [
        exec_frame(),
        ClientFrame::Cancel,
        ClientFrame::Stdin(vec![]),
        ClientFrame::StdinEof,
    ] {
        let mut encoded = frame.encode();
        encoded.push(0);
        assert_eq!(refused(&encoded).cause, FrameError::TrailingBytes);
    }
    for frame in [
        ServerControlFrame::Exit(0),
        ServerControlFrame::Error(String::new()),
    ] {
        let mut encoded = frame.encode();
        encoded.push(0);
        assert_eq!(
            refused_by_client(&encoded).cause,
            FrameError::TrailingBytes
        );
    }
}
