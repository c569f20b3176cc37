//! The laws of a client session, alone and together with the server's side of the connection.

use crate::client::{
    client_session_step, ended_client, opened_client, outcome_of, request_in, stdin_frame_of,
    stdin_frames, url_text, ClientActionView, ClientEventView, ClientFacts, ClientPhase,
    ClientSession, ReceivedView, FAILED_CODE, INTERRUPTED_CODE,
};
use crate::command::{output_of, RunActionView, RunEventView, RunPhase, StreamKind};
use crate::command_laws::{law_exit_code_is_kept, run_actions};
use crate::decode_error::{cause_text, step_text, DecodeError, DecodeStep};
use crate::failure::outermost;
use crate::protocol::{
    client_bytes, client_decoded, server_bytes, server_decoded, ClientFrameView, EnvVarView,
    ServerFrameView, CHUNK_SIZE,
};
use crate::roundtrip::{
    client_frame_fits, law_client_frame_round_trip, law_server_frame_round_trip, length_fits,
    server_frame_fits, text_fits,
};
use crate::session::{
    exec_frame, new_session, refusal_text, session_step, ActionView, CancelReason, EventView,
    IncomingView, Phase, RequestView, Session,
};
use crate::server::address_text;
use crate::session_laws::answer_frame;
use crate::text::{decimal, lossy_text};
use vstd::arithmetic::power::pow;
use vstd::prelude::*;
use vstd::utf8::encode_utf8;

verus! {

/// The actions that a course of events leads to.
pub open spec fn client_run(s: ClientSession, events: Seq<ClientEventView>) -> Seq<ClientActionView>
    decreases events.len(),
{
    if events.len() == 0 {
        Seq::empty()
    } else {
        let (next, action) = client_session_step(s, events[0]);
        seq![action] + client_run(next, events.skip(1))
    }
}

/// The state that a course of events leads to.
pub open spec fn client_after(s: ClientSession, events: Seq<ClientEventView>) -> ClientSession
    decreases events.len(),
{
    if events.len() == 0 {
        s
    } else {
        client_after(client_session_step(s, events[0]).0, events.skip(1))
    }
}

/// The event of a frame from the server.
pub open spec fn frame_event(frame: ServerFrameView) -> ClientEventView {
    ClientEventView::Message(ReceivedView::Binary(server_bytes(frame)))
}

/// The events of frames from the server, one after the other.
pub open spec fn frame_events(frames: Seq<ServerFrameView>) -> Seq<ClientEventView> {
    frames.map_values(|frame: ServerFrameView| frame_event(frame))
}

/// What the client does with a frame that reports no error.
pub open spec fn mirrored(frame: ServerFrameView) -> ClientActionView {
    match frame {
        ServerFrameView::Stdout(bytes) => ClientActionView::WriteStdout(bytes),
        ServerFrameView::Stderr(bytes) => ClientActionView::WriteStderr(bytes),
        _ => ClientActionView::Wait,
    }
}

/// The exit code that was reported last, or `before` where none was reported.
pub open spec fn last_exit(before: Option<i32>, frames: Seq<ServerFrameView>) -> Option<i32>
    decreases frames.len(),
{
    if frames.len() == 0 {
        before
    } else {
        last_exit(
            match frames[0] {
                ServerFrameView::Exit(code) => Some(code),
                _ => before,
            },
            frames.skip(1),
        )
    }
}

/// While the command runs, every frame that the server sends is mirrored: stdout on stdout, stderr
/// on stderr, in the order in which they came; and the exit code that was reported last is kept.
pub proof fn law_output_is_mirrored_in_order(s: ClientSession, frames: Seq<ServerFrameView>)
    requires
        s.phase == ClientPhase::Running,
        forall|i: int|
            0 <= i < frames.len() ==> server_frame_fits(#[trigger] frames[i])
                && !(frames[i] is Error),
    ensures
        client_run(s, frame_events(frames)) == frames.map_values(
            |frame: ServerFrameView| mirrored(frame),
        ),
        client_after(s, frame_events(frames)) == (ClientSession {
            exit: last_exit(s.exit, frames),
            ..s
        }),
    decreases frames.len(),
{
    let actions = frames.map_values(|frame: ServerFrameView| mirrored(frame));
    if frames.len() > 0 {
        let tail = frames.skip(1);
        assert forall|i: int| 0 <= i < tail.len() implies server_frame_fits(#[trigger] tail[i])
            && !(tail[i] is Error) by {
            assert(tail[i] == frames[i + 1]);
        }
        assert(server_frame_fits(frames[0]) && !(frames[0] is Error));
        law_server_frame_round_trip(frames[0]);
        let next = client_session_step(s, frame_event(frames[0])).0;
        law_output_is_mirrored_in_order(next, tail);
        assert(frame_events(frames).skip(1) =~= frame_events(tail));
        assert(seq![actions[0]] + tail.map_values(|frame: ServerFrameView| mirrored(frame))
            =~= actions);
    } else {
        assert(actions =~= Seq::empty());
        assert(frame_events(frames).len() == 0);
    }
}

/// The exit code of the remote command becomes the exit code of the client: once the server has
/// sent its frames and the stream ends, the client ends with the code that was reported last, and
/// with the code of a failure where none was.
pub proof fn law_exit_code_is_passed_on(s: ClientSession, frames: Seq<ServerFrameView>)
    requires
        s.phase == ClientPhase::Running,
        s.exit is None,
        forall|i: int|
            0 <= i < frames.len() ==> server_frame_fits(#[trigger] frames[i])
                && !(frames[i] is Error),
    ensures
        client_session_step(
            client_after(s, frame_events(frames)),
            ClientEventView::Message(ReceivedView::Ended),
        ).1 == ClientActionView::End(
            match last_exit(None, frames) {
                Some(code) => code,
                None => FAILED_CODE,
            },
        ),
{
    law_output_is_mirrored_in_order(s, frames);
}

/// The code with which the server's command exited is the one that the client ends with.
pub proof fn law_exit_code_crosses_the_connection(
    server: Session,
    allowed: Seq<Seq<char>>,
    client: ClientSession,
    code: i32,
)
    requires
        server.phase == Phase::Running,
        client.phase == ClientPhase::Running,
    ensures
        session_step(server, allowed, EventView::Exited(code)).1 matches ActionView::Send(frame)
            && client_session_step(
            client_session_step(
                client,
                ClientEventView::Message(ReceivedView::Binary(frame)),
            ).0,
            ClientEventView::Message(ReceivedView::Ended),
        ).1 == ClientActionView::End(code),
{
    law_server_frame_round_trip(ServerFrameView::Exit(code));
}

/// A character takes at most four bytes.
pub proof fn lemma_bytes_of_text(text: Seq<char>)
    ensures
        encode_utf8(text).len() <= 4 * text.len(),
    decreases text.len(),
{
    if text.len() > 0 {
        lemma_bytes_of_text(text.drop_first());
    }
}

/// A number below ten to the power of `digits` has at most so many digits.
proof fn lemma_decimal_len(n: nat, digits: nat)
    requires
        digits > 0,
        n < pow(10, digits),
    ensures
        decimal(n).len() <= digits,
    decreases digits,
{
    reveal(pow);
    if n >= 10 {
        assert(pow(10, digits) == 10 * pow(10, (digits - 1) as nat));
        lemma_decimal_len(n / 10, (digits - 1) as nat);
    }
}

/// The index of a value in a frame has at most ten digits.
proof fn lemma_index_len(index: u32)
    ensures
        decimal(index as nat).len() <= 10,
{
    reveal(pow);
    reveal_with_fuel(pow, 12);
    assert(pow(10, 10) == 10_000_000_000);
    lemma_decimal_len(index as nat, 10);
}

/// The description of a step is short.
pub proof fn lemma_step_text_is_short(step: DecodeStep)
    ensures
        step_text(step).len() <= 200,
{
    reveal_strlit("reading client frame tag");
    reveal_strlit("decoding client frame tag");
    reveal_strlit("client exec: reading command argument count");
    reveal_strlit("client exec: reading command argument ");
    reveal_strlit("client exec: reading forwarded env count");
    reveal_strlit("client exec: reading forwarded env ");
    reveal_strlit(" name");
    reveal_strlit(" value");
    reveal_strlit("client exec: reading hostname");
    reveal_strlit("client exec: reading username");
    reveal_strlit("client exec: reading cwd");
    reveal_strlit("client exec: validating trailing bytes");
    reveal_strlit("client cancel: validating trailing bytes");
    reveal_strlit("client stdin: reading bytes");
    reveal_strlit("client stdin: validating trailing bytes");
    reveal_strlit("client stdin_eof: validating trailing bytes");
    reveal_strlit("reading server frame tag");
    reveal_strlit("decoding server frame tag");
    reveal_strlit("server stdout: reading bytes");
    reveal_strlit("server stdout: validating trailing bytes");
    reveal_strlit("server stderr: reading bytes");
    reveal_strlit("server stderr: validating trailing bytes");
    reveal_strlit("server exit: reading exit code");
    reveal_strlit("server exit: validating trailing bytes");
    reveal_strlit("server error: reading message");
    reveal_strlit("server error: validating trailing bytes");
    match step {
        DecodeStep::ExecCommandArgument(index) => lemma_index_len(index),
        DecodeStep::ExecEnvName(index) => lemma_index_len(index),
        DecodeStep::ExecEnvValue(index) => lemma_index_len(index),
        _ => {},
    }
}

/// What a refused client is told is short.
proof fn lemma_refusal_is_short(allowed: Seq<Seq<char>>, first: IncomingView)
    ensures
        refusal_text(allowed, first) matches Some(text) ==> text.len() <= 200,
{
    reveal_strlit("command is not allowed");
    reveal_strlit("expected exec frame before cancel");
    reveal_strlit("expected exec frame before stdin");
    reveal_strlit("expected binary exec frame");
    if let IncomingView::Binary(bytes) = first {
        if let Err(e) = client_decoded(bytes) {
            lemma_step_text_is_short(e.step);
        }
    }
}

/// A request that the server refuses makes the client fail with the server's words.
pub proof fn law_refusal_crosses_the_connection(
    allowed: Seq<Seq<char>>,
    first: IncomingView,
    client: ClientSession,
)
    requires
        refusal_text(allowed, first) is Some,
        client.phase == ClientPhase::Running,
    ensures
        answer_frame(
            session_step(new_session(), allowed, EventView::Message(first)).1,
        ) matches Some(frame) && client_session_step(
            client,
            ClientEventView::Message(ReceivedView::Binary(frame)),
        ).1 == ClientActionView::Fail(refusal_text(allowed, first)->Some_0),
{
    let text = refusal_text(allowed, first)->Some_0;
    lemma_refusal_is_short(allowed, first);
    lemma_bytes_of_text(text);
    law_server_frame_round_trip(ServerFrameView::Error(text));
}

/// A command that fails on the server makes the client fail with the server's words: what the
/// outermost link of the failure says.
pub proof fn law_failure_crosses_the_connection(
    server: Session,
    allowed: Seq<Seq<char>>,
    client: ClientSession,
    failure: Seq<Seq<char>>,
)
    requires
        server.phase == Phase::Finishing,
        client.phase == ClientPhase::Running,
        text_fits(outermost(failure)),
    ensures
        session_step(server, allowed, EventView::Failed(failure)).1 matches ActionView::Reply(frame)
            && client_session_step(
            client,
            ClientEventView::Message(ReceivedView::Binary(frame)),
        ).1 == ClientActionView::Fail(outermost(failure)),
{
    law_server_frame_round_trip(ServerFrameView::Error(outermost(failure)));
}

/// What a read of stdin gave.
pub open spec fn stdin_reads(chunks: Seq<Seq<u8>>) -> Seq<Option<Seq<u8>>> {
    chunks.map_values(|chunk: Seq<u8>| Some(chunk))
}

/// The bytes that a stdin frame carries.
pub open spec fn stdin_payload(frame: ClientFrameView) -> Seq<u8> {
    match frame {
        ClientFrameView::Stdin(bytes) => bytes,
        _ => Seq::empty(),
    }
}

/// The frames of chunks of stdin.
pub open spec fn stdin_chunk_frames(chunks: Seq<Seq<u8>>) -> Seq<ClientFrameView> {
    chunks.map_values(|chunk: Seq<u8>| ClientFrameView::Stdin(chunk))
}

/// Stdin that is read in chunks up to its end, none of them larger than the room for one, is sent as
/// one stdin frame for each chunk and then one end of stdin, and nothing else. The server decodes
/// each of them to what was sent, and the payloads put together are what was read.
pub proof fn law_stdin_stream_is_framed(chunks: Seq<Seq<u8>>)
    requires
        forall|i: int| 0 <= i < chunks.len() ==> 1 <= (#[trigger] chunks[i]).len() <= CHUNK_SIZE,
    ensures
        ({
            let frames = stdin_frames(stdin_reads(chunks).push(Some(Seq::empty())));
            &&& frames == stdin_chunk_frames(chunks).push(ClientFrameView::StdinEof)
            &&& forall|i: int|
                0 <= i < frames.len() ==> client_decoded(client_bytes(#[trigger] frames[i]))
                    == Ok::<_, DecodeError>(frames[i])
            &&& frames.drop_last().map_values(|frame: ClientFrameView| stdin_payload(frame))
                .flatten() == chunks.flatten()
        }),
{
    let frames = stdin_frames(stdin_reads(chunks).push(Some(Seq::empty())));
    lemma_stdin_frames(chunks, Some(Seq::empty()));
    assert forall|i: int| 0 <= i < frames.len() implies client_decoded(
        client_bytes(#[trigger] frames[i]),
    ) == Ok::<_, DecodeError>(frames[i]) by {
        if i < chunks.len() {
            assert(chunks[i].len() <= CHUNK_SIZE);
        }
        law_client_frame_round_trip(frames[i]);
    }
    assert(frames.drop_last().map_values(|frame: ClientFrameView| stdin_payload(frame))
        =~= chunks);
}

/// Stdin that cannot be read any more is sent as the chunks that were read and then a request to
/// cancel.
pub proof fn law_broken_stdin_cancels(chunks: Seq<Seq<u8>>)
    requires
        forall|i: int| 0 <= i < chunks.len() ==> 1 <= (#[trigger] chunks[i]).len(),
    ensures
        stdin_frames(stdin_reads(chunks).push(None)) == stdin_chunk_frames(chunks).push(
            ClientFrameView::Cancel,
        ),
{
    lemma_stdin_frames(chunks, None);
}

/// Each chunk has its frame, and the last read its own.
proof fn lemma_stdin_frames(chunks: Seq<Seq<u8>>, last: Option<Seq<u8>>)
    requires
        forall|i: int| 0 <= i < chunks.len() ==> 1 <= (#[trigger] chunks[i]).len(),
        stdin_frame_of(last).1,
    ensures
        stdin_frames(stdin_reads(chunks).push(last)) == stdin_chunk_frames(chunks).push(
            stdin_frame_of(last).0,
        ),
    decreases chunks.len(),
{
    let reads = stdin_reads(chunks).push(last);
    if chunks.len() > 0 {
        let rest = chunks.skip(1);
        assert forall|i: int| 0 <= i < rest.len() implies 1 <= (#[trigger] rest[i]).len() by {
            assert(rest[i] == chunks[i + 1]);
        }
        lemma_stdin_frames(rest, last);
        assert(1 <= chunks[0].len());
        assert(reads[0] == Some(chunks[0]));
        assert(reads.skip(1) =~= stdin_reads(rest).push(last));
        assert(seq![ClientFrameView::Stdin(chunks[0])] + stdin_chunk_frames(rest).push(
            stdin_frame_of(last).0,
        ) =~= stdin_chunk_frames(chunks).push(stdin_frame_of(last).0));
    } else {
        assert(reads[0] == last);
        assert(stdin_chunk_frames(chunks).push(stdin_frame_of(last).0) =~= seq![
            stdin_frame_of(last).0,
        ]);
    }
}

/// What the client reads from stdin is what the server writes to the command's stdin, and the end
/// of the one closes the other.
pub proof fn law_stdin_crosses_the_connection(
    client: ClientSession,
    server: Session,
    allowed: Seq<Seq<char>>,
    bytes: Seq<u8>,
)
    requires
        client.phase == ClientPhase::Running,
        client.read_stdin,
        server.phase == Phase::Running,
        server.reading,
        server.stdin_open,
        length_fits(bytes.len()),
    ensures
        client_session_step(
            client,
            ClientEventView::Stdin(stdin_frame_of(Some(bytes)).0),
        ).1 matches ClientActionView::Send(frame) && session_step(
            server,
            allowed,
            EventView::Message(IncomingView::Binary(frame)),
        ).1 == if bytes.len() == 0 {
            ActionView::CloseStdin
        } else {
            ActionView::WriteStdin(bytes)
        },
{
    law_client_frame_round_trip(ClientFrameView::Stdin(bytes));
    law_client_frame_round_trip(ClientFrameView::StdinEof);
}

/// What the command writes to stdout or stderr is what the client writes to its own.
pub proof fn law_output_crosses_the_connection(
    server: Session,
    allowed: Seq<Seq<char>>,
    client: ClientSession,
    kind: StreamKind,
    bytes: Seq<u8>,
)
    requires
        server.phase == Phase::Running,
        client.phase == ClientPhase::Running,
        length_fits(bytes.len()),
    ensures
        session_step(
            server,
            allowed,
            EventView::Output(server_bytes(output_of(kind, bytes))),
        ).1 matches ActionView::Send(frame) && client_session_step(
            client,
            ClientEventView::Message(ReceivedView::Binary(frame)),
        ).1 == match kind {
            StreamKind::Stdout => ClientActionView::WriteStdout(bytes),
            StreamKind::Stderr => ClientActionView::WriteStderr(bytes),
        },
{
    law_server_frame_round_trip(output_of(kind, bytes));
}

/// A client that is interrupted asks the server to cancel, and once it has asked it ends with the
/// code of an interrupt; a server that listens to it cancels the command.
pub proof fn law_interrupt_cancels(
    client: ClientSession,
    server: Session,
    allowed: Seq<Seq<char>>,
)
    requires
        client.phase == ClientPhase::Running,
        server.phase == Phase::Running,
        server.reading,
        !server.cancelled,
    ensures
        client_session_step(client, ClientEventView::Interrupted).1 matches ClientActionView::Send(
            frame,
        ) && session_step(
            server,
            allowed,
            EventView::Message(IncomingView::Binary(frame)),
        ).1 == (ActionView::Cancel {
            reason: CancelReason::Requested,
            frame_error: None,
            signal: true,
        }),
        client_session_step(
            client_session_step(client, ClientEventView::Interrupted).0,
            ClientEventView::Sent,
        ) == (ended_client(client), ClientActionView::CloseAndEnd(INTERRUPTED_CODE)),
{
    law_client_frame_round_trip(ClientFrameView::Cancel);
}

/// A session that has ended stays ended, and does nothing more whatever comes.
pub proof fn law_ended_is_final(s: ClientSession, events: Seq<ClientEventView>)
    requires
        s.phase == ClientPhase::Ended,
    ensures
        client_after(s, events) == s,
        forall|i: int|
            0 <= i < client_run(s, events).len() ==> (#[trigger] client_run(s, events)[i]) is Wait,
    decreases events.len(),
{
    if events.len() > 0 {
        law_ended_is_final(s, events.skip(1));
        assert forall|i: int| 0 <= i < client_run(s, events).len() implies (
        #[trigger] client_run(s, events)[i]) is Wait by {
            if i > 0 {
                assert(client_run(s, events)[i] == client_run(s, events.skip(1))[i - 1]);
            }
        }
    }
}

/// Once stdin is not forwarded any more, no event of the stdin reader is, and it stays so.
pub proof fn law_closed_stdin_stays_closed(s: ClientSession, events: Seq<ClientEventView>)
    requires
        !s.read_stdin,
    ensures
        !client_after(s, events).read_stdin,
        forall|frame: ClientFrameView| #[trigger]
            client_session_step(s, ClientEventView::Stdin(frame)) == (s, ClientActionView::Wait),
    decreases events.len(),
{
    if events.len() > 0 {
        law_closed_stdin_stays_closed(client_session_step(s, events[0]).0, events.skip(1));
    }
}

/// A client sends a frame of the stdin reader as its last one when stdin has ended or could not be
/// read: after it, stdin is not forwarded any more.
pub proof fn law_last_stdin_frame_closes_stdin(s: ClientSession, read: Option<Seq<u8>>)
    requires
        s.phase == ClientPhase::Running,
        s.read_stdin,
    ensures
        client_session_step(s, ClientEventView::Stdin(stdin_frame_of(read).0)).0.read_stdin
            == !stdin_frame_of(read).1,
{
}

/// Until the exec request was sent, a client takes nothing but the word that it was, or that it
/// could not be.
pub proof fn law_request_comes_first(event: ClientEventView)
    requires
        !(event is Sent),
        !(event is SendFailed),
    ensures
        client_session_step(opened_client(), event) == (opened_client(), ClientActionView::Wait),
{
}

/// Whether the system knows the client: its machine and its directory have names, and its user has a
/// record and a name.
pub open spec fn is_known(facts: &ClientFacts) -> bool {
    &&& facts.hostname matches Ok(bytes) && lossy_text(bytes@).len() > 0
    &&& facts.username matches Ok(Some(name)) && name@.len() > 0
    &&& facts.cwd matches Ok(bytes) && lossy_text(bytes@).len() > 0
}

/// The request that a client sends carries its command word for word, however many words it has; the
/// variables that it forwards; and what the system knows of it. It is made exactly where the system
/// knows the client.
pub proof fn law_request_carries_what_was_asked(
    facts: &ClientFacts,
    command: Seq<Seq<char>>,
    forward_env: Seq<EnvVarView>,
)
    ensures
        request_in(facts, command, forward_env) is Ok <==> is_known(facts),
        request_in(facts, command, forward_env) matches Ok(request) ==> {
            &&& request.command.len() == command.len()
            &&& forall|i: int| 0 <= i < command.len() ==> #[trigger] request.command[i] == command[i]
            &&& request.forward_env.len() == forward_env.len()
            &&& forall|i: int|
                0 <= i < forward_env.len() ==> #[trigger] request.forward_env[i] == forward_env[i]
            &&& request.client_hostname == lossy_text(facts.hostname->Ok_0@)
            &&& Some(request.client_username) == match facts.username {
                Ok(Some(name)) => Some(name@),
                _ => None,
            }
            &&& request.client_cwd == lossy_text(facts.cwd->Ok_0@)
        },
{
}

/// A client that the system does not know says what is missing, its machine before its user and its
/// user before its directory.
pub proof fn law_unknown_client_says_so(
    facts: &ClientFacts,
    command: Seq<Seq<char>>,
    forward_env: Seq<EnvVarView>,
)
    ensures
        ({
            let r = request_in(facts, command, forward_env);
            let hostname_known = facts.hostname matches Ok(bytes) && lossy_text(bytes@).len() > 0;
            let username_known = facts.username matches Ok(Some(name)) && name@.len() > 0;
            &&& facts.hostname matches Err(cause) ==> r == Err::<RequestView, Seq<char>>(
                "failed to determine client hostname"@ + seq![':', ' '] + cause@,
            )
            &&& facts.hostname matches Ok(bytes) ==> (lossy_text(bytes@).len() == 0 ==> r == Err::<
                RequestView,
                Seq<char>,
            >("client hostname is empty"@))
            &&& hostname_known ==> {
                &&& facts.username matches Err(cause) ==> r == Err::<RequestView, Seq<char>>(
                    "failed to determine client username"@ + seq![':', ' '] + cause@,
                )
                &&& facts.username matches Ok(None) ==> r == Err::<RequestView, Seq<char>>(
                    "client user record is missing"@,
                )
                &&& facts.username matches Ok(Some(name)) ==> (name@.len() == 0 ==> r == Err::<
                    RequestView,
                    Seq<char>,
                >("client username is empty"@))
            }
            &&& hostname_known && username_known ==> {
                &&& facts.cwd matches Err(cause) ==> r == Err::<RequestView, Seq<char>>(
                    "failed to determine client current working directory"@ + seq![':', ' ']
                        + cause@,
                )
                &&& facts.cwd matches Ok(bytes) ==> (lossy_text(bytes@).len() == 0 ==> r == Err::<
                    RequestView,
                    Seq<char>,
                >("client current working directory is empty"@))
            }
        }),
{
    reveal_strlit(": ");
    assert(": "@ =~= seq![':', ' ']);
}

/// What a client is asked to run is what the server starts, word for word, where the server's allow
/// list lets it.
pub proof fn law_command_reaches_the_server(
    facts: &ClientFacts,
    command: Seq<Seq<char>>,
    forward_env: Seq<EnvVarView>,
    allowed: Seq<Seq<char>>,
)
    requires
        is_known(facts),
        allowed.len() == 0 || (command.len() > 0 && exists|i: int|
            0 <= i < allowed.len() && #[trigger] allowed[i] == command[0]),
        client_frame_fits(exec_frame(request_in(facts, command, forward_env)->Ok_0)),
    ensures
        session_step(
            new_session(),
            allowed,
            EventView::Message(
                IncomingView::Binary(
                    client_bytes(exec_frame(request_in(facts, command, forward_env)->Ok_0)),
                ),
            ),
        ).1 matches ActionView::Start(request) && request.command == command && request.forward_env
            == forward_env && request.client_hostname == lossy_text(facts.hostname->Ok_0@)
            && request.client_cwd == lossy_text(facts.cwd->Ok_0@),
{
    law_client_frame_round_trip(exec_frame(request_in(facts, command, forward_env)->Ok_0));
}

/// A client connects to the address that a server with the same host and port binds.
pub proof fn law_client_connects_where_the_server_listens(host: Seq<char>, port: u16)
    ensures
        url_text(host, port) == "ws://"@ + address_text(host, port) + "/ws"@,
        url_text(host, port) == "ws://"@ + host + seq![':'] + decimal(port as nat) + "/ws"@,
{
    reveal_strlit(":");
    assert(":"@ =~= seq![':']);
    assert(url_text(host, port) =~= "ws://"@ + address_text(host, port) + "/ws"@);
}

/// A read of stdin is sent as it is; its end is sent as the end, and its failure as a request to
/// cancel, and nothing is read after either.
pub proof fn law_reads_of_stdin(bytes: Seq<u8>)
    ensures
        bytes.len() > 0 ==> stdin_frame_of(Some(bytes)) == (ClientFrameView::Stdin(bytes), false),
        stdin_frame_of(Some(Seq::empty())) == (ClientFrameView::StdinEof, true),
        stdin_frame_of(None) == (ClientFrameView::Cancel, true),
{
}

/// A frame of stdin is sent as it is while stdin is forwarded, and nothing else changes but that the
/// end of stdin and a request to cancel are the last ones.
pub proof fn law_stdin_frames_are_sent(s: ClientSession, frame: ClientFrameView)
    requires
        s.phase == ClientPhase::Running,
        s.read_stdin,
        client_frame_fits(frame),
    ensures
        ({
            let (next, action) = client_session_step(s, ClientEventView::Stdin(frame));
            &&& action matches ClientActionView::Send(bytes) && client_decoded(bytes) == Ok::<
                _,
                DecodeError,
            >(frame)
            &&& next.phase == ClientPhase::Running
            &&& next.exit == s.exit
            &&& next.read_stdin <==> !(frame == ClientFrameView::StdinEof || frame
                == ClientFrameView::Cancel)
        }),
        client_session_step(s, ClientEventView::StdinEnded) == (
            (ClientSession { read_stdin: false, ..s }),
            ClientActionView::Wait,
        ),
{
    law_client_frame_round_trip(frame);
}

/// What a failure of this context and cause is called.
pub open spec fn failed_at(context: Seq<char>, cause: Seq<char>) -> ClientActionView {
    ClientActionView::Fail(context + seq![':', ' '] + cause)
}

/// Whatever a client cannot do ends its session with a failure that says what it was and why.
pub proof fn law_client_failures_are_named(s: ClientSession, cause: Seq<char>)
    ensures
        s.phase == ClientPhase::Opening ==> client_session_step(
            s,
            ClientEventView::SendFailed(cause),
        ).1 == failed_at("failed to send exec request"@, cause),
        s.phase == ClientPhase::Running ==> {
            &&& client_session_step(s, ClientEventView::SendFailed(cause)).1 == failed_at(
                "failed to send stdin frame"@,
                cause,
            )
            &&& client_session_step(s, ClientEventView::InterruptUnavailable(cause)).1 == failed_at(
                "failed to listen for ctrl-c"@,
                cause,
            )
            &&& client_session_step(s, ClientEventView::Message(ReceivedView::Failed(cause))).1
                == failed_at("websocket read failed"@, cause)
            &&& client_session_step(s, ClientEventView::WriteFailed(cause)).1
                == ClientActionView::Fail(cause)
        },
        s.phase == ClientPhase::Interrupting ==> client_session_step(
            s,
            ClientEventView::SendFailed(cause),
        ).1 == failed_at("failed to send cancel request"@, cause),
{
    reveal_strlit(": ");
    assert(": "@ =~= seq![':', ' ']);
}

/// A frame that cannot be decoded makes the client fail with what is wrong with it.
pub proof fn law_bad_frame_fails_the_client(s: ClientSession, bytes: Seq<u8>)
    requires
        s.phase == ClientPhase::Running,
        server_decoded(bytes) is Err,
    ensures
        ({
            let error = server_decoded(bytes)->Err_0;
            client_session_step(s, ClientEventView::Message(ReceivedView::Binary(bytes))).1
                == failed_at(step_text(error.step), cause_text(error.cause))
        }),
{
    reveal_strlit(": ");
    assert(": "@ =~= seq![':', ' ']);
}

/// Whether an action is the last one of a session.
pub open spec fn is_last_word(action: ClientActionView) -> bool {
    action is Fail || action is End || action is CloseAndEnd
}

/// A session ends exactly with its last word; until then it keeps the exit code that was reported,
/// which only an exit frame changes, and only to the code in it.
pub proof fn law_session_ends_with_its_last_word(s: ClientSession, event: ClientEventView)
    requires
        s.phase != ClientPhase::Ended,
    ensures
        ({
            let (next, action) = client_session_step(s, event);
            &&& next.phase == ClientPhase::Ended <==> is_last_word(action)
            &&& next.exit != s.exit ==> (event matches ClientEventView::Message(
                ReceivedView::Binary(bytes),
            ) && (server_decoded(bytes) matches Ok(ServerFrameView::Exit(code)) && next.exit == Some(
                code,
            )))
            &&& !s.read_stdin ==> !next.read_stdin
        }),
{
}

/// Whether an event belongs to a phase.
pub open spec fn client_in_turn(phase: ClientPhase, event: ClientEventView) -> bool {
    match phase {
        ClientPhase::Opening | ClientPhase::Interrupting => event is Sent || event is SendFailed,
        ClientPhase::Running => !(event is Sent),
        ClientPhase::Ended => false,
    }
}

/// An event out of turn changes nothing, and neither does a message that is no frame.
pub proof fn law_client_events_out_of_turn(s: ClientSession, event: ClientEventView)
    ensures
        !client_in_turn(s.phase, event) ==> client_session_step(s, event) == (
            s,
            ClientActionView::Wait,
        ),
        client_session_step(s, ClientEventView::Message(ReceivedView::Other)) == (
            s,
            ClientActionView::Wait,
        ),
        s.phase == ClientPhase::Opening ==> client_session_step(s, ClientEventView::Sent) == (
            (ClientSession { phase: ClientPhase::Running, ..s }),
            ClientActionView::Wait,
        ),
{
}

/// A session begins by sending its request; it forwards stdin, and knows no exit code.
pub proof fn law_session_begins()
    ensures
        opened_client() == (ClientSession {
            phase: ClientPhase::Opening,
            read_stdin: true,
            exit: None,
        }),
        INTERRUPTED_CODE == 130,
        FAILED_CODE == 1,
{
}

/// Where the stream ends, the client ends with the code that was reported last, and with one where
/// none was.
pub proof fn law_end_of_stream(s: ClientSession)
    requires
        s.phase == ClientPhase::Running,
    ensures
        s.exit matches Some(code) ==> client_session_step(
            s,
            ClientEventView::Message(ReceivedView::Ended),
        ).1 == ClientActionView::End(code),
        s.exit is None ==> client_session_step(s, ClientEventView::Message(ReceivedView::Ended)).1
            == ClientActionView::End(1),
{
}

/// The code with which the command's process ended is the code with which the client ends: what the
/// server reports of the process goes to the connection, and from there to the client.
pub proof fn law_exit_code_of_the_process_ends_the_client(
    code: i32,
    server: Session,
    allowed: Seq<Seq<char>>,
    client: ClientSession,
)
    requires
        server.phase == Phase::Running,
        client.phase == ClientPhase::Running,
    ensures
        run_actions(
            RunPhase::Running,
            seq![
                RunEventView::Exited(Some(code)),
                RunEventView::StreamEnded,
                RunEventView::StreamEnded,
            ],
        )[2] matches RunActionView::Report(reported) && (session_step(
            server,
            allowed,
            EventView::Exited(reported),
        ).1 matches ActionView::Send(frame) && client_session_step(
            client_session_step(
                client,
                ClientEventView::Message(ReceivedView::Binary(frame)),
            ).0,
            ClientEventView::Message(ReceivedView::Ended),
        ).1 == ClientActionView::End(code)),
{
    law_exit_code_is_kept(code);
    law_exit_code_crosses_the_connection(server, allowed, client, code);
}

/// A client process ends with the code that its session gave, and says nothing more; where the session
/// failed, it ends with one and says why.
pub proof fn law_process_ends_as_its_session(code: i32, text: Seq<char>)
    ensures
        outcome_of(Ok(code)) == (code, None::<Seq<char>>),
        outcome_of(Err(text)) == (1i32, Some("Error: "@ + text)),
{
}

} // verus!
