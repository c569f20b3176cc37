//! The laws of a connection: what holds of every course that it can take.

use crate::client_laws::{lemma_bytes_of_text, lemma_step_text_is_short};
use crate::decode_error::{step_text, DecodeError};
use crate::protocol::{
    client_bytes, client_decoded, server_decoded, ClientFrameView, ServerFrameView,
};
use crate::roundtrip::{
    client_frame_fits, law_client_frame_round_trip, law_server_frame_round_trip, text_fits,
};
use crate::server::command_allowed;
use crate::session::{
    awaits, error_frame, exec_frame, new_session, refusal_text, requested, session_step, ActionView,
    CancelReason, EventView, IncomingView, Phase, RequestView, Session,
};
use vstd::prelude::*;

verus! {

/// The actions that a course of events leads to.
pub open spec fn session_run(s: Session, allowed: Seq<Seq<char>>, events: Seq<EventView>) -> Seq<
    ActionView,
>
    decreases events.len(),
{
    if events.len() == 0 {
        Seq::empty()
    } else {
        let (next, action) = session_step(s, allowed, events[0]);
        seq![action] + session_run(next, allowed, events.skip(1))
    }
}

/// The state that a course of events leads to.
pub open spec fn session_after(
    s: Session,
    allowed: Seq<Seq<char>>,
    events: Seq<EventView>,
) -> Session
    decreases events.len(),
{
    if events.len() == 0 {
        s
    } else {
        session_after(session_step(s, allowed, events[0]).0, allowed, events.skip(1))
    }
}

/// How many of these actions start a command.
pub open spec fn starts(actions: Seq<ActionView>) -> nat
    decreases actions.len(),
{
    if actions.len() == 0 {
        0
    } else {
        (if actions[0] is Start {
            1nat
        } else {
            0nat
        }) + starts(actions.skip(1))
    }
}

/// Whether an action signals cancellation.
pub open spec fn signals_cancel(action: ActionView) -> bool {
    match action {
        ActionView::Cancel { signal, .. } => signal,
        ActionView::CancelAndLeave { signal } => signal,
        _ => false,
    }
}

/// How many of these actions signal cancellation.
pub open spec fn cancels(actions: Seq<ActionView>) -> nat
    decreases actions.len(),
{
    if actions.len() == 0 {
        0
    } else {
        (if signals_cancel(actions[0]) {
            1nat
        } else {
            0nat
        }) + cancels(actions.skip(1))
    }
}

/// A connection that was left stays left: nothing more is done for it.
pub proof fn law_left_is_final(s: Session, allowed: Seq<Seq<char>>, events: Seq<EventView>)
    requires
        s.phase == Phase::Left,
    ensures
        session_after(s, allowed, events) == s,
        forall|i: int|
            0 <= i < session_run(s, allowed, events).len() ==> session_run(s, allowed, events)[i]
                is Wait,
    decreases events.len(),
{
    if events.len() > 0 {
        law_left_is_final(s, allowed, events.skip(1));
        let rest = session_run(s, allowed, events.skip(1));
        assert(session_run(s, allowed, events) == seq![ActionView::Wait] + rest);
        assert forall|i: int| 0 <= i < session_run(s, allowed, events).len() implies session_run(
            s,
            allowed,
            events,
        )[i] is Wait by {
            if i > 0 {
                assert(session_run(s, allowed, events)[i] == rest[i - 1]);
            }
        }
    }
}

/// The frame with which an action answers a client that is then left.
pub open spec fn answer_frame(action: ActionView) -> Option<Seq<u8>> {
    match action {
        ActionView::Reply(frame) => Some(frame),
        ActionView::Reject { frame, .. } => Some(frame),
        _ => None,
    }
}

/// A first message that starts no command is answered by one error frame that says why, and by
/// nothing else, whatever comes afterwards; a command that is not allowed is named. A message that
/// never arrived is not answered.
pub proof fn law_refused_request_gets_one_answer(
    allowed: Seq<Seq<char>>,
    incoming: IncomingView,
    later: Seq<EventView>,
)
    requires
        requested(incoming) matches Some(request) ==> !command_allowed(allowed, request.command),
    ensures
        ({
            let actions = session_run(
                new_session(),
                allowed,
                seq![EventView::Message(incoming)] + later,
            );
            &&& actions.len() == later.len() + 1
            &&& refusal_text(allowed, incoming) matches Some(text) ==> answer_frame(actions[0])
                == Some(error_frame(text))
            &&& requested(incoming) matches Some(request) ==> (
            actions[0] matches ActionView::Reject { command, .. } && command == request.command)
            &&& refusal_text(allowed, incoming) is None ==> actions[0] is Leave
            &&& forall|i: int| 1 <= i < actions.len() ==> actions[i] is Wait
        }),
        refusal_text(allowed, incoming) is None == (incoming is Ended || incoming is Failed),
{
    let events = seq![EventView::Message(incoming)] + later;
    assert(events.skip(1) =~= later);
    let (next, action) = session_step(new_session(), allowed, events[0]);
    assert(next.phase == Phase::Left);
    law_left_is_final(next, allowed, later);
    lemma_run_len(next, allowed, later);
    let rest = session_run(next, allowed, later);
    let actions = session_run(new_session(), allowed, events);
    assert(actions == seq![action] + rest);
    assert forall|i: int| 1 <= i < actions.len() implies actions[i] is Wait by {
        assert(actions[i] == rest[i - 1]);
    }
}

/// Every event leads to one action.
proof fn lemma_run_len(s: Session, allowed: Seq<Seq<char>>, events: Seq<EventView>)
    ensures
        session_run(s, allowed, events).len() == events.len(),
    decreases events.len(),
{
    if events.len() > 0 {
        lemma_run_len(session_step(s, allowed, events[0]).0, allowed, events.skip(1));
    }
}

/// Behind the first frame nothing starts a command.
proof fn lemma_no_late_start(s: Session, allowed: Seq<Seq<char>>, events: Seq<EventView>)
    requires
        s.phase != Phase::Greeting,
    ensures
        starts(session_run(s, allowed, events)) == 0,
        forall|i: int|
            0 <= i < session_run(s, allowed, events).len() ==> !(session_run(
                s,
                allowed,
                events,
            )[i] is Start),
    decreases events.len(),
{
    if events.len() > 0 {
        let (next, action) = session_step(s, allowed, events[0]);
        lemma_no_late_start(next, allowed, events.skip(1));
        let rest = session_run(next, allowed, events.skip(1));
        let actions = session_run(s, allowed, events);
        assert(actions == seq![action] + rest);
        assert(actions.skip(1) =~= rest);
        assert forall|i: int| 0 <= i < actions.len() implies !(actions[i] is Start) by {
            if i > 0 {
                assert(actions[i] == rest[i - 1]);
            }
        }
    }
}

/// Whatever happens on a connection, it starts at most one command, and only one that the allow
/// list lets run.
pub proof fn law_one_allowed_command(allowed: Seq<Seq<char>>, events: Seq<EventView>)
    ensures
        starts(session_run(new_session(), allowed, events)) <= 1,
        forall|i: int|
            0 <= i < session_run(new_session(), allowed, events).len() ==> match (
            #[trigger] session_run(new_session(), allowed, events)[i]) {
                ActionView::Start(request) => command_allowed(allowed, request.command),
                _ => true,
            },
{
    lemma_greeting_starts(new_session(), allowed, events);
}

/// The same from any state that waits for its first frame.
proof fn lemma_greeting_starts(s: Session, allowed: Seq<Seq<char>>, events: Seq<EventView>)
    requires
        s.phase == Phase::Greeting,
    ensures
        starts(session_run(s, allowed, events)) <= 1,
        forall|i: int|
            0 <= i < session_run(s, allowed, events).len() ==> match (#[trigger] session_run(
                s,
                allowed,
                events,
            )[i]) {
                ActionView::Start(request) => command_allowed(allowed, request.command),
                _ => true,
            },
    decreases events.len(),
{
    if events.len() > 0 {
        let (next, action) = session_step(s, allowed, events[0]);
        let rest = session_run(next, allowed, events.skip(1));
        let actions = session_run(s, allowed, events);
        assert(actions == seq![action] + rest);
        assert(actions.skip(1) =~= rest);
        if next.phase == Phase::Greeting {
            assert(!(action is Start));
            lemma_greeting_starts(next, allowed, events.skip(1));
        } else {
            lemma_no_late_start(next, allowed, events.skip(1));
        }
        assert forall|i: int| 0 <= i < actions.len() implies match (#[trigger] actions[i]) {
            ActionView::Start(request) => command_allowed(allowed, request.command),
            _ => true,
        } by {
            if i > 0 {
                assert(actions[i] == rest[i - 1]);
            }
        }
    }
}

/// Whatever happens on a connection, cancellation is signalled at most once, and not at all where
/// it was signalled before.
pub proof fn law_cancelled_at_most_once(
    s: Session,
    allowed: Seq<Seq<char>>,
    events: Seq<EventView>,
)
    ensures
        cancels(session_run(s, allowed, events)) <= (if s.cancelled {
            0nat
        } else {
            1nat
        }),
    decreases events.len(),
{
    if events.len() > 0 {
        let (next, action) = session_step(s, allowed, events[0]);
        law_cancelled_at_most_once(next, allowed, events.skip(1));
        let rest = session_run(next, allowed, events.skip(1));
        assert(session_run(s, allowed, events) == seq![action] + rest);
        assert((seq![action] + rest).skip(1) =~= rest);
        assert(signals_cancel(action) ==> !s.cancelled && next.cancelled);
        assert(s.cancelled ==> next.cancelled);
    }
}

/// Once the command's stdin was closed, no bytes are written to it.
pub proof fn law_no_stdin_after_close(
    s: Session,
    allowed: Seq<Seq<char>>,
    events: Seq<EventView>,
)
    requires
        !s.stdin_open,
    ensures
        forall|i: int|
            0 <= i < session_run(s, allowed, events).len() ==> !((#[trigger] session_run(
                s,
                allowed,
                events,
            )[i]) is WriteStdin),
    decreases events.len(),
{
    if events.len() > 0 {
        let (next, action) = session_step(s, allowed, events[0]);
        law_no_stdin_after_close(next, allowed, events.skip(1));
        let rest = session_run(next, allowed, events.skip(1));
        let actions = session_run(s, allowed, events);
        assert(actions == seq![action] + rest);
        assert forall|i: int| 0 <= i < actions.len() implies !((#[trigger] actions[i])
            is WriteStdin) by {
            if i > 0 {
                assert(actions[i] == rest[i - 1]);
            }
        }
    }
}

/// Once a running connection no longer listens to its client, nothing that the client sends has
/// any effect.
pub proof fn law_deaf_after_cancel(s: Session, allowed: Seq<Seq<char>>, incoming: IncomingView)
    requires
        s.phase != Phase::Greeting,
        !s.reading,
    ensures
        session_step(s, allowed, EventView::Message(incoming)) == (s, ActionView::Wait),
{
}

/// A connection that stopped listening never listens again.
pub proof fn law_deafness_lasts(s: Session, allowed: Seq<Seq<char>>, events: Seq<EventView>)
    requires
        !s.reading,
    ensures
        !session_after(s, allowed, events).reading,
    decreases events.len(),
{
    if events.len() > 0 {
        law_deafness_lasts(session_step(s, allowed, events[0]).0, allowed, events.skip(1));
    }
}

/// What holds of a connection all along: until it is left, it listens to its client exactly as long
/// as cancellation was not signalled.
pub open spec fn listens_until_cancelled(s: Session) -> bool {
    s.phase != Phase::Left ==> s.reading == !s.cancelled
}

/// Whatever happens on a connection, it listens to its client until cancellation is signalled.
pub proof fn law_listens_until_cancelled(allowed: Seq<Seq<char>>, events: Seq<EventView>)
    ensures
        listens_until_cancelled(session_after(new_session(), allowed, events)),
{
    lemma_listens_until_cancelled(new_session(), allowed, events);
}

/// The same from any state of which it holds.
proof fn lemma_listens_until_cancelled(
    s: Session,
    allowed: Seq<Seq<char>>,
    events: Seq<EventView>,
)
    requires
        listens_until_cancelled(s),
    ensures
        listens_until_cancelled(session_after(s, allowed, events)),
    decreases events.len(),
{
    if events.len() > 0 {
        lemma_listens_until_cancelled(
            session_step(s, allowed, events[0]).0,
            allowed,
            events.skip(1),
        );
    }
}

/// A running command whose client asks for it, goes away, cannot be read, sends nonsense or cannot
/// be sent to is signalled to stop, unless it was already.
pub proof fn law_lost_client_cancels(
    allowed: Seq<Seq<char>>,
    events: Seq<EventView>,
    last: EventView,
)
    requires
        session_after(new_session(), allowed, events).phase == Phase::Running,
        match last {
            EventView::SendFailed => true,
            EventView::Message(IncomingView::Close) => true,
            EventView::Message(IncomingView::Ended) => true,
            EventView::Message(IncomingView::Failed) => true,
            EventView::Message(IncomingView::Binary(bytes)) => match client_decoded(bytes) {
                Ok(frame) => frame is Cancel,
                Err(_) => true,
            },
            _ => false,
        },
    ensures
        session_step(session_after(new_session(), allowed, events), allowed, last).0.cancelled,
        signals_cancel(
            session_step(session_after(new_session(), allowed, events), allowed, last).1,
        ) == !session_after(new_session(), allowed, events).cancelled,
{
    law_listens_until_cancelled(allowed, events);
}

/// While the command runs, its output reaches the client unchanged and in order.
pub proof fn law_output_is_relayed_in_order(
    s: Session,
    allowed: Seq<Seq<char>>,
    frames: Seq<Seq<u8>>,
)
    requires
        s.phase == Phase::Running,
    ensures
        session_run(s, allowed, frames.map_values(|frame: Seq<u8>| EventView::Output(frame)))
            == frames.map_values(|frame: Seq<u8>| ActionView::Send(frame)),
        session_after(s, allowed, frames.map_values(|frame: Seq<u8>| EventView::Output(frame)))
            == s,
    decreases frames.len(),
{
    let events = frames.map_values(|frame: Seq<u8>| EventView::Output(frame));
    let actions = frames.map_values(|frame: Seq<u8>| ActionView::Send(frame));
    if frames.len() > 0 {
        law_output_is_relayed_in_order(s, allowed, frames.skip(1));
        assert(events.skip(1) =~= frames.skip(1).map_values(
            |frame: Seq<u8>| EventView::Output(frame),
        ));
        assert(seq![actions[0]] + frames.skip(1).map_values(
            |frame: Seq<u8>| ActionView::Send(frame),
        ) =~= actions);
    } else {
        assert(actions =~= Seq::empty());
    }
}

/// The events of stdin chunks as a client sends them.
pub open spec fn stdin_events(chunks: Seq<Seq<u8>>) -> Seq<EventView> {
    chunks.map_values(
        |chunk: Seq<u8>|
            EventView::Message(
                IncomingView::Binary(client_bytes(ClientFrameView::Stdin(chunk))),
            ),
    )
}

/// While the command runs and its stdin is open, the chunks that the client sends reach it
/// unchanged and in order.
pub proof fn law_stdin_is_relayed_in_order(
    s: Session,
    allowed: Seq<Seq<char>>,
    chunks: Seq<Seq<u8>>,
)
    requires
        s.phase == Phase::Running,
        s.reading,
        s.stdin_open,
        forall|i: int|
            0 <= i < chunks.len() ==> client_frame_fits(
                ClientFrameView::Stdin(#[trigger] chunks[i]),
            ),
    ensures
        session_run(s, allowed, stdin_events(chunks)) == chunks.map_values(
            |chunk: Seq<u8>| ActionView::WriteStdin(chunk),
        ),
        session_after(s, allowed, stdin_events(chunks)) == s,
    decreases chunks.len(),
{
    let events = stdin_events(chunks);
    let actions = chunks.map_values(|chunk: Seq<u8>| ActionView::WriteStdin(chunk));
    if chunks.len() > 0 {
        let tail = chunks.skip(1);
        assert forall|i: int| 0 <= i < tail.len() implies client_frame_fits(
            ClientFrameView::Stdin(#[trigger] tail[i]),
        ) by {
            assert(tail[i] == chunks[i + 1]);
        }
        law_stdin_is_relayed_in_order(s, allowed, tail);
        assert(client_frame_fits(ClientFrameView::Stdin(chunks[0])));
        law_client_frame_round_trip(ClientFrameView::Stdin(chunks[0]));
        assert(events.skip(1) =~= stdin_events(tail));
        assert(seq![actions[0]] + tail.map_values(|chunk: Seq<u8>| ActionView::WriteStdin(chunk))
            =~= actions);
    } else {
        assert(actions =~= Seq::empty());
    }
}

/// A client that asks for an allowed command gets it started as it asked.
pub proof fn law_allowed_request_is_started(allowed: Seq<Seq<char>>, request: RequestView)
    requires
        command_allowed(allowed, request.command),
        client_frame_fits(exec_frame(request)),
    ensures
        session_step(
            new_session(),
            allowed,
            EventView::Message(IncomingView::Binary(client_bytes(exec_frame(request)))),
        ) == (
            (Session { phase: Phase::Starting, ..new_session() }),
            ActionView::Start(request),
        ),
{
    law_client_frame_round_trip(exec_frame(request));
}

/// Whether a frame tells the client this error.
pub open spec fn tells(frame: Seq<u8>, text: Seq<char>) -> bool {
    server_decoded(frame) == Ok::<_, DecodeError>(ServerFrameView::Error(text))
}

/// The words in which a server answers are short enough for a frame.
proof fn lemma_words_fit()
    ensures
        tells(error_frame("command is not allowed"@), "command is not allowed"@),
        tells(
            error_frame("expected exec frame before cancel"@),
            "expected exec frame before cancel"@,
        ),
        tells(
            error_frame("expected exec frame before stdin"@),
            "expected exec frame before stdin"@,
        ),
        tells(error_frame("expected binary exec frame"@), "expected binary exec frame"@),
        tells(error_frame("server actor stopped"@), "server actor stopped"@),
        tells(error_frame("exec task stopped"@), "exec task stopped"@),
{
    reveal_strlit("command is not allowed");
    reveal_strlit("expected exec frame before cancel");
    reveal_strlit("expected exec frame before stdin");
    reveal_strlit("expected binary exec frame");
    reveal_strlit("server actor stopped");
    reveal_strlit("exec task stopped");
    lemma_short_text_is_told("command is not allowed"@);
    lemma_short_text_is_told("expected exec frame before cancel"@);
    lemma_short_text_is_told("expected exec frame before stdin"@);
    lemma_short_text_is_told("expected binary exec frame"@);
    lemma_short_text_is_told("server actor stopped"@);
    lemma_short_text_is_told("exec task stopped"@);
}

/// A short text is told as it is.
proof fn lemma_short_text_is_told(text: Seq<char>)
    requires
        text.len() <= 1000,
    ensures
        tells(error_frame(text), text),
{
    lemma_bytes_of_text(text);
    law_server_frame_round_trip(ServerFrameView::Error(text));
}

/// A client whose command is not on the server's list, or who names none, is told that it is not
/// allowed; the command is noted word for word, and not started.
pub proof fn law_disallowed_command_is_refused(
    allowed: Seq<Seq<char>>,
    request: RequestView,
)
    requires
        allowed.len() > 0,
        request.command.len() == 0 || forall|i: int|
            0 <= i < allowed.len() ==> #[trigger] allowed[i] != request.command[0],
        client_frame_fits(exec_frame(request)),
    ensures
        ({
            let (next, action) = session_step(
                new_session(),
                allowed,
                EventView::Message(IncomingView::Binary(client_bytes(exec_frame(request)))),
            );
            &&& next.phase == Phase::Left
            &&& action matches ActionView::Reject { command, frame } && command == request.command
                && tells(frame, "command is not allowed"@)
        }),
{
    law_client_frame_round_trip(exec_frame(request));
    lemma_words_fit();
}

/// A client whose command is on the server's list, or whose server has no list, gets it started as it
/// asked: its words, its variables, and who it is.
pub proof fn law_listed_command_is_started(allowed: Seq<Seq<char>>, request: RequestView)
    requires
        allowed.len() == 0 || (request.command.len() > 0 && exists|i: int|
            0 <= i < allowed.len() && #[trigger] allowed[i] == request.command[0]),
        client_frame_fits(exec_frame(request)),
    ensures
        session_step(
            new_session(),
            allowed,
            EventView::Message(IncomingView::Binary(client_bytes(exec_frame(request)))),
        ).1 == ActionView::Start(request),
        exec_frame(request) == (ClientFrameView::Exec {
            command: request.command,
            forward_env: request.forward_env,
            client_hostname: request.client_hostname,
            client_username: request.client_username,
            client_cwd: request.client_cwd,
        }),
{
    law_client_frame_round_trip(exec_frame(request));
}

/// A client that does not begin with a request is told so and left: one that begins with another
/// frame, with a frame that cannot be decoded, or with a message that is no frame. One that is gone
/// is left without a word.
pub proof fn law_first_message_has_to_be_a_request(
    allowed: Seq<Seq<char>>,
    incoming: IncomingView,
)
    requires
        incoming matches IncomingView::Binary(bytes) ==> !(client_decoded(bytes) matches Ok(
            ClientFrameView::Exec { .. },
        )),
    ensures
        ({
            let (next, action) = session_step(
                new_session(),
                allowed,
                EventView::Message(incoming),
            );
            &&& next.phase == Phase::Left
            &&& match incoming {
                IncomingView::Binary(bytes) => action matches ActionView::Reply(frame) && tells(
                    frame,
                    match client_decoded(bytes) {
                        Ok(ClientFrameView::Cancel) => "expected exec frame before cancel"@,
                        Ok(_) => "expected exec frame before stdin"@,
                        Err(e) => step_text(e.step),
                    },
                ),
                IncomingView::Close | IncomingView::Other => action matches ActionView::Reply(frame)
                    && tells(frame, "expected binary exec frame"@),
                IncomingView::Ended | IncomingView::Failed => action is Leave,
            }
        }),
{
    lemma_words_fit();
    if let IncomingView::Binary(bytes) = incoming {
        if let Err(e) = client_decoded(bytes) {
            lemma_step_text_is_short(e.step);
            lemma_short_text_is_told(step_text(e.step));
        }
    }
}

/// A request that the command actor takes runs, and the connection is otherwise as before; where the
/// actor is gone, the client is told so.
pub proof fn law_request_is_taken_or_not(s: Session, allowed: Seq<Seq<char>>)
    requires
        s.phase == Phase::Starting,
    ensures
        session_step(s, allowed, EventView::Accepted) == (
            (Session { phase: Phase::Running, ..s }),
            ActionView::Wait,
        ),
        session_step(s, allowed, EventView::ActorStopped).0.phase == Phase::Left,
        session_step(s, allowed, EventView::ActorStopped).1 matches ActionView::Reply(frame)
            && tells(frame, "server actor stopped"@),
{
    lemma_words_fit();
}

/// Once the command produces nothing more, its report is awaited. A command that succeeded has had
/// its say, and one whose task is lost is reported.
pub proof fn law_report_closes_the_connection(s: Session, allowed: Seq<Seq<char>>)
    ensures
        s.phase == Phase::Running ==> session_step(s, allowed, EventView::OutputEnded) == (
            (Session { phase: Phase::Finishing, ..s }),
            ActionView::AwaitReport,
        ),
        s.phase == Phase::Finishing ==> {
            &&& session_step(s, allowed, EventView::Finished).0.phase == Phase::Left
            &&& session_step(s, allowed, EventView::Finished).1 is Close
            &&& session_step(s, allowed, EventView::Lost).0.phase == Phase::Left
            &&& session_step(s, allowed, EventView::Lost).1 matches ActionView::Reply(frame)
                && tells(frame, "exec task stopped"@)
        },
{
    lemma_words_fit();
}

/// A failed command's client is told what the outermost link of the failure says, and left.
pub proof fn law_failed_command_is_told(
    s: Session,
    allowed: Seq<Seq<char>>,
    failure: Seq<Seq<char>>,
)
    requires
        s.phase == Phase::Finishing,
        failure.len() > 0,
        text_fits(failure[0]),
    ensures
        session_step(s, allowed, EventView::Failed(failure)).0.phase == Phase::Left,
        session_step(s, allowed, EventView::Failed(failure)).1 matches ActionView::Reply(frame)
            && tells(frame, failure[0]),
{
    law_server_frame_round_trip(ServerFrameView::Error(failure[0]));
}

/// What a client that is listened to sends to its running command: input goes to the command while
/// its stdin is open, the end of input closes it, a second request is ignored, and a message that is
/// no frame is nothing.
pub proof fn law_running_command_is_fed(
    s: Session,
    allowed: Seq<Seq<char>>,
    frame: ClientFrameView,
)
    requires
        s.phase == Phase::Running,
        s.reading,
        client_frame_fits(frame),
    ensures
        ({
            let (next, action) = session_step(
                s,
                allowed,
                EventView::Message(IncomingView::Binary(client_bytes(frame))),
            );
            match frame {
                ClientFrameView::Stdin(bytes) => next == s && action == if s.stdin_open {
                    ActionView::WriteStdin(bytes)
                } else {
                    ActionView::Wait
                },
                ClientFrameView::StdinEof => next == (Session { stdin_open: false, ..s })
                    && action is CloseStdin,
                ClientFrameView::Exec { .. } => next == s && action is IgnoreExec,
                ClientFrameView::Cancel => next.cancelled && !next.reading && action is Cancel,
            }
        }),
        session_step(s, allowed, EventView::Message(IncomingView::Other)) == (s, ActionView::Wait),
        session_step(s, allowed, EventView::StdinRefused) == (
            (Session { stdin_open: false, ..s }),
            ActionView::Wait,
        ),
{
    law_client_frame_round_trip(frame);
}

/// Why a running command is cancelled is what its client did: it asked for it, sent what cannot be
/// decoded, closed the connection, ended the stream, or could not be read. What is wrong with a frame
/// is said with it, and with nothing else. The client is then not listened to any more, and is
/// otherwise served as before.
pub proof fn law_cancellation_says_why(s: Session, allowed: Seq<Seq<char>>, incoming: IncomingView)
    requires
        s.phase == Phase::Running,
        s.reading,
        match incoming {
            IncomingView::Binary(bytes) => match client_decoded(bytes) {
                Ok(frame) => frame is Cancel,
                Err(_) => true,
            },
            IncomingView::Other => false,
            _ => true,
        },
    ensures
        session_step(s, allowed, EventView::Message(incoming)) == (
            (Session { reading: false, cancelled: true, ..s }),
            ActionView::Cancel {
                reason: match incoming {
                    IncomingView::Binary(bytes) => if client_decoded(bytes) is Ok {
                        CancelReason::Requested
                    } else {
                        CancelReason::BadFrame
                    },
                    IncomingView::Close => CancelReason::Closed,
                    IncomingView::Ended => CancelReason::Ended,
                    _ => CancelReason::ReadFailed,
                },
                frame_error: match incoming {
                    IncomingView::Binary(bytes) => match client_decoded(bytes) {
                        Err(e) => Some(step_text(e.step)),
                        Ok(_) => None,
                    },
                    _ => None,
                },
                signal: !s.cancelled,
            },
        ),
{
}

/// A client that cannot be sent to is left, and its command is cancelled unless it was.
pub proof fn law_unreachable_client_is_left(s: Session, allowed: Seq<Seq<char>>)
    requires
        s.phase == Phase::Running,
    ensures
        session_step(s, allowed, EventView::SendFailed).0.phase == Phase::Left,
        session_step(s, allowed, EventView::SendFailed).1 == (ActionView::CancelAndLeave {
            signal: !s.cancelled,
        }),
{
}

/// Whether an event belongs to a phase.
pub open spec fn session_in_turn(s: Session, event: EventView) -> bool {
    match s.phase {
        Phase::Greeting => event is Message,
        Phase::Starting => event is Accepted || event is ActorStopped,
        Phase::Running => event is Output || event is Exited || event is OutputEnded
            || event is SendFailed || event is StdinRefused || (event is Message && s.reading),
        Phase::Finishing => event is Finished || event is Failed || event is Lost,
        Phase::Left => false,
    }
}

/// An event out of turn changes nothing.
pub proof fn law_session_events_out_of_turn(
    s: Session,
    allowed: Seq<Seq<char>>,
    event: EventView,
)
    requires
        !session_in_turn(s, event),
    ensures
        session_step(s, allowed, event) == (s, ActionView::Wait),
{
}

/// A connection begins by listening to a client whose command has an open stdin and is not
/// cancelled; the exit code of the command is sent while it runs, and changes nothing.
pub proof fn law_connection_begins(s: Session, allowed: Seq<Seq<char>>, code: i32)
    ensures
        new_session() == (Session {
            phase: Phase::Greeting,
            reading: true,
            stdin_open: true,
            cancelled: false,
        }),
        s.phase == Phase::Running ==> session_step(s, allowed, EventView::Exited(code)).0 == s,
        s.phase == Phase::Running ==> (session_step(s, allowed, EventView::Exited(code)).1
            matches ActionView::Send(frame) && server_decoded(frame) == Ok::<_, DecodeError>(
            ServerFrameView::Exit(code),
        )),
{
    law_server_frame_round_trip(ServerFrameView::Exit(code));
}

/// A client is awaited exactly as long as what it says has an effect: its going away has one, and
/// where it is not awaited nothing has.
pub proof fn law_awaited_client_is_heard(
    s: Session,
    allowed: Seq<Seq<char>>,
    incoming: IncomingView,
)
    ensures
        !awaits(s) ==> session_step(s, allowed, EventView::Message(incoming)) == (
            s,
            ActionView::Wait,
        ),
        awaits(s) ==> !(session_step(s, allowed, EventView::Message(IncomingView::Ended)).1
            is Wait),
{
}

} // verus!
