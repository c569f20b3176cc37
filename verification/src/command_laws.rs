//! The laws of a command: what holds of every course that it can take, and of its environment.

use crate::command::{
    command_env, exit_code_of, framed, kill_args_of, output_of, run_step, spawned_as, stream_frames,
    EndSignal, RunActionView, RunEventView, RunPhase, StreamKind, TERMINATION_GRACE_SECS,
};
use crate::config::{
    CLIENT_CWD_ENV_VAR, CLIENT_EXEC_ENV_VALUE, CLIENT_EXEC_ENV_VAR, CLIENT_HOSTNAME_ENV_VAR,
    CLIENT_USERNAME_ENV_VAR,
};
use crate::decode_error::DecodeError;
use crate::protocol::{
    server_bytes, server_decoded, EnvVarView, ServerFrameView, BYTE_FRAME_HEADER_SIZE, CHUNK_SIZE,
};
use crate::roundtrip::{law_server_frame_round_trip, length_fits};
use crate::session::RequestView;
use crate::text::decimal;
use vstd::prelude::*;

verus! {

/// The actions that a course of events leads to.
pub open spec fn run_actions(phase: RunPhase, events: Seq<RunEventView>) -> Seq<RunActionView>
    decreases events.len(),
{
    if events.len() == 0 {
        Seq::empty()
    } else {
        let (next, action) = run_step(phase, events[0]);
        seq![action] + run_actions(next, events.skip(1))
    }
}

/// The phase that a course of events leads to.
pub open spec fn run_after(phase: RunPhase, events: Seq<RunEventView>) -> RunPhase
    decreases events.len(),
{
    if events.len() == 0 {
        phase
    } else {
        run_after(run_step(phase, events[0]).0, events.skip(1))
    }
}

/// How many of these actions satisfy `p`.
pub open spec fn count_actions(
    actions: Seq<RunActionView>,
    p: spec_fn(RunActionView) -> bool,
) -> nat
    decreases actions.len(),
{
    if actions.len() == 0 {
        0
    } else {
        (if p(actions[0]) {
            1nat
        } else {
            0nat
        }) + count_actions(actions.skip(1), p)
    }
}

/// Whether an action asks the process to end.
pub open spec fn asks_to_end(action: RunActionView) -> bool {
    action is Terminate
}

/// Whether an action makes the process end.
pub open spec fn makes_end(action: RunActionView) -> bool {
    action is KillGroup || action is KillProcess
}

/// Whether an action reports an exit code.
pub open spec fn reports(action: RunActionView) -> bool {
    action is Report
}

/// Whether an action is the last word on a command.
pub open spec fn concludes(action: RunActionView) -> bool {
    action is Finish || action is Fail
}

/// How far a phase is from the end.
spec fn distance(phase: RunPhase) -> nat {
    match phase {
        RunPhase::Running => 7,
        RunPhase::Terminating => 6,
        RunPhase::Killing => 5,
        RunPhase::Reaping => 4,
        RunPhase::DrainingStdout(_) => 3,
        RunPhase::DrainingStderr(_) => 2,
        RunPhase::Reporting => 1,
        RunPhase::Done => 0,
    }
}

/// The first action of a course, and the rest.
proof fn lemma_unfold(phase: RunPhase, events: Seq<RunEventView>)
    requires
        events.len() > 0,
    ensures
        run_actions(phase, events).len() > 0,
        run_actions(phase, events)[0] == run_step(phase, events[0]).1,
        run_actions(phase, events).skip(1) == run_actions(
            run_step(phase, events[0]).0,
            events.skip(1),
        ),
{
    let rest = run_actions(run_step(phase, events[0]).0, events.skip(1));
    assert(run_actions(phase, events).skip(1) =~= rest);
}

/// Every event leads to one action.
proof fn lemma_one_action_each(phase: RunPhase, events: Seq<RunEventView>)
    ensures
        run_actions(phase, events).len() == events.len(),
    decreases events.len(),
{
    if events.len() > 0 {
        lemma_one_action_each(run_step(phase, events[0]).0, events.skip(1));
    }
}

/// A command that is done stays done, and nothing more is done for it.
pub proof fn law_done_is_final(events: Seq<RunEventView>)
    ensures
        run_after(RunPhase::Done, events) == RunPhase::Done,
        forall|i: int|
            0 <= i < events.len() ==> (#[trigger] run_actions(RunPhase::Done, events)[i]) is Wait,
        run_actions(RunPhase::Done, events).len() == events.len(),
    decreases events.len(),
{
    if events.len() > 0 {
        law_done_is_final(events.skip(1));
        lemma_unfold(RunPhase::Done, events);
        let actions = run_actions(RunPhase::Done, events);
        assert forall|i: int| 0 <= i < events.len() implies (#[trigger] actions[i]) is Wait by {
            if i > 0 {
                assert(actions[i] == actions.skip(1)[i - 1]);
            }
        }
    }
}

/// What is left of each kind of action in a phase.
proof fn lemma_counts(phase: RunPhase, events: Seq<RunEventView>)
    ensures
        count_actions(run_actions(phase, events), |a: RunActionView| asks_to_end(a)) <= if phase
            == RunPhase::Running {
            1nat
        } else {
            0nat
        },
        count_actions(run_actions(phase, events), |a: RunActionView| makes_end(a)) <= if distance(
            phase,
        ) >= 6 {
            1nat
        } else {
            0nat
        },
        count_actions(run_actions(phase, events), |a: RunActionView| reports(a)) <= if distance(
            phase,
        ) >= 2 {
            1nat
        } else {
            0nat
        },
        count_actions(run_actions(phase, events), |a: RunActionView| concludes(a)) <= if distance(
            phase,
        ) >= 1 {
            1nat
        } else {
            0nat
        },
    decreases events.len(),
{
    if events.len() > 0 {
        lemma_unfold(phase, events);
        lemma_counts(run_step(phase, events[0]).0, events.skip(1));
    }
}

/// Whatever happens, a process is asked to end at most once and made to end at most once, its exit
/// code is reported at most once, and there is at most one last word on it.
pub proof fn law_each_step_is_taken_once(events: Seq<RunEventView>)
    ensures
        count_actions(run_actions(RunPhase::Running, events), |a: RunActionView| asks_to_end(a))
            <= 1,
        count_actions(run_actions(RunPhase::Running, events), |a: RunActionView| makes_end(a))
            <= 1,
        count_actions(run_actions(RunPhase::Running, events), |a: RunActionView| reports(a)) <= 1,
        count_actions(run_actions(RunPhase::Running, events), |a: RunActionView| concludes(a))
            <= 1,
{
    lemma_counts(RunPhase::Running, events);
}

/// Where a killing action stands in a course, an asking one stands before it.
proof fn lemma_asked_before(phase: RunPhase, events: Seq<RunEventView>, i: int)
    requires
        phase != RunPhase::Terminating,
        0 <= i < run_actions(phase, events).len(),
        makes_end(run_actions(phase, events)[i]),
    ensures
        exists|j: int|
            0 <= j < i && asks_to_end(#[trigger] run_actions(phase, events)[j])
                && events[j] is Cancelled && events[i] is GraceElapsed,
    decreases events.len(),
{
    let actions = run_actions(phase, events);
    lemma_unfold(phase, events);
    let next = run_step(phase, events[0]).0;
    let rest = events.skip(1);
    lemma_one_action_each(next, rest);
    assert(i > 0);
    assert(actions[i] == actions.skip(1)[i - 1]);
    if next == RunPhase::Terminating {
        assert(asks_to_end(actions[0]));
        lemma_kill_follows_grace(next, rest, i - 1);
        assert(events[i] == rest[i - 1]);
    } else {
        lemma_asked_before(next, rest, i - 1);
        let j = choose|j: int|
            0 <= j < i - 1 && asks_to_end(#[trigger] run_actions(next, rest)[j])
                && rest[j] is Cancelled && rest[i - 1] is GraceElapsed;
        assert(actions[j + 1] == actions.skip(1)[j]);
        assert(events[j + 1] == rest[j]);
        assert(events[i] == rest[i - 1]);
    }
}

/// A killing action answers the word that the time is over.
proof fn lemma_kill_follows_grace(phase: RunPhase, events: Seq<RunEventView>, i: int)
    requires
        0 <= i < run_actions(phase, events).len(),
        makes_end(run_actions(phase, events)[i]),
    ensures
        i < events.len(),
        events[i] is GraceElapsed,
    decreases events.len(),
{
    let actions = run_actions(phase, events);
    lemma_unfold(phase, events);
    if i > 0 {
        assert(actions[i] == actions.skip(1)[i - 1]);
        lemma_kill_follows_grace(run_step(phase, events[0]).0, events.skip(1), i - 1);
    }
}

/// A process is made to end only after it was asked to, because of a cancellation, and did not end
/// in the time it was given.
pub proof fn law_killed_only_after_grace(events: Seq<RunEventView>, i: int)
    requires
        0 <= i < run_actions(RunPhase::Running, events).len(),
        makes_end(run_actions(RunPhase::Running, events)[i]),
    ensures
        exists|j: int|
            0 <= j < i && asks_to_end(#[trigger] run_actions(RunPhase::Running, events)[j])
                && events[j] is Cancelled && events[i] is GraceElapsed,
{
    lemma_asked_before(RunPhase::Running, events, i);
}

/// A process that nobody cancels is neither asked nor made to end.
pub proof fn law_uncancelled_command_is_left_alone(events: Seq<RunEventView>)
    requires
        forall|i: int| 0 <= i < events.len() ==> !((#[trigger] events[i]) is Cancelled),
    ensures
        count_actions(run_actions(RunPhase::Running, events), |a: RunActionView| asks_to_end(a))
            == 0,
        count_actions(run_actions(RunPhase::Running, events), |a: RunActionView| makes_end(a))
            == 0,
    decreases events.len(),
{
    if events.len() > 0 {
        lemma_unfold(RunPhase::Running, events);
        let next = run_step(RunPhase::Running, events[0]).0;
        let rest = events.skip(1);
        assert(!(events[0] is Cancelled));
        if next == RunPhase::Running {
            assert forall|i: int| 0 <= i < rest.len() implies !((#[trigger] rest[i]) is Cancelled) by {
                assert(rest[i] == events[i + 1]);
            }
            law_uncancelled_command_is_left_alone(rest);
        } else {
            lemma_counts(next, rest);
        }
    }
}

/// How many of these events say that an output stream has ended.
pub open spec fn stream_ends(events: Seq<RunEventView>) -> nat
    decreases events.len(),
{
    if events.len() == 0 {
        0
    } else {
        (if events[0] is StreamEnded {
            1nat
        } else {
            0nat
        }) + stream_ends(events.skip(1))
    }
}

/// A report stands behind as many ends of streams as its phase still awaits.
proof fn lemma_streams_end_first(phase: RunPhase, events: Seq<RunEventView>, i: int)
    requires
        0 <= i < run_actions(phase, events).len(),
        reports(run_actions(phase, events)[i]),
    ensures
        i < events.len(),
        distance(phase) >= 2,
        stream_ends(events.take(i + 1)) >= if distance(phase) == 2 {
            1nat
        } else {
            2nat
        },
    decreases events.len(),
{
    let actions = run_actions(phase, events);
    lemma_unfold(phase, events);
    let taken = events.take(i + 1);
    if i > 0 {
        assert(actions[i] == actions.skip(1)[i - 1]);
        lemma_streams_end_first(run_step(phase, events[0]).0, events.skip(1), i - 1);
        assert(taken.skip(1) =~= events.skip(1).take(i));
    }
    assert(taken[0] == events[0]);
}

/// The exit code is reported only after both output streams have ended: no output comes after it.
pub proof fn law_exit_code_follows_output(events: Seq<RunEventView>, i: int)
    requires
        0 <= i < run_actions(RunPhase::Running, events).len(),
        reports(run_actions(RunPhase::Running, events)[i]),
    ensures
        i < events.len(),
        stream_ends(events.take(i + 1)) >= 2,
{
    lemma_streams_end_first(RunPhase::Running, events, i);
}

/// A command that ends by itself and whose output can be sent is reported with its own exit code,
/// and then with success.
pub proof fn law_exit_code_is_reported(code: Option<i32>)
    ensures
        run_actions(
            RunPhase::Running,
            seq![
                RunEventView::Exited(code),
                RunEventView::StreamEnded,
                RunEventView::StreamEnded,
                RunEventView::Reported,
            ],
        ) == seq![
            RunActionView::AwaitStdout,
            RunActionView::AwaitStderr,
            RunActionView::Report(exit_code_of(code)),
            RunActionView::Finish,
        ],
{
    let e0 = seq![
        RunEventView::Exited(code),
        RunEventView::StreamEnded,
        RunEventView::StreamEnded,
        RunEventView::Reported,
    ];
    let e1 = e0.skip(1);
    let e2 = e1.skip(1);
    let e3 = e2.skip(1);
    let c = exit_code_of(code);
    reveal_with_fuel(run_actions, 5);
    assert(e3.skip(1).len() == 0);
    assert(run_actions(RunPhase::Reporting, e3) =~= seq![RunActionView::Finish]);
    assert(run_actions(RunPhase::DrainingStderr(c), e2) =~= seq![
        RunActionView::Report(c),
        RunActionView::Finish,
    ]);
    assert(run_actions(RunPhase::DrainingStdout(c), e1) =~= seq![
        RunActionView::AwaitStderr,
        RunActionView::Report(c),
        RunActionView::Finish,
    ]);
}

/// The value that a variable ends up with when these are set one after the other.
pub open spec fn env_value(env: Seq<EnvVarView>, name: Seq<char>) -> Option<Seq<char>>
    decreases env.len(),
{
    if env.len() == 0 {
        None
    } else if env.last().name == name {
        Some(env.last().value)
    } else {
        env_value(env.drop_last(), name)
    }
}

/// A setting of another variable at the end changes nothing.
proof fn lemma_env_push(env: Seq<EnvVarView>, var: EnvVarView, name: Seq<char>)
    ensures
        env_value(env.push(var), name) == if var.name == name {
            Some(var.value)
        } else {
            env_value(env, name)
        },
{
    assert(env.push(var).drop_last() =~= env);
}

/// The names of the variables that tell who asked for a command differ.
proof fn lemma_origin_names_differ()
    ensures
        CLIENT_HOSTNAME_ENV_VAR@ != CLIENT_USERNAME_ENV_VAR@,
        CLIENT_HOSTNAME_ENV_VAR@ != CLIENT_CWD_ENV_VAR@,
        CLIENT_HOSTNAME_ENV_VAR@ != CLIENT_EXEC_ENV_VAR@,
        CLIENT_USERNAME_ENV_VAR@ != CLIENT_CWD_ENV_VAR@,
        CLIENT_USERNAME_ENV_VAR@ != CLIENT_EXEC_ENV_VAR@,
        CLIENT_CWD_ENV_VAR@ != CLIENT_EXEC_ENV_VAR@,
{
    reveal_strlit("HOSTCMD_CLIENT_HOSTNAME");
    reveal_strlit("HOSTCMD_CLIENT_USERNAME");
    reveal_strlit("HOSTCMD_CLIENT_CWD");
    reveal_strlit("HOSTCMD_CLIENT_EXEC");
    assert(CLIENT_HOSTNAME_ENV_VAR@[15] == 'H');
    assert(CLIENT_USERNAME_ENV_VAR@[15] == 'U');
    assert(CLIENT_CWD_ENV_VAR@[15] == 'C');
    assert(CLIENT_EXEC_ENV_VAR@[15] == 'E');
}

/// A command always learns who asked for it, whatever variables the client forwards; every other
/// variable has the value that was forwarded last.
pub proof fn law_command_knows_its_origin(request: RequestView, name: Seq<char>)
    ensures
        env_value(command_env(request), CLIENT_HOSTNAME_ENV_VAR@) == Some(request.client_hostname),
        env_value(command_env(request), CLIENT_USERNAME_ENV_VAR@) == Some(request.client_username),
        env_value(command_env(request), CLIENT_CWD_ENV_VAR@) == Some(request.client_cwd),
        env_value(command_env(request), CLIENT_EXEC_ENV_VAR@) == Some(CLIENT_EXEC_ENV_VALUE@),
        name != CLIENT_HOSTNAME_ENV_VAR@ && name != CLIENT_USERNAME_ENV_VAR@ && name
            != CLIENT_CWD_ENV_VAR@ && name != CLIENT_EXEC_ENV_VAR@ ==> env_value(
            command_env(request),
            name,
        ) == env_value(request.forward_env, name),
{
    lemma_origin_names_differ();
    let v0 = EnvVarView { name: CLIENT_HOSTNAME_ENV_VAR@, value: request.client_hostname };
    let v1 = EnvVarView { name: CLIENT_USERNAME_ENV_VAR@, value: request.client_username };
    let v2 = EnvVarView { name: CLIENT_CWD_ENV_VAR@, value: request.client_cwd };
    let v3 = EnvVarView { name: CLIENT_EXEC_ENV_VAR@, value: CLIENT_EXEC_ENV_VALUE@ };
    let e0 = request.forward_env;
    let e1 = e0.push(v0);
    let e2 = e1.push(v1);
    let e3 = e2.push(v2);
    assert(command_env(request) =~= e3.push(v3));
    assert forall|n: Seq<char>| #[trigger]
        env_value(command_env(request), n) == if v3.name == n {
            Some(v3.value)
        } else if v2.name == n {
            Some(v2.value)
        } else if v1.name == n {
            Some(v1.value)
        } else if v0.name == n {
            Some(v0.value)
        } else {
            env_value(e0, n)
        } by {
        lemma_env_push(e0, v0, n);
        lemma_env_push(e1, v1, n);
        lemma_env_push(e2, v2, n);
        lemma_env_push(e3, v3, n);
    }
}

/// The payload of an output frame.
pub open spec fn payload_of(frame: Seq<u8>) -> Seq<u8> {
    match server_decoded(frame) {
        Ok(ServerFrameView::Stdout(bytes)) => bytes,
        Ok(ServerFrameView::Stderr(bytes)) => bytes,
        _ => Seq::empty(),
    }
}

/// A pipe that is read in chunks up to its end, none of them larger than the room for one, is sent
/// as one frame for each chunk and nothing else. Every frame decodes to its chunk, marked with the
/// stream it came from, and the payloads put together are what was read. A pipe that gives nothing
/// is sent as nothing.
pub proof fn law_output_stream_is_framed(kind: StreamKind, chunks: Seq<Seq<u8>>)
    requires
        forall|i: int| 0 <= i < chunks.len() ==> 1 <= (#[trigger] chunks[i]).len() <= CHUNK_SIZE,
    ensures
        ({
            let frames = stream_frames(kind, chunks.push(Seq::empty()));
            &&& frames.len() == chunks.len()
            &&& forall|i: int|
                0 <= i < chunks.len() ==> server_decoded(#[trigger] frames[i]) == Ok::<
                    _,
                    DecodeError,
                >(output_of(kind, chunks[i]))
            &&& forall|i: int|
                0 <= i < chunks.len() ==> 1 <= payload_of(#[trigger] frames[i]).len() <= CHUNK_SIZE
            &&& frames.map_values(|frame: Seq<u8>| payload_of(frame)).flatten()
                == chunks.flatten()
        }),
{
    let frames = stream_frames(kind, chunks.push(Seq::empty()));
    lemma_stream_frames(kind, chunks);
    assert forall|i: int| 0 <= i < chunks.len() implies server_decoded(#[trigger] frames[i])
        == Ok::<_, DecodeError>(output_of(kind, chunks[i])) by {
        assert(chunks[i].len() <= CHUNK_SIZE);
        law_output_frame_decodes(kind, chunks[i]);
    }
    assert forall|i: int| 0 <= i < chunks.len() implies payload_of(#[trigger] frames[i])
        == chunks[i] by {}
    assert(frames.map_values(|frame: Seq<u8>| payload_of(frame)) =~= chunks);
}

/// Each chunk has its frame.
proof fn lemma_stream_frames(kind: StreamKind, chunks: Seq<Seq<u8>>)
    requires
        forall|i: int| 0 <= i < chunks.len() ==> 1 <= (#[trigger] chunks[i]).len(),
    ensures
        stream_frames(kind, chunks.push(Seq::empty())).len() == chunks.len(),
        forall|i: int|
            0 <= i < chunks.len() ==> (#[trigger] stream_frames(
                kind,
                chunks.push(Seq::empty()),
            )[i]) == server_bytes(output_of(kind, chunks[i])),
    decreases chunks.len(),
{
    let reads = chunks.push(Seq::<u8>::empty());
    let frames = stream_frames(kind, reads);
    if chunks.len() > 0 {
        let rest = chunks.skip(1);
        assert forall|i: int| 0 <= i < rest.len() implies 1 <= (#[trigger] rest[i]).len() by {
            assert(rest[i] == chunks[i + 1]);
        }
        lemma_stream_frames(kind, rest);
        assert(reads.skip(1) =~= rest.push(Seq::empty()));
        assert(reads[0] == chunks[0]);
        assert(1 <= chunks[0].len());
        let tail = stream_frames(kind, rest.push(Seq::empty()));
        assert(frames =~= seq![server_bytes(output_of(kind, chunks[0]))] + tail);
        assert forall|i: int| 0 <= i < chunks.len() implies (#[trigger] frames[i]) == server_bytes(
            output_of(kind, chunks[i]),
        ) by {
            if i > 0 {
                assert(frames[i] == tail[i - 1]);
                assert(rest[i - 1] == chunks[i]);
            }
        }
    } else {
        assert(reads[0].len() == 0);
    }
}

/// A chunk of output reaches the client as it was read, marked with the stream it came from.
pub proof fn law_output_frame_decodes(kind: StreamKind, bytes: Seq<u8>)
    requires
        length_fits(bytes.len()),
    ensures
        server_decoded(server_bytes(output_of(kind, bytes))) == Ok::<_, DecodeError>(
            output_of(kind, bytes),
        ),
{
    law_server_frame_round_trip(output_of(kind, bytes));
}

/// The code with which a process exits is the code that is reported, whatever it is; a process that
/// has none is reported with one.
pub proof fn law_exit_code_is_kept(code: i32)
    ensures
        run_actions(
            RunPhase::Running,
            seq![
                RunEventView::Exited(Some(code)),
                RunEventView::StreamEnded,
                RunEventView::StreamEnded,
            ],
        ) == seq![
            RunActionView::AwaitStdout,
            RunActionView::AwaitStderr,
            RunActionView::Report(code),
        ],
        run_actions(
            RunPhase::Running,
            seq![
                RunEventView::Exited(None),
                RunEventView::StreamEnded,
                RunEventView::StreamEnded,
            ],
        ) == seq![
            RunActionView::AwaitStdout,
            RunActionView::AwaitStderr,
            RunActionView::Report(1),
        ],
{
    lemma_reported(Some(code), code);
    lemma_reported(None, 1);
}

/// The same for a code that is `reported` as a number.
proof fn lemma_reported(code: Option<i32>, reported: i32)
    requires
        exit_code_of(code) == reported,
    ensures
        run_actions(
            RunPhase::Running,
            seq![
                RunEventView::Exited(code),
                RunEventView::StreamEnded,
                RunEventView::StreamEnded,
            ],
        ) == seq![
            RunActionView::AwaitStdout,
            RunActionView::AwaitStderr,
            RunActionView::Report(reported),
        ],
{
    let e0 = seq![
        RunEventView::Exited(code),
        RunEventView::StreamEnded,
        RunEventView::StreamEnded,
    ];
    let e1 = e0.skip(1);
    let e2 = e1.skip(1);
    assert(e2.skip(1).len() == 0);
    assert(run_actions(RunPhase::Reporting, e2.skip(1)).len() == 0);
    assert(run_actions(RunPhase::DrainingStderr(reported), e2) =~= seq![
        RunActionView::Report(reported),
    ]);
    assert(run_actions(RunPhase::DrainingStdout(reported), e1) =~= seq![
        RunActionView::AwaitStderr,
        RunActionView::Report(reported),
    ]);
}

/// Whether an event says that the process ended with what is reported as `code`.
pub open spec fn ended_with(event: RunEventView, code: i32) -> bool {
    event == RunEventView::Exited(Some(code)) || (event == RunEventView::Exited(None) && code == 1)
}

/// A code that is reported is the one of a process that ended before, or the one that the phase
/// holds.
proof fn lemma_report_is_true(phase: RunPhase, events: Seq<RunEventView>, i: int, code: i32)
    requires
        0 <= i < run_actions(phase, events).len(),
        run_actions(phase, events)[i] == RunActionView::Report(code),
    ensures
        match phase {
            RunPhase::DrainingStdout(held) => held == code,
            RunPhase::DrainingStderr(held) => held == code,
            RunPhase::Reporting | RunPhase::Done => false,
            _ => exists|j: int| 0 <= j < i && ended_with(#[trigger] events[j], code),
        },
    decreases events.len(),
{
    lemma_unfold(phase, events);
    lemma_one_action_each(phase, events);
    let next = run_step(phase, events[0]).0;
    let rest = events.skip(1);
    if i > 0 {
        assert(run_actions(phase, events)[i] == run_actions(phase, events).skip(1)[i - 1]);
        lemma_report_is_true(next, rest, i - 1, code);
        match next {
            RunPhase::DrainingStdout(_) => {
                assert(phase is DrainingStdout || ended_with(events[0], code));
            },
            RunPhase::DrainingStderr(_) | RunPhase::Reporting | RunPhase::Done => {},
            _ => {
                let j = choose|j: int| 0 <= j < i - 1 && ended_with(#[trigger] rest[j], code);
                assert(rest[j] == events[j + 1]);
                assert(ended_with(events[j + 1], code));
            },
        }
    }
}

/// Whatever happens, the exit code that is reported is the one with which the process ended, or one
/// where it ended without any.
pub proof fn law_reported_code_is_the_process_own(events: Seq<RunEventView>, i: int, code: i32)
    requires
        0 <= i < run_actions(RunPhase::Running, events).len(),
        run_actions(RunPhase::Running, events)[i] == RunActionView::Report(code),
    ensures
        exists|j: int| 0 <= j < i && ended_with(#[trigger] events[j], code),
{
    lemma_report_is_true(RunPhase::Running, events, i, code);
}

/// However a process came to its end, its streams are awaited next.
pub proof fn law_end_of_process_is_followed_by_its_output(phase: RunPhase, code: Option<i32>)
    requires
        phase == RunPhase::Running || phase == RunPhase::Terminating || phase == RunPhase::Reaping,
    ensures
        run_step(phase, RunEventView::Exited(code)).1 == RunActionView::AwaitStdout,
        code matches Some(c) ==> run_step(phase, RunEventView::Exited(code)).0
            == RunPhase::DrainingStdout(c),
        code is None ==> run_step(phase, RunEventView::Exited(code)).0 == RunPhase::DrainingStdout(
            1,
        ),
{
}

/// A cancelled command is asked to end under its own process id; where it does not end in time, it
/// is killed under the id that it then has, with its group, and without an id by itself.
pub proof fn law_cancelled_command_is_ended(pid: Option<u32>, later: u32)
    ensures
        run_step(RunPhase::Running, RunEventView::Cancelled(pid)) == (
            RunPhase::Terminating,
            RunActionView::Terminate(pid),
        ),
        run_step(RunPhase::Terminating, RunEventView::GraceElapsed(Some(later))) == (
            RunPhase::Reaping,
            RunActionView::KillGroup(later),
        ),
        run_step(RunPhase::Terminating, RunEventView::GraceElapsed(None)) == (
            RunPhase::Killing,
            RunActionView::KillProcess,
        ),
        run_step(RunPhase::Killing, RunEventView::Killed) == (
            RunPhase::Reaping,
            RunActionView::Reap,
        ),
        TERMINATION_GRACE_SECS == 2,
{
}

/// The failure of a command, given what was being done.
pub open spec fn broke_off(links: Seq<Seq<char>>) -> (RunPhase, RunActionView) {
    (
        RunPhase::Done,
        RunActionView::Fail {
            failure: seq!["command execution failed"@] + links,
            cause: Some(links[0]),
        },
    )
}

/// A command that cannot be waited for, cannot be killed, or whose output cannot be had fails: the
/// failure says what was being done and ends with the cause, and its first inner link is noted.
pub proof fn law_broken_off_command_fails(code: i32, cause: Seq<Seq<char>>)
    requires
        cause.len() > 0,
    ensures
        run_step(RunPhase::Running, RunEventView::WaitFailed(cause)) == broke_off(
            seq!["failed to wait for command"@] + cause,
        ),
        run_step(RunPhase::Terminating, RunEventView::WaitFailed(cause)) == broke_off(
            seq!["failed to wait for cancelled command"@] + cause,
        ),
        run_step(RunPhase::Reaping, RunEventView::WaitFailed(cause)) == broke_off(
            seq!["failed to wait for killed command"@] + cause,
        ),
        run_step(RunPhase::Killing, RunEventView::KillFailed(cause)) == broke_off(
            seq!["failed to kill cancelled command"@] + cause,
        ),
        run_step(RunPhase::DrainingStdout(code), RunEventView::StreamFailed(cause)) == broke_off(
            cause,
        ),
        run_step(RunPhase::DrainingStderr(code), RunEventView::StreamFailed(cause)) == broke_off(
            cause,
        ),
        run_step(RunPhase::DrainingStdout(code), RunEventView::StreamPanicked(cause)) == broke_off(
            seq!["stdout task panicked"@] + cause,
        ),
        run_step(RunPhase::DrainingStderr(code), RunEventView::StreamPanicked(cause)) == broke_off(
            seq!["stderr task panicked"@] + cause,
        ),
        run_step(RunPhase::Reporting, RunEventView::ReportRefused(cause)) == (
            RunPhase::Done,
            RunActionView::Fail {
                failure: seq!["client disconnected before exit code was sent"@] + cause,
                cause: None,
            },
        ),
{
}

/// Whether an event belongs to a phase.
pub open spec fn in_turn(phase: RunPhase, event: RunEventView) -> bool {
    match phase {
        RunPhase::Running => event is Exited || event is WaitFailed || event is Cancelled,
        RunPhase::Terminating => event is Exited || event is WaitFailed || event is GraceElapsed,
        RunPhase::Killing => event is Killed || event is KillFailed,
        RunPhase::Reaping => event is Exited || event is WaitFailed,
        RunPhase::DrainingStdout(_) | RunPhase::DrainingStderr(_) => event is StreamEnded
            || event is StreamFailed || event is StreamPanicked,
        RunPhase::Reporting => event is Reported || event is ReportRefused,
        RunPhase::Done => false,
    }
}

/// An event out of turn changes nothing, and every other one brings the end nearer.
pub proof fn law_events_out_of_turn_change_nothing(phase: RunPhase, event: RunEventView)
    ensures
        !in_turn(phase, event) ==> run_step(phase, event) == (phase, RunActionView::Wait),
        in_turn(phase, event) ==> run_step(phase, event).0 != phase && !(run_step(phase, event).1
            is Wait),
        phase == RunPhase::Reporting && event is Reported ==> run_step(phase, event) == (
            RunPhase::Done,
            RunActionView::Finish,
        ),
{
}

/// The signals go to the process group of the command and no other.
pub proof fn law_signals_go_to_the_group(pid: u32)
    ensures
        kill_args_of(pid, EndSignal::Term) == seq![
            seq!['-', 'T', 'E', 'R', 'M'],
            seq!['-'] + decimal(pid as nat),
        ],
        kill_args_of(pid, EndSignal::Kill) == seq![
            seq!['-', 'K', 'I', 'L', 'L'],
            seq!['-'] + decimal(pid as nat),
        ],
{
    reveal_strlit("-");
    reveal_strlit("TERM");
    reveal_strlit("KILL");
    assert("-"@ =~= seq!['-']);
    assert("-"@ + "TERM"@ =~= seq!['-', 'T', 'E', 'R', 'M']);
    assert("-"@ + "KILL"@ =~= seq!['-', 'K', 'I', 'L', 'L']);
}

/// What a read of a pipe gives is framed as it is, marked with the stream it came from, whatever its
/// length; only the end of the pipe is not framed.
pub proof fn law_every_read_is_framed(kind: StreamKind, read: Seq<u8>)
    requires
        length_fits(read.len()),
    ensures
        read.len() == 0 <==> framed(kind, read) is None,
        framed(kind, read) matches Some(frame) ==> server_decoded(frame) == Ok::<_, DecodeError>(
            match kind {
                StreamKind::Stdout => ServerFrameView::Stdout(read),
                StreamKind::Stderr => ServerFrameView::Stderr(read),
            },
        ),
        CHUNK_SIZE == 16384,
        BYTE_FRAME_HEADER_SIZE == 5,
{
    law_output_frame_decodes(kind, read);
}

/// The environment of a command is what the client forwarded, in its order, and then the name of
/// the client's machine, its user, its directory, and the mark of this program.
pub proof fn law_environment_of_a_command(request: RequestView, i: int)
    ensures
        command_env(request).len() == request.forward_env.len() + 4,
        0 <= i < request.forward_env.len() ==> command_env(request)[i] == request.forward_env[i],
        command_env(request).skip(request.forward_env.len() as int) == seq![
            EnvVarView { name: "HOSTCMD_CLIENT_HOSTNAME"@, value: request.client_hostname },
            EnvVarView { name: "HOSTCMD_CLIENT_USERNAME"@, value: request.client_username },
            EnvVarView { name: "HOSTCMD_CLIENT_CWD"@, value: request.client_cwd },
            EnvVarView { name: "HOSTCMD_CLIENT_EXEC"@, value: "true"@ },
        ],
{
    assert(command_env(request).skip(request.forward_env.len() as int) =~= seq![
        EnvVarView { name: "HOSTCMD_CLIENT_HOSTNAME"@, value: request.client_hostname },
        EnvVarView { name: "HOSTCMD_CLIENT_USERNAME"@, value: request.client_username },
        EnvVarView { name: "HOSTCMD_CLIENT_CWD"@, value: request.client_cwd },
        EnvVarView { name: "HOSTCMD_CLIENT_EXEC"@, value: "true"@ },
    ]);
}

/// A command is spawned word for word: its first word is the program, and the others are the
/// arguments, all of them and in their order. Its environment is that of the request. Only a request
/// without words spawns nothing.
pub proof fn law_command_is_spawned_word_for_word(request: RequestView)
    ensures
        spawned_as(request) is None <==> request.command.len() == 0,
        spawned_as(request) matches Some((program, arguments, env)) ==> {
            &&& seq![program] + arguments == request.command
            &&& env == command_env(request)
        },
{
    if request.command.len() > 0 {
        assert(seq![request.command[0]] + request.command.skip(1) =~= request.command);
    }
}

} // verus!
