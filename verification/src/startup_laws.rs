//! The laws of starting the server: which of its steps are taken, and what each failure is called.

use crate::daemon::ready_error_contents;
use crate::failure::failure_text;
use crate::ssh::ServeEndView;
use crate::startup::{
    action_rank, phase_rank, startup_actions, startup_begin, startup_step, StartupActionView,
    StartupEventView, StartupPhase, StartupView,
};
use crate::text::lossy_text;
use vstd::prelude::*;

verus! {

/// Whether an event says that the step of a phase succeeded.
pub open spec fn succeeds(phase: StartupPhase, event: StartupEventView) -> bool {
    match phase {
        StartupPhase::Resolving => event is Resolved,
        StartupPhase::Serving | StartupPhase::Done => false,
        _ => event is Succeeded,
    }
}

/// Whether the step of this place in the order is taken: the log file is prepared where there is
/// one, the forward is started where one is wanted, and readiness is reported where somebody waits
/// for it; every other step is always taken.
pub open spec fn wanted(s: StartupView, place: nat) -> bool {
    &&& place == 0 ==> s.log_file is Some
    &&& place == 5 ==> s.forward is Some
    &&& place == 6 ==> s.ready_file is Some
}

/// A step that succeeds is followed by the next one that is wanted: none that is wanted is left out,
/// and none that is not wanted is taken. Nothing else is forgotten on the way.
pub proof fn law_next_wanted_step_follows(s: StartupView, event: StartupEventView)
    requires
        succeeds(s.phase, event),
    ensures
        ({
            let (next, action) = startup_step(s, event);
            &&& !(action is Rest)
            &&& action_rank(action) == phase_rank(next.phase)
            &&& phase_rank(s.phase) < phase_rank(next.phase) <= 7
            &&& wanted(s, phase_rank(next.phase))
            &&& forall|place: nat|
                phase_rank(s.phase) < place < phase_rank(next.phase) ==> !#[trigger] wanted(s, place)
            &&& next.log_file == s.log_file
            &&& next.pid_file == s.pid_file
            &&& next.forward == s.forward
            &&& next.ready_file == s.ready_file
            &&& next.address == match event {
                StartupEventView::Resolved(address) => address,
                _ => s.address,
            }
        }),
{
    let next = startup_step(s, event).0;
    assert forall|place: nat|
        phase_rank(s.phase) < place < phase_rank(next.phase) implies !#[trigger] wanted(s, place) by {
        assert(place == 5 || place == 6);
    }
}

/// A server begins with its log file where it has one, and with its address where it has none; it
/// keeps what it was given.
pub proof fn law_startup_begins(
    log_file: Option<Seq<u8>>,
    pid_file: Seq<u8>,
    forward: Option<Seq<char>>,
    ready_file: Option<Seq<u8>>,
)
    ensures
        ({
            let (s, action) = startup_begin(log_file, pid_file, forward, ready_file);
            &&& log_file is Some ==> s.phase == StartupPhase::PreparingLog && action is PrepareLog
            &&& log_file is None ==> s.phase == StartupPhase::Resolving && action is Resolve
            &&& s.log_file == log_file
            &&& s.pid_file == pid_file
            &&& s.forward == forward
            &&& s.ready_file == ready_file
        }),
{
}

/// A course keeps what the server was given.
proof fn lemma_step_keeps(s: StartupView, event: StartupEventView)
    ensures
        startup_step(s, event).0.log_file == s.log_file,
        startup_step(s, event).0.pid_file == s.pid_file,
        startup_step(s, event).0.forward == s.forward,
        startup_step(s, event).0.ready_file == s.ready_file,
{
}

/// Where a forward is wanted, it is started before anything that comes behind it in the order.
proof fn lemma_wanted_step_comes_first(
    s: StartupView,
    events: Seq<StartupEventView>,
    place: nat,
    j: int,
)
    requires
        place == 5 || place == 6,
        wanted(s, place),
        phase_rank(s.phase) < place,
        0 <= j < startup_actions(s, events).len(),
        place < action_rank(startup_actions(s, events)[j]) < 8,
    ensures
        exists|i: int|
            0 <= i < j && action_rank(#[trigger] startup_actions(s, events)[i]) == place,
    decreases events.len(),
{
    let (next, action) = startup_step(s, events[0]);
    let rest = startup_actions(next, events.skip(1));
    let actions = startup_actions(s, events);
    assert(actions =~= seq![action] + rest);
    lemma_step_keeps(s, events[0]);
    assert(j > 0);
    assert(actions[j] == rest[j - 1]);
    if phase_rank(next.phase) == place {
        assert(action_rank(actions[0]) == place);
    } else if next.phase == StartupPhase::Done {
        lemma_done_rests(next, events.skip(1), j - 1);
    } else {
        lemma_wanted_step_comes_first(next, events.skip(1), place, j - 1);
        let i = choose|i: int| 0 <= i < j - 1 && action_rank(#[trigger] rest[i]) == place;
        assert(actions[i + 1] == rest[i]);
    }
}

/// Once nothing is left to do, nothing is done.
proof fn lemma_done_rests(s: StartupView, events: Seq<StartupEventView>, i: int)
    requires
        s.phase == StartupPhase::Done,
        0 <= i < startup_actions(s, events).len(),
    ensures
        startup_actions(s, events)[i] is Rest,
    decreases events.len(),
{
    let rest = startup_actions(startup_step(s, events[0]).0, events.skip(1));
    assert(startup_actions(s, events) =~= seq![startup_step(s, events[0]).1] + rest);
    if i > 0 {
        lemma_done_rests(s, events.skip(1), i - 1);
    }
}

/// A step that is not wanted is never taken.
proof fn lemma_unwanted_step_is_not_taken(
    s: StartupView,
    events: Seq<StartupEventView>,
    i: int,
)
    requires
        0 <= i < startup_actions(s, events).len(),
    ensures
        startup_actions(s, events)[i] is Forward ==> s.forward is Some,
        startup_actions(s, events)[i] is Ready ==> s.ready_file is Some,
        !(startup_actions(s, events)[i] is PrepareLog),
    decreases events.len(),
{
    let (next, action) = startup_step(s, events[0]);
    let rest = startup_actions(next, events.skip(1));
    assert(startup_actions(s, events) =~= seq![action] + rest);
    lemma_step_keeps(s, events[0]);
    if i > 0 {
        assert(startup_actions(s, events)[i] == rest[i - 1]);
        lemma_unwanted_step_is_not_taken(next, events.skip(1), i - 1);
    }
}

/// A server with a forward starts it before it serves, and before it says that it is up, whether or
/// not it has a log file and whether or not anybody waits for it; a server without one never does.
pub proof fn law_forward_is_started_before_serving(
    log_file: Option<Seq<u8>>,
    pid_file: Seq<u8>,
    forward: Option<Seq<char>>,
    ready_file: Option<Seq<u8>>,
    events: Seq<StartupEventView>,
    j: int,
)
    requires
        0 <= j < startup_actions(
            startup_begin(log_file, pid_file, forward, ready_file).0,
            events,
        ).len(),
    ensures
        ({
            let actions = startup_actions(
                startup_begin(log_file, pid_file, forward, ready_file).0,
                events,
            );
            &&& forward is Some && (actions[j] is Serve || actions[j] is Ready) ==> exists|i: int|
                0 <= i < j && (#[trigger] actions[i]) is Forward
            &&& forward is None ==> !(actions[j] is Forward)
        }),
{
    let s = startup_begin(log_file, pid_file, forward, ready_file).0;
    let actions = startup_actions(s, events);
    lemma_unwanted_step_is_not_taken(s, events, j);
    if forward is Some && (actions[j] is Serve || actions[j] is Ready) {
        lemma_wanted_step_comes_first(s, events, 5, j);
        let i = choose|i: int| 0 <= i < j && action_rank(#[trigger] actions[i]) == 5;
        assert(actions[i] is Forward);
    }
}

/// A server for which somebody waits says that it is up before it serves; one for which nobody waits
/// never does.
pub proof fn law_readiness_is_reported_before_serving(
    log_file: Option<Seq<u8>>,
    pid_file: Seq<u8>,
    forward: Option<Seq<char>>,
    ready_file: Option<Seq<u8>>,
    events: Seq<StartupEventView>,
    j: int,
)
    requires
        0 <= j < startup_actions(
            startup_begin(log_file, pid_file, forward, ready_file).0,
            events,
        ).len(),
    ensures
        ({
            let actions = startup_actions(
                startup_begin(log_file, pid_file, forward, ready_file).0,
                events,
            );
            &&& ready_file is Some && actions[j] is Serve ==> exists|i: int|
                0 <= i < j && (#[trigger] actions[i]) is Ready
            &&& ready_file is None ==> !(actions[j] is Ready)
            &&& !(actions[j] is PrepareLog)
        }),
{
    let s = startup_begin(log_file, pid_file, forward, ready_file).0;
    let actions = startup_actions(s, events);
    lemma_unwanted_step_is_not_taken(s, events, j);
    if ready_file is Some && actions[j] is Serve {
        lemma_wanted_step_comes_first(s, events, 6, j);
        let i = choose|i: int| 0 <= i < j && action_rank(#[trigger] actions[i]) == 6;
        assert(actions[i] is Ready);
    }
}

/// Whether a failure is reported to whoever waits for the server, and to nobody else.
pub open spec fn told(s: StartupView, action: StartupActionView, failure: Seq<Seq<char>>) -> bool {
    action == (StartupActionView::Fail {
        failure,
        report: match s.ready_file {
            Some(_) => Some("ERR "@ + failure_text(failure) + seq!['\n']),
            None => None,
        },
    })
}

/// A step that fails ends the startup. The failure says what was being done, with the file, the
/// address or the command line that it was done with, and ends with the cause.
pub proof fn law_failed_step_is_named(s: StartupView, cause: Seq<Seq<char>>)
    requires
        s.phase != StartupPhase::Serving,
        s.phase != StartupPhase::Done,
        s.phase == StartupPhase::PreparingLog ==> s.log_file is Some,
        s.phase == StartupPhase::Forwarding ==> s.forward is Some,
        s.phase == StartupPhase::Readying ==> s.ready_file is Some,
    ensures
        startup_step(s, StartupEventView::Failed(cause)).0.phase == StartupPhase::Done,
        told(
            s,
            startup_step(s, StartupEventView::Failed(cause)).1,
            seq![
                match s.phase {
                    StartupPhase::PreparingLog => "failed to prepare log file "@ + lossy_text(
                        s.log_file->Some_0,
                    ),
                    StartupPhase::Resolving => "invalid host or port"@,
                    StartupPhase::Binding => "failed to bind "@ + s.address,
                    StartupPhase::CreatingPidDirectory => "failed to create pid file directory "@
                        + lossy_text(s.pid_file),
                    StartupPhase::WritingPid => "failed to write pid file "@ + lossy_text(
                        s.pid_file,
                    ),
                    StartupPhase::Forwarding => "failed to start ssh forward: "@
                        + s.forward->Some_0,
                    _ => "failed to write daemon readiness file "@ + lossy_text(
                        s.ready_file->Some_0,
                    ),
                },
            ] + cause,
        ),
{
    law_ready_report(
        failure_text(
            match startup_step(s, StartupEventView::Failed(cause)).1 {
                StartupActionView::Fail { failure, .. } => failure,
                _ => Seq::empty(),
            },
        ),
    );
}

/// What is written into the readiness file of a server that failed.
pub proof fn law_ready_report(text: Seq<char>)
    ensures
        ready_error_contents(text) == "ERR "@ + text + seq!['\n'],
{
    reveal_strlit("\n");
    assert("\n"@ =~= seq!['\n']);
}

/// A server that stops serving by itself has succeeded; one whose listener fails, or whose forward
/// ends, has failed, and says which of them it was.
pub proof fn law_end_of_serving(s: StartupView, end: ServeEndView)
    requires
        s.phase == StartupPhase::Serving,
    ensures
        startup_step(s, StartupEventView::Ended(end)).0.phase == StartupPhase::Done,
        match end {
            ServeEndView::Server => startup_step(s, StartupEventView::Ended(end)).1 is Finish,
            ServeEndView::ServerFailed(cause) => told(
                s,
                startup_step(s, StartupEventView::Ended(end)).1,
                seq!["server failed"@] + cause,
            ),
            ServeEndView::ForwardExited(cause) => told(
                s,
                startup_step(s, StartupEventView::Ended(end)).1,
                seq!["ssh forward exited"@] + cause,
            ),
            ServeEndView::ForwardPanicked(cause) => told(
                s,
                startup_step(s, StartupEventView::Ended(end)).1,
                seq!["ssh forward monitor task panicked"@] + cause,
            ),
        },
{
    law_ready_report(
        failure_text(
            match startup_step(s, StartupEventView::Ended(end)).1 {
                StartupActionView::Fail { failure, .. } => failure,
                _ => Seq::empty(),
            },
        ),
    );
}

/// An event out of turn changes nothing.
pub proof fn law_startup_events_out_of_turn(s: StartupView, event: StartupEventView)
    requires
        !succeeds(s.phase, event),
        event is Failed ==> s.phase == StartupPhase::Serving || s.phase == StartupPhase::Done,
        event is Ended ==> s.phase != StartupPhase::Serving,
    ensures
        startup_step(s, event) == (s, StartupActionView::Rest),
{
}

} // verus!
