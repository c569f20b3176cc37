//! The laws of stopping a daemon: what holds of every course that it can take.

use crate::stop::{
    kill_pid_of, pid_file_contents, process_to_stop, stop_attempts, stop_begin, stop_step,
    target_text, StopActionView, StopEventView, StopPhase, StopSignal, StopTarget, STOP_GRACE_MILLIS,
    STOP_POLL_MILLIS,
};
use crate::text::{
    decimal, integer_error_text, integer_value, is_digit, lemma_decimal_value, lossy_text,
    quoted_text, signed_decimal, trimmed, trimmed_end, trimmed_start, white_space,
};
use crate::text_laws::all_white;
use vstd::prelude::*;

verus! {

/// The actions that the fates of the signals lead to, one after the other.
pub open spec fn stop_actions(phase: StopPhase, events: Seq<StopEventView>) -> Seq<StopActionView>
    decreases events.len(),
{
    if events.len() == 0 {
        Seq::empty()
    } else {
        let (next, action) = stop_step(phase, events[0]);
        seq![action] + stop_actions(next, events.skip(1))
    }
}

/// The phase that the fates of the signals lead to.
pub open spec fn stop_after(phase: StopPhase, events: Seq<StopEventView>) -> StopPhase
    decreases events.len(),
{
    if events.len() == 0 {
        phase
    } else {
        stop_after(stop_step(phase, events[0]).0, events.skip(1))
    }
}

/// How many of these signals were delivered.
pub open spec fn deliveries(events: Seq<StopEventView>) -> nat
    decreases events.len(),
{
    if events.len() == 0 {
        0
    } else {
        (if events[0] is Delivered {
            1nat
        } else {
            0nat
        }) + deliveries(events.skip(1))
    }
}

/// Whether an action orders the target to end.
pub open spec fn is_kill(action: StopActionView) -> bool {
    action matches StopActionView::Signal { signal: StopSignal::Kill, .. }
}

/// Whether the number of looks that are left is one that can come about.
pub open spec fn looks_in_range(phase: StopPhase) -> bool {
    match phase {
        StopPhase::Watching { left, .. } => 1 <= left <= stop_attempts(),
        StopPhase::WatchingKilled { left, .. } => 1 <= left <= stop_attempts(),
        _ => true,
    }
}

/// How many fates a phase can take at most until nothing is left to do.
pub open spec fn fates_left(phase: StopPhase) -> nat {
    match phase {
        StopPhase::AskingGroup(_) => (3 + 2 * stop_attempts()) as nat,
        StopPhase::AskingProcess(_) => (2 + 2 * stop_attempts()) as nat,
        StopPhase::Watching { left, .. } => (1 + left + stop_attempts()) as nat,
        StopPhase::Killing(_) => (1 + stop_attempts()) as nat,
        StopPhase::WatchingKilled { left, .. } => left as nat,
        StopPhase::Done => 0,
    }
}

/// The first action of a course, and the rest.
proof fn lemma_unfold(phase: StopPhase, events: Seq<StopEventView>)
    requires
        events.len() > 0,
    ensures
        stop_actions(phase, events).len() > 0,
        stop_actions(phase, events)[0] == stop_step(phase, events[0]).1,
        stop_actions(phase, events).skip(1) == stop_actions(
            stop_step(phase, events[0]).0,
            events.skip(1),
        ),
{
    let rest = stop_actions(stop_step(phase, events[0]).0, events.skip(1));
    assert(stop_actions(phase, events).skip(1) =~= rest);
}

/// Every fate leads to one action.
proof fn lemma_one_action_each(phase: StopPhase, events: Seq<StopEventView>)
    ensures
        stop_actions(phase, events).len() == events.len(),
    decreases events.len(),
{
    if events.len() > 0 {
        lemma_one_action_each(stop_step(phase, events[0]).0, events.skip(1));
    }
}

/// Every fate brings the end nearer.
proof fn lemma_fates_run_out(phase: StopPhase, events: Seq<StopEventView>)
    requires
        looks_in_range(phase),
        events.len() >= fates_left(phase),
    ensures
        stop_after(phase, events) == StopPhase::Done,
    decreases events.len(),
{
    if events.len() > 0 {
        lemma_fates_run_out(stop_step(phase, events[0]).0, events.skip(1));
    }
}

/// Stopping a daemon always comes to an end: one request to the group, one to the process, as many
/// looks as fit into the grace period, one order to end, and as many looks again are all there can
/// be.
pub proof fn law_stopping_ends(pid: i32, events: Seq<StopEventView>)
    requires
        events.len() >= 3 + 2 * stop_attempts(),
    ensures
        stop_after(StopPhase::AskingGroup(pid), events) == StopPhase::Done,
{
    lemma_fates_run_out(StopPhase::AskingGroup(pid), events);
}

/// How many signals have to be delivered in a phase before the order to end is given.
spec fn deliveries_before_kill(phase: StopPhase) -> nat {
    match phase {
        StopPhase::AskingGroup(_) => (1 + stop_attempts()) as nat,
        StopPhase::AskingProcess(_) => (1 + stop_attempts()) as nat,
        StopPhase::Watching { left, .. } => left as nat,
        _ => 0,
    }
}

/// Whether the order to end can still be given in a phase.
spec fn kill_is_ahead(phase: StopPhase) -> bool {
    phase is AskingGroup || phase is AskingProcess || phase is Watching
}

/// The order to end comes behind so many deliveries.
proof fn lemma_deliveries_before_kill(phase: StopPhase, events: Seq<StopEventView>, i: int)
    requires
        looks_in_range(phase),
        0 <= i < stop_actions(phase, events).len(),
        is_kill(stop_actions(phase, events)[i]),
    ensures
        i < events.len(),
        kill_is_ahead(phase),
        deliveries(events.take(i + 1)) >= deliveries_before_kill(phase),
    decreases events.len(),
{
    let actions = stop_actions(phase, events);
    lemma_unfold(phase, events);
    lemma_one_action_each(phase, events);
    let taken = events.take(i + 1);
    assert(taken[0] == events[0]);
    if i > 0 {
        assert(actions[i] == actions.skip(1)[i - 1]);
        lemma_deliveries_before_kill(stop_step(phase, events[0]).0, events.skip(1), i - 1);
        assert(taken.skip(1) =~= events.skip(1).take(i));
    }
}

/// A daemon is ordered to end only after the request to end was delivered and the daemon was then
/// seen alive at every look of the grace period.
pub proof fn law_kill_only_after_grace(pid: i32, events: Seq<StopEventView>, i: int)
    requires
        0 <= i < stop_actions(StopPhase::AskingGroup(pid), events).len(),
        is_kill(stop_actions(StopPhase::AskingGroup(pid), events)[i]),
    ensures
        i < events.len(),
        deliveries(events.take(i + 1)) >= 1 + stop_attempts(),
{
    lemma_deliveries_before_kill(StopPhase::AskingGroup(pid), events, i);
}

/// The target of a phase, once there is one.
pub open spec fn target_of(phase: StopPhase) -> Option<StopTarget> {
    match phase {
        StopPhase::Watching { target, .. } => Some(target),
        StopPhase::Killing(target) => Some(target),
        StopPhase::WatchingKilled { target, .. } => Some(target),
        _ => None,
    }
}

/// From the delivered request on, every signal goes to the target that the request reached.
pub proof fn law_target_is_kept(phase: StopPhase, target: StopTarget, events: Seq<StopEventView>)
    requires
        target_of(phase) == Some(target),
    ensures
        forall|i: int|
            0 <= i < stop_actions(phase, events).len() ==> ((
            #[trigger] stop_actions(phase, events)[i]) matches StopActionView::Signal {
                target: signalled,
                ..
            } ==> signalled == target),
    decreases events.len(),
{
    if events.len() > 0 {
        lemma_unfold(phase, events);
        let actions = stop_actions(phase, events);
        let next = stop_step(phase, events[0]).0;
        if next == StopPhase::Done {
            lemma_done_signals_nothing(events.skip(1));
        } else {
            law_target_is_kept(next, target, events.skip(1));
        }
        assert forall|i: int| 0 <= i < actions.len() implies ((
        #[trigger] actions[i]) matches StopActionView::Signal { target: signalled, .. } ==> signalled
            == target) by {
            if i > 0 {
                assert(actions[i] == actions.skip(1)[i - 1]);
            }
        }
    }
}

/// Once nothing is left to do, no signal is sent.
proof fn lemma_done_signals_nothing(events: Seq<StopEventView>)
    ensures
        forall|i: int|
            0 <= i < stop_actions(StopPhase::Done, events).len() ==> (
            #[trigger] stop_actions(StopPhase::Done, events)[i]) is Rest,
    decreases events.len(),
{
    if events.len() > 0 {
        lemma_unfold(StopPhase::Done, events);
        lemma_done_signals_nothing(events.skip(1));
        let actions = stop_actions(StopPhase::Done, events);
        assert forall|i: int| 0 <= i < actions.len() implies (#[trigger] actions[i]) is Rest by {
            if i > 0 {
                assert(actions[i] == actions.skip(1)[i - 1]);
            }
        }
    }
}

/// Stopping succeeds exactly when the target that was asked to end is found to be gone.
pub proof fn law_success_means_gone(phase: StopPhase, event: StopEventView)
    ensures
        stop_step(phase, event).1 is Finish == ((phase is Watching || phase is WatchingKilled)
            && event is Gone),
{
}

/// A daemon that ends when it is asked to is stopped without the order to end.
pub proof fn law_obedient_daemon_is_not_killed(pid: i32, looks: nat, word: Seq<Seq<char>>)
    requires
        looks < stop_attempts(),
    ensures
        ({
            let events = Seq::new(looks + 1, |i: int| StopEventView::Delivered).push(
                StopEventView::Gone(word),
            );
            let actions = stop_actions(StopPhase::AskingGroup(pid), events);
            &&& actions.len() == looks + 2
            &&& actions.last() is Finish
            &&& forall|i: int| 0 <= i < actions.len() ==> !is_kill(#[trigger] actions[i])
            &&& stop_after(StopPhase::AskingGroup(pid), events) == StopPhase::Done
        }),
{
    let events = Seq::new(looks + 1, |i: int| StopEventView::Delivered).push(
        StopEventView::Gone(word),
    );
    let target = StopTarget::ProcessGroup(pid);
    let phase = StopPhase::AskingGroup(pid);
    lemma_unfold(phase, events);
    let rest = Seq::new(looks, |i: int| StopEventView::Delivered).push(StopEventView::Gone(word));
    assert(events.skip(1) =~= rest);
    lemma_obedient(target, stop_attempts() as u64, looks, word);
    let actions = stop_actions(phase, events);
    let watching = StopPhase::Watching { target, left: stop_attempts() as u64 };
    assert(actions.skip(1) == stop_actions(watching, rest));
    assert forall|i: int| 0 <= i < actions.len() implies !is_kill(#[trigger] actions[i]) by {
        if i > 0 {
            assert(actions[i] == actions.skip(1)[i - 1]);
        }
    }
    assert(actions.last() == actions.skip(1).last());
}

/// The same once the request was delivered, with so many looks left.
proof fn lemma_obedient(target: StopTarget, left: u64, looks: nat, word: Seq<Seq<char>>)
    requires
        looks < left,
    ensures
        ({
            let events = Seq::new(looks, |i: int| StopEventView::Delivered).push(
                StopEventView::Gone(word),
            );
            let phase = StopPhase::Watching { target, left };
            let actions = stop_actions(phase, events);
            &&& actions.len() == looks + 1
            &&& actions.last() is Finish
            &&& forall|i: int| 0 <= i < actions.len() ==> !is_kill(#[trigger] actions[i])
            &&& stop_after(phase, events) == StopPhase::Done
        }),
    decreases looks,
{
    let events = Seq::new(looks, |i: int| StopEventView::Delivered).push(
        StopEventView::Gone(word),
    );
    let phase = StopPhase::Watching { target, left };
    let actions = stop_actions(phase, events);
    lemma_unfold(phase, events);
    if looks == 0 {
        assert(events.skip(1).len() == 0);
        assert(actions.skip(1).len() == 0);
        assert(stop_after(StopPhase::Done, events.skip(1)) == StopPhase::Done);
    } else {
        let rest = Seq::new((looks - 1) as nat, |i: int| StopEventView::Delivered).push(
            StopEventView::Gone(word),
        );
        assert(events.skip(1) =~= rest);
        lemma_obedient(target, (left - 1) as u64, (looks - 1) as nat, word);
        assert forall|i: int| 0 <= i < actions.len() implies !is_kill(#[trigger] actions[i]) by {
            if i > 0 {
                assert(actions[i] == actions.skip(1)[i - 1]);
            }
        }
        assert(actions.last() == actions.skip(1).last());
    }
}

/// White space around a text that has none at its ends is all that is trimmed.
proof fn lemma_trim_white(before: Seq<char>, text: Seq<char>, behind: Seq<char>)
    requires
        all_white(before),
        all_white(behind),
        text.len() > 0,
        !white_space(text[0]),
        !white_space(text.last()),
    ensures
        trimmed(before + text + behind) == text,
{
    lemma_trim_end_white(before + text, behind);
    lemma_trim_start_white(before, text);
}

/// The same at the end.
proof fn lemma_trim_end_white(text: Seq<char>, behind: Seq<char>)
    requires
        all_white(behind),
        text.len() > 0,
        !white_space(text.last()),
    ensures
        trimmed_end(text + behind) == text,
    decreases behind.len(),
{
    if behind.len() > 0 {
        let shorter = behind.drop_last();
        assert(white_space(behind[behind.len() - 1]));
        assert forall|i: int| 0 <= i < shorter.len() implies white_space(#[trigger] shorter[i]) by {
            assert(shorter[i] == behind[i]);
        }
        lemma_trim_end_white(text, shorter);
        assert((text + behind).drop_last() =~= text + shorter);
        assert((text + behind).last() == behind.last());
    } else {
        assert(text + behind =~= text);
    }
}

/// The same at the front.
proof fn lemma_trim_start_white(before: Seq<char>, text: Seq<char>)
    requires
        all_white(before),
        text.len() > 0,
        !white_space(text[0]),
    ensures
        trimmed_start(before + text) == text,
    decreases before.len(),
{
    if before.len() > 0 {
        let shorter = before.skip(1);
        assert(white_space(before[0]));
        assert forall|i: int| 0 <= i < shorter.len() implies white_space(#[trigger] shorter[i]) by {
            assert(shorter[i] == before[i + 1]);
        }
        lemma_trim_start_white(shorter, text);
        assert((before + text).skip(1) =~= shorter + text);
        assert((before + text)[0] == before[0]);
    } else {
        assert(before + text =~= text);
    }
}

/// The process that is stopped is the one whose id stands in the pid file, whatever white space
/// stands around it.
pub proof fn law_process_to_stop_is_the_one_in_the_file(
    path: Seq<u8>,
    pid: u32,
    before: Seq<char>,
    behind: Seq<char>,
)
    requires
        0 < pid <= i32::MAX,
        all_white(before),
        all_white(behind),
    ensures
        process_to_stop(path, Ok(before + decimal(pid as nat) + behind)) == Ok::<
            i32,
            Seq<Seq<char>>,
        >(pid as i32),
{
    let s = decimal(pid as nat);
    lemma_decimal_value(pid as nat);
    assert(is_digit(s[0]) && is_digit(s.last()));
    lemma_trim_white(before, s, behind);
}

/// A server and whoever stops it mean the same process: the one that the server wrote down.
pub proof fn law_stop_finds_the_server(path: Seq<u8>, pid: u32)
    requires
        0 < pid <= i32::MAX,
    ensures
        process_to_stop(path, Ok(pid_file_contents(pid))) == Ok::<i32, Seq<Seq<char>>>(pid as i32),
        pid_file_contents(pid) == decimal(pid as nat) + seq!['\n'],
{
    reveal_strlit("\n");
    assert(pid_file_contents(pid) =~= Seq::empty() + decimal(pid as nat) + seq!['\n']);
    law_process_to_stop_is_the_one_in_the_file(path, pid, Seq::empty(), seq!['\n']);
}

/// Only a number above zero is a process to stop, and it is the number that the pid file holds.
pub proof fn law_only_a_number_is_stopped(path: Seq<u8>, contents: Seq<char>)
    ensures
        process_to_stop(path, Ok(contents)) matches Ok(pid) ==> pid > 0 && integer_value(
            trimmed(contents),
        ) == Some(pid as int),
        process_to_stop(path, Ok(contents)) is Ok <==> (integer_value(trimmed(contents)) matches Some(
            n,
        ) && 0 < n <= i32::MAX),
{
    let text = trimmed(contents);
    if text.len() == 0 {
        assert(integer_value(text) is None);
    }
}

/// What is said of a pid file that cannot be read, or that holds no process id.
pub proof fn law_unusable_pid_file_is_reported(
    path: Seq<u8>,
    contents: Seq<char>,
    cause: Seq<Seq<char>>,
)
    ensures
        process_to_stop(path, Err(cause)) == Err::<i32, Seq<Seq<char>>>(
            seq!["failed to read pid file "@ + lossy_text(path)] + cause,
        ),
        trimmed(contents).len() == 0 ==> process_to_stop(path, Ok(contents)) == Err::<
            i32,
            Seq<Seq<char>>,
        >(seq!["pid file is empty"@]),
        integer_value(trimmed(contents)) matches Some(n) ==> (i32::MIN <= n <= 0
            ==> process_to_stop(path, Ok(contents)) == Err::<i32, Seq<Seq<char>>>(
            seq!["pid file contains invalid pid 0"@],
        )),
        trimmed(contents).len() > 0 && (integer_value(trimmed(contents)) is None || (integer_value(
            trimmed(contents),
        ) matches Some(n) && (n < i32::MIN || n > i32::MAX))) ==> process_to_stop(path, Ok(contents))
            == Err::<i32, Seq<Seq<char>>>(
            seq![
                "invalid pid file contents "@ + quoted_text(trimmed(contents)),
                integer_error_text(trimmed(contents)),
            ],
        ),
{
    if trimmed(contents).len() == 0 {
        assert(integer_value(trimmed(contents)) is None);
    }
}

/// A group goes by the negative of its id, a process by its own.
pub proof fn law_kill_ids(pid: i32)
    ensures
        kill_pid_of(StopTarget::ProcessGroup(pid)) == -pid,
        kill_pid_of(StopTarget::Process(pid)) == pid,
        target_text(StopTarget::ProcessGroup(pid)) == "process group "@ + signed_decimal(
            pid as int,
        ),
        target_text(StopTarget::Process(pid)) == "process "@ + signed_decimal(pid as int),
{
}

/// Whether a target is the process of this id or its group.
pub open spec fn is_of(target: StopTarget, pid: i32) -> bool {
    target == StopTarget::ProcessGroup(pid) || target == StopTarget::Process(pid)
}

/// Whether a phase speaks of no other process than this one.
spec fn phase_is_of(phase: StopPhase, pid: i32) -> bool {
    match phase {
        StopPhase::AskingGroup(p) => p == pid,
        StopPhase::AskingProcess(p) => p == pid,
        StopPhase::Watching { target, .. } => is_of(target, pid),
        StopPhase::Killing(target) => is_of(target, pid),
        StopPhase::WatchingKilled { target, .. } => is_of(target, pid),
        StopPhase::Done => true,
    }
}

/// The same of a course.
proof fn lemma_no_other_process(phase: StopPhase, pid: i32, events: Seq<StopEventView>, i: int)
    requires
        phase_is_of(phase, pid),
        0 <= i < stop_actions(phase, events).len(),
    ensures
        stop_actions(phase, events)[i] matches StopActionView::Signal { target, .. } ==> is_of(
            target,
            pid,
        ),
    decreases events.len(),
{
    lemma_unfold(phase, events);
    if i > 0 {
        let next = stop_step(phase, events[0]).0;
        assert(stop_actions(phase, events)[i] == stop_actions(phase, events).skip(1)[i - 1]);
        lemma_no_other_process(next, pid, events.skip(1), i - 1);
    }
}

/// Whatever happens, no process is ever signalled but the one that is to be stopped, and its group.
pub proof fn law_no_other_process_is_signalled(pid: i32, events: Seq<StopEventView>, i: int)
    requires
        0 <= i < stop_actions(StopPhase::AskingGroup(pid), events).len(),
    ensures
        stop_actions(StopPhase::AskingGroup(pid), events)[i] matches StopActionView::Signal {
            target,
            ..
        } ==> is_of(target, pid),
{
    lemma_no_other_process(StopPhase::AskingGroup(pid), pid, events, i);
}

/// A daemon is looked at a hundred times after a signal, so that it has five seconds.
pub proof fn law_grace_is_five_seconds()
    ensures
        stop_attempts() == 100,
        stop_attempts() * STOP_POLL_MILLIS == 5000,
        STOP_GRACE_MILLIS == 5000,
{
}

/// Once the request to end was delivered, whoever got it is looked at; a group that is not there
/// sends the request to the process itself, and a process that is not there is a failure.
pub proof fn law_request_goes_to_the_group_first(pid: i32, cause: Seq<Seq<char>>)
    ensures
        stop_step(StopPhase::AskingGroup(pid), StopEventView::Delivered) == (
            StopPhase::Watching { target: StopTarget::ProcessGroup(pid), left: 100 },
            StopActionView::Signal {
                pause: false,
                target: StopTarget::ProcessGroup(pid),
                signal: StopSignal::Probe,
            },
        ),
        stop_step(StopPhase::AskingGroup(pid), StopEventView::Gone(cause)).1 == (
        StopActionView::Signal {
            pause: false,
            target: StopTarget::Process(pid),
            signal: StopSignal::Term,
        }),
        stop_actions(
            StopPhase::AskingGroup(pid),
            seq![StopEventView::Gone(cause), StopEventView::Delivered],
        )[1] == (StopActionView::Signal {
            pause: false,
            target: StopTarget::Process(pid),
            signal: StopSignal::Probe,
        }),
        stop_after(
            StopPhase::AskingGroup(pid),
            seq![StopEventView::Gone(cause), StopEventView::Delivered],
        ) == (StopPhase::Watching { target: StopTarget::Process(pid), left: 100 }),
        stop_actions(
            StopPhase::AskingGroup(pid),
            seq![StopEventView::Gone(cause), StopEventView::Gone(cause)],
        )[1] == (StopActionView::Fail {
            pause: false,
            failure: seq!["failed to signal "@ + target_text(StopTarget::Process(pid))] + cause,
        }),
{
    let a = seq![StopEventView::Gone(cause), StopEventView::Delivered];
    let b = seq![StopEventView::Gone(cause), StopEventView::Gone(cause)];
    assert(a.skip(1) =~= seq![StopEventView::Delivered]);
    assert(b.skip(1) =~= seq![StopEventView::Gone(cause)]);
    assert(a.skip(1).skip(1).len() == 0);
    assert(b.skip(1).skip(1).len() == 0);
    reveal_with_fuel(stop_actions, 3);
    reveal_with_fuel(stop_after, 3);
}

/// Whether a phase is one in which a signal to this target is on its way or its effect is awaited.
pub open spec fn concerns(phase: StopPhase, target: StopTarget) -> bool {
    match phase {
        StopPhase::AskingGroup(pid) => target == StopTarget::ProcessGroup(pid),
        StopPhase::AskingProcess(pid) => target == StopTarget::Process(pid),
        StopPhase::Watching { target: t, .. } => target == t,
        StopPhase::Killing(t) => target == t,
        StopPhase::WatchingKilled { target: t, .. } => target == t,
        StopPhase::Done => false,
    }
}

/// A signal that cannot be delivered ends the stopping with a failure that names the target, says
/// whether it was signalled or looked at, and ends with the cause.
pub proof fn law_undeliverable_signal_is_reported(
    phase: StopPhase,
    target: StopTarget,
    cause: Seq<Seq<char>>,
)
    requires
        concerns(phase, target),
    ensures
        stop_step(phase, StopEventView::Failed(cause)) == (
            StopPhase::Done,
            StopActionView::Fail {
                pause: false,
                failure: seq![
                    if phase is Watching || phase is WatchingKilled {
                        "failed to check "@ + target_text(target)
                    } else {
                        "failed to signal "@ + target_text(target)
                    },
                ] + cause,
            },
        ),
{
}

/// As long as looks are left, a target that is still there is looked at again after a pause.
proof fn lemma_looks(target: StopTarget, left: u64, killed: bool, n: nat)
    requires
        n < left,
    ensures
        ({
            let phase = if killed {
                StopPhase::WatchingKilled { target, left }
            } else {
                StopPhase::Watching { target, left }
            };
            let later = (left - n) as u64;
            stop_after(phase, Seq::new(n, |i: int| StopEventView::Delivered)) == if killed {
                StopPhase::WatchingKilled { target, left: later }
            } else {
                StopPhase::Watching { target, left: later }
            }
        }),
    decreases n,
{
    let events = Seq::new(n, |i: int| StopEventView::Delivered);
    if n > 0 {
        assert(events.skip(1) =~= Seq::new((n - 1) as nat, |i: int| StopEventView::Delivered));
        lemma_looks(target, (left - 1) as u64, killed, (n - 1) as nat);
    }
}

/// A daemon that is still there at the hundredth look after the request to end is ordered to end.
pub proof fn law_stubborn_daemon_is_killed(pid: i32)
    ensures
        ({
            let phase = stop_after(
                StopPhase::AskingGroup(pid),
                Seq::new(100, |i: int| StopEventView::Delivered),
            );
            &&& stop_step(phase, StopEventView::Delivered) == (
                StopPhase::Killing(StopTarget::ProcessGroup(pid)),
                StopActionView::Signal {
                    pause: true,
                    target: StopTarget::ProcessGroup(pid),
                    signal: StopSignal::Kill,
                },
            )
        }),
{
    let target = StopTarget::ProcessGroup(pid);
    let events = Seq::new(100, |i: int| StopEventView::Delivered);
    assert(events.skip(1) =~= Seq::new(99, |i: int| StopEventView::Delivered));
    lemma_looks(target, 100, false, 99);
}

/// A target that was ordered to end is looked at a hundred times more, whether the order reached it
/// or it was gone before; one that is still there then is reported.
pub proof fn law_survivor_is_reported(target: StopTarget, gone: bool, word: Seq<Seq<char>>)
    ensures
        ({
            let fate = if gone {
                StopEventView::Gone(word)
            } else {
                StopEventView::Delivered
            };
            let phase = stop_after(
                StopPhase::Killing(target),
                seq![fate] + Seq::new(99, |i: int| StopEventView::Delivered),
            );
            &&& stop_step(StopPhase::Killing(target), fate).1 == (StopActionView::Signal {
                pause: false,
                target,
                signal: StopSignal::Probe,
            })
            &&& stop_step(phase, StopEventView::Delivered) == (
                StopPhase::Done,
                StopActionView::Fail {
                    pause: true,
                    failure: seq![target_text(target) + " did not exit after KILL"@],
                },
            )
            &&& stop_step(phase, StopEventView::Gone(word)) == (
                StopPhase::Done,
                StopActionView::Finish,
            )
        }),
{
    let fate = if gone {
        StopEventView::Gone(word)
    } else {
        StopEventView::Delivered
    };
    let looks = Seq::new(99, |i: int| StopEventView::Delivered);
    lemma_looks(target, 100, true, 99);
    assert((seq![fate] + looks).skip(1) =~= looks);
}

/// A look at a target that is still there, with looks left, leads to another look at it after a
/// pause, and to nothing else.
pub proof fn law_looks_are_repeated(target: StopTarget, left: u64)
    requires
        left > 1,
    ensures
        stop_step(StopPhase::Watching { target, left }, StopEventView::Delivered) == (
            StopPhase::Watching { target, left: (left - 1) as u64 },
            StopActionView::Signal { pause: true, target, signal: StopSignal::Probe },
        ),
        stop_step(StopPhase::WatchingKilled { target, left }, StopEventView::Delivered) == (
            StopPhase::WatchingKilled { target, left: (left - 1) as u64 },
            StopActionView::Signal { pause: true, target, signal: StopSignal::Probe },
        ),
{
}

/// Stopping begins with a request to the process group of the process that is to be stopped.
pub proof fn law_stopping_begins_with_a_request(pid: i32)
    ensures
        stop_begin(pid).0 == StopPhase::AskingGroup(pid),
        stop_begin(pid).1 matches StopActionView::Signal { pause, target, signal } && !pause
            && kill_pid_of(target) == -pid && signal == StopSignal::Term,
{
}

} // verus!
