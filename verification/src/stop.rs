//! Stopping a daemon: reading its pid file, and which signals go to which process when.

use crate::config::HostPath;
use crate::failure::{within, Failure};
use crate::text::{
    concat2, decimal, decimal_text, integer_error_text, integer_value, is_digit,
    lemma_decimal_value, lossy_text, parse_integer, quote, quoted_text, signed_decimal,
    signed_decimal_text, trim, trimmed, utf8_lossy, white_space,
};
use vstd::prelude::*;

verus! {

/// Milliseconds that a stopped daemon is given to exit after a signal.
pub const STOP_GRACE_MILLIS: u64 = 5000;

/// Milliseconds between two looks at a stopped daemon.
pub const STOP_POLL_MILLIS: u64 = 50;

/// How often a stopped daemon is looked at after a signal.
pub open spec fn stop_attempts() -> nat {
    (STOP_GRACE_MILLIS / STOP_POLL_MILLIS) as nat
}

/// Why a pid file holds no process id.
#[derive(Debug, PartialEq, Eq)]
pub enum PidError {
    /// The file holds nothing but white space.
    Empty,
    /// The file holds this text, which is no number, for this reason.
    Invalid { text: String, cause: String },
    /// The file holds a number that is no process id.
    NotPositive,
}

/// Why a pid file holds no process id, over texts.
pub enum PidErrorView {
    Empty,
    Invalid { text: Seq<char>, cause: Seq<char> },
    NotPositive,
}

impl View for PidError {
    type V = PidErrorView;

    open spec fn view(&self) -> PidErrorView {
        match *self {
            PidError::Empty => PidErrorView::Empty,
            PidError::Invalid { text, cause } => PidErrorView::Invalid {
                text: text@,
                cause: cause@,
            },
            PidError::NotPositive => PidErrorView::NotPositive,
        }
    }
}

/// The process id in the contents of a pid file.
pub open spec fn pid_in(contents: Seq<char>) -> Result<i32, PidErrorView> {
    let text = trimmed(contents);
    if text.len() == 0 {
        Err(PidErrorView::Empty)
    } else {
        match integer_value(text) {
            Some(n) => if n < i32::MIN || n > i32::MAX {
                Err(PidErrorView::Invalid { text, cause: integer_error_text(text) })
            } else if n <= 0 {
                Err(PidErrorView::NotPositive)
            } else {
                Ok(n as i32)
            },
            None => Err(PidErrorView::Invalid { text, cause: integer_error_text(text) }),
        }
    }
}

/// Parses a process id from pid file contents.
pub fn parse_pid(pid_text: &str) -> (r: Result<i32, PidError>)
    ensures
        match pid_in(pid_text@) {
            Ok(pid) => r == Ok::<i32, PidError>(pid),
            Err(e) => r is Err && r->Err_0@ == e,
        },
{
    let text = trim(pid_text);
    if text.unicode_len() == 0 {
        return Err(PidError::Empty);
    }
    match parse_integer(text) {
        Ok(n) => if n <= 0 {
            Err(PidError::NotPositive)
        } else {
            Ok(n)
        },
        Err(cause) => Err(PidError::Invalid { text: text.to_owned(), cause }),
    }
}

/// What is said of a pid file without a process id, down to the root cause.
pub open spec fn pid_failure(error: PidErrorView) -> Seq<Seq<char>> {
    match error {
        PidErrorView::Empty => seq!["pid file is empty"@],
        PidErrorView::Invalid { text, cause } => seq![
            "invalid pid file contents "@ + quoted_text(text),
            cause,
        ],
        PidErrorView::NotPositive => seq!["pid file contains invalid pid 0"@],
    }
}

impl PidError {
    /// Says why the pid file holds no process id, down to the root cause.
    pub fn failure(self) -> (r: Failure)
        ensures
            r@ == pid_failure(self@),
    {
        match self {
            PidError::Empty => Failure::plain("pid file is empty".to_owned()),
            PidError::Invalid { text, cause } => {
                let context = concat2("invalid pid file contents ", quote(text.as_str()).as_str());
                let r = Failure::plain(cause).within(context);
                assert(r@ =~= seq![context@, cause@]);
                r
            },
            PidError::NotPositive => Failure::plain("pid file contains invalid pid 0".to_owned()),
        }
    }
}

/// The contents of the pid file of a process.
pub open spec fn pid_file_contents(pid: u32) -> Seq<char> {
    decimal(pid as nat) + "\n"@
}

/// Writes the contents of the pid file of a process.
pub fn format_pid_file(pid: u32) -> (r: String)
    ensures
        r@ == pid_file_contents(pid),
{
    concat2(decimal_text(pid as u128).as_str(), "\n")
}

/// A text that neither begins nor ends with white space is not trimmed.
proof fn lemma_trim_keeps(s: Seq<char>)
    requires
        s.len() > 0,
        !white_space(s[0]),
        !white_space(s.last()),
    ensures
        trimmed(s) == s,
        trimmed(s + "\n"@) == s,
{
    reveal_strlit("\n");
    let line = s + "\n"@;
    assert(line.last() == '\n');
    assert(line.drop_last() =~= s);
}

/// The process id that a server writes into its pid file is the one that is read from it.
pub proof fn law_pid_file_round_trip(pid: u32)
    requires
        0 < pid <= i32::MAX,
    ensures
        pid_in(pid_file_contents(pid)) == Ok::<i32, PidErrorView>(pid as i32),
{
    let s = decimal(pid as nat);
    lemma_decimal_value(pid as nat);
    assert(is_digit(s[0]) && is_digit(s.last()));
    lemma_trim_keeps(s);
}

/// Process target selected for stop signals.
#[derive(Clone, Copy, Debug, PartialEq, Eq, Structural)]
pub enum StopTarget {
    /// The daemon process group, rooted at the daemon pid.
    ProcessGroup(i32),
    /// Only the daemon process id from the pid file.
    Process(i32),
}

/// The name of a target in messages.
pub open spec fn target_text(target: StopTarget) -> Seq<char> {
    match target {
        StopTarget::ProcessGroup(pid) => "process group "@ + signed_decimal(pid as int),
        StopTarget::Process(pid) => "process "@ + signed_decimal(pid as int),
    }
}

/// The process id by which `kill` knows a target: a group goes by the negative one.
pub open spec fn kill_pid_of(target: StopTarget) -> int {
    match target {
        StopTarget::ProcessGroup(pid) => -pid,
        StopTarget::Process(pid) => pid as int,
    }
}

impl StopTarget {
    /// The name of this target in messages.
    pub fn text(&self) -> (r: String)
        ensures
            r@ == target_text(*self),
    {
        match *self {
            StopTarget::ProcessGroup(pid) => concat2(
                "process group ",
                signed_decimal_text(pid as i64).as_str(),
            ),
            StopTarget::Process(pid) => concat2(
                "process ",
                signed_decimal_text(pid as i64).as_str(),
            ),
        }
    }

    /// The process id by which `kill` knows this target.
    pub fn kill_pid(&self) -> (r: i32)
        requires
            *self matches StopTarget::ProcessGroup(pid) ==> pid > i32::MIN,
        ensures
            r == kill_pid_of(*self),
    {
        match *self {
            StopTarget::ProcessGroup(pid) => -pid,
            StopTarget::Process(pid) => pid,
        }
    }
}

/// A signal for a daemon.
#[derive(Clone, Copy, Debug, PartialEq, Eq, Structural)]
pub enum StopSignal {
    /// The request to end.
    Term,
    /// The order to end.
    Kill,
    /// No signal: only whether the target exists is asked.
    Probe,
}

/// What became of a signal.
#[derive(Debug, PartialEq, Eq)]
pub enum StopEvent {
    /// The signal was delivered.
    Delivered,
    /// There is no such target; this is the system's word for it.
    Gone(Failure),
    /// The signal could not be delivered, for this reason.
    Failed(Failure),
}

/// What became of a signal, over texts.
pub enum StopEventView {
    Delivered,
    Gone(Seq<Seq<char>>),
    Failed(Seq<Seq<char>>),
}

impl View for StopEvent {
    type V = StopEventView;

    open spec fn view(&self) -> StopEventView {
        match *self {
            StopEvent::Delivered => StopEventView::Delivered,
            StopEvent::Gone(cause) => StopEventView::Gone(cause@),
            StopEvent::Failed(cause) => StopEventView::Failed(cause@),
        }
    }
}

/// What is done to stop a daemon.
#[derive(Debug, PartialEq, Eq)]
pub enum StopAction {
    /// Pause where `pause` is set, then signal the target.
    Signal { pause: bool, target: StopTarget, signal: StopSignal },
    /// Remove the pid file and report success.
    Finish,
    /// Pause where `pause` is set, then report this failure.
    Fail { pause: bool, failure: Failure },
    /// Do nothing: the daemon was dealt with before.
    Rest,
}

/// What is done to stop a daemon, over texts.
pub enum StopActionView {
    Signal { pause: bool, target: StopTarget, signal: StopSignal },
    Finish,
    Fail { pause: bool, failure: Seq<Seq<char>> },
    Rest,
}

impl View for StopAction {
    type V = StopActionView;

    open spec fn view(&self) -> StopActionView {
        match *self {
            StopAction::Signal { pause, target, signal } => StopActionView::Signal {
                pause,
                target,
                signal,
            },
            StopAction::Finish => StopActionView::Finish,
            StopAction::Fail { pause, failure } => StopActionView::Fail {
                pause,
                failure: failure@,
            },
            StopAction::Rest => StopActionView::Rest,
        }
    }
}

/// How far stopping a daemon has come.
#[derive(Clone, Copy, Debug, PartialEq, Eq, Structural)]
pub enum StopPhase {
    /// The process group of this process was asked to end.
    AskingGroup(i32),
    /// There is no such group; this process was asked to end.
    AskingProcess(i32),
    /// The target was asked to end, and is looked at; so many looks are left.
    Watching { target: StopTarget, left: u64 },
    /// The target did not end in time and was made to.
    Killing(StopTarget),
    /// The target was made to end, and is looked at; so many looks are left.
    WatchingKilled { target: StopTarget, left: u64 },
    /// Nothing is left to do.
    Done,
}

/// What a failure leads to.
pub open spec fn stop_failed(context: Seq<char>, cause: Seq<Seq<char>>) -> (
    StopPhase,
    StopActionView,
) {
    (StopPhase::Done, StopActionView::Fail { pause: false, failure: within(context, cause) })
}

/// A look at a target.
pub open spec fn probe(target: StopTarget, pause: bool) -> StopActionView {
    StopActionView::Signal { pause, target, signal: StopSignal::Probe }
}

/// What a signal's fate leads to.
pub open spec fn stop_step(phase: StopPhase, event: StopEventView) -> (StopPhase, StopActionView) {
    match phase {
        StopPhase::AskingGroup(pid) => match event {
            StopEventView::Delivered => (
                StopPhase::Watching {
                    target: StopTarget::ProcessGroup(pid),
                    left: stop_attempts() as u64,
                },
                probe(StopTarget::ProcessGroup(pid), false),
            ),
            StopEventView::Gone(_) => (
                StopPhase::AskingProcess(pid),
                StopActionView::Signal {
                    pause: false,
                    target: StopTarget::Process(pid),
                    signal: StopSignal::Term,
                },
            ),
            StopEventView::Failed(cause) => stop_failed(
                "failed to signal "@ + target_text(StopTarget::ProcessGroup(pid)),
                cause,
            ),
        },
        StopPhase::AskingProcess(pid) => match event {
            StopEventView::Delivered => (
                StopPhase::Watching {
                    target: StopTarget::Process(pid),
                    left: stop_attempts() as u64,
                },
                probe(StopTarget::Process(pid), false),
            ),
            StopEventView::Gone(cause) | StopEventView::Failed(cause) => stop_failed(
                "failed to signal "@ + target_text(StopTarget::Process(pid)),
                cause,
            ),
        },
        StopPhase::Watching { target, left } => match event {
            StopEventView::Delivered => if left > 1 {
                (
                    StopPhase::Watching { target, left: (left - 1) as u64 },
                    probe(target, true),
                )
            } else {
                (
                    StopPhase::Killing(target),
                    StopActionView::Signal { pause: true, target, signal: StopSignal::Kill },
                )
            },
            StopEventView::Gone(_) => (StopPhase::Done, StopActionView::Finish),
            StopEventView::Failed(cause) => stop_failed(
                "failed to check "@ + target_text(target),
                cause,
            ),
        },
        StopPhase::Killing(target) => match event {
            StopEventView::Delivered | StopEventView::Gone(_) => (
                StopPhase::WatchingKilled { target, left: stop_attempts() as u64 },
                probe(target, false),
            ),
            StopEventView::Failed(cause) => stop_failed(
                "failed to signal "@ + target_text(target),
                cause,
            ),
        },
        StopPhase::WatchingKilled { target, left } => match event {
            StopEventView::Delivered => if left > 1 {
                (
                    StopPhase::WatchingKilled { target, left: (left - 1) as u64 },
                    probe(target, true),
                )
            } else {
                (
                    StopPhase::Done,
                    StopActionView::Fail {
                        pause: true,
                        failure: seq![target_text(target) + " did not exit after KILL"@],
                    },
                )
            },
            StopEventView::Gone(_) => (StopPhase::Done, StopActionView::Finish),
            StopEventView::Failed(cause) => stop_failed(
                "failed to check "@ + target_text(target),
                cause,
            ),
        },
        StopPhase::Done => (StopPhase::Done, StopActionView::Rest),
    }
}

/// Gives a failure.
fn fail_stop(context: &str, target: StopTarget, cause: Failure) -> (r: (StopPhase, StopAction))
    ensures
        (r.0, r.1@) == stop_failed(context@ + target_text(target), cause@),
{
    (
        StopPhase::Done,
        StopAction::Fail {
            pause: false,
            failure: cause.within(concat2(context, target.text().as_str())),
        },
    )
}

/// How often a stopped daemon is looked at after a signal.
fn attempts() -> (r: u64)
    ensures
        r == stop_attempts(),
{
    STOP_GRACE_MILLIS / STOP_POLL_MILLIS
}

/// The state of stopping a daemon.
#[derive(Clone, Copy, Debug, PartialEq, Eq, Structural)]
pub struct Stop {
    /// How far stopping has come.
    pub phase: StopPhase,
}

/// What a pid file that was read, or could not be, leads to: the process to stop, or the failure.
pub open spec fn process_to_stop(path: Seq<u8>, read: Result<Seq<char>, Seq<Seq<char>>>) -> Result<
    i32,
    Seq<Seq<char>>,
> {
    match read {
        Err(cause) => Err(within("failed to read pid file "@ + lossy_text(path), cause)),
        Ok(contents) => match pid_in(contents) {
            Ok(pid) => Ok(pid),
            Err(e) => Err(pid_failure(e)),
        },
    }
}

/// Takes the process to stop out of a pid file that was read, or could not be.
pub fn find_process_to_stop(path: &HostPath, read: Result<String, Failure>) -> (r: Result<
    i32,
    Failure,
>)
    ensures
        match process_to_stop(
            path@,
            match read {
                Ok(contents) => Ok(contents@),
                Err(cause) => Err(cause@),
            },
        ) {
            Ok(pid) => r == Ok::<i32, Failure>(pid) && pid > 0,
            Err(failure) => r is Err && r->Err_0@ == failure,
        },
{
    match read {
        Err(cause) => Err(
            cause.within(
                concat2("failed to read pid file ", utf8_lossy(path.bytes.as_slice()).as_str()),
            ),
        ),
        Ok(contents) => match parse_pid(contents.as_str()) {
            Ok(pid) => Ok(pid),
            Err(e) => Err(e.failure()),
        },
    }
}

/// The first phase and the first action.
pub open spec fn stop_begin(pid: i32) -> (StopPhase, StopActionView) {
    (
        StopPhase::AskingGroup(pid),
        StopActionView::Signal {
            pause: false,
            target: StopTarget::ProcessGroup(pid),
            signal: StopSignal::Term,
        },
    )
}

impl Stop {
    /// Begins to stop the daemon with this process id, and says what to do.
    pub fn begin(pid: i32) -> (r: (Stop, StopAction))
        ensures
            r.0.phase == StopPhase::AskingGroup(pid),
            r.1@ == (StopActionView::Signal {
                pause: false,
                target: StopTarget::ProcessGroup(pid),
                signal: StopSignal::Term,
            }),
            (r.0.phase, r.1@) == stop_begin(pid),
    {
        (
            Stop { phase: StopPhase::AskingGroup(pid) },
            StopAction::Signal {
                pause: false,
                target: StopTarget::ProcessGroup(pid),
                signal: StopSignal::Term,
            },
        )
    }

    /// Takes what became of the signal and says what to do.
    pub fn step(&mut self, event: StopEvent) -> (action: StopAction)
        ensures
            (final(self).phase, action@) == stop_step(old(self).phase, event@),
    {
        let (phase, action) = match self.phase {
            StopPhase::AskingGroup(pid) => match event {
                StopEvent::Delivered => {
                    let target = StopTarget::ProcessGroup(pid);
                    (
                        StopPhase::Watching { target, left: attempts() },
                        StopAction::Signal { pause: false, target, signal: StopSignal::Probe },
                    )
                },
                StopEvent::Gone(_) => (
                    StopPhase::AskingProcess(pid),
                    StopAction::Signal {
                        pause: false,
                        target: StopTarget::Process(pid),
                        signal: StopSignal::Term,
                    },
                ),
                StopEvent::Failed(cause) => fail_stop(
                    "failed to signal ",
                    StopTarget::ProcessGroup(pid),
                    cause,
                ),
            },
            StopPhase::AskingProcess(pid) => match event {
                StopEvent::Delivered => {
                    let target = StopTarget::Process(pid);
                    (
                        StopPhase::Watching { target, left: attempts() },
                        StopAction::Signal { pause: false, target, signal: StopSignal::Probe },
                    )
                },
                StopEvent::Gone(cause) | StopEvent::Failed(cause) => fail_stop(
                    "failed to signal ",
                    StopTarget::Process(pid),
                    cause,
                ),
            },
            StopPhase::Watching { target, left } => match event {
                StopEvent::Delivered => if left > 1 {
                    (
                        StopPhase::Watching { target, left: left - 1 },
                        StopAction::Signal { pause: true, target, signal: StopSignal::Probe },
                    )
                } else {
                    (
                        StopPhase::Killing(target),
                        StopAction::Signal { pause: true, target, signal: StopSignal::Kill },
                    )
                },
                StopEvent::Gone(_) => (StopPhase::Done, StopAction::Finish),
                StopEvent::Failed(cause) => fail_stop("failed to check ", target, cause),
            },
            StopPhase::Killing(target) => match event {
                StopEvent::Delivered | StopEvent::Gone(_) => (
                    StopPhase::WatchingKilled { target, left: attempts() },
                    StopAction::Signal { pause: false, target, signal: StopSignal::Probe },
                ),
                StopEvent::Failed(cause) => fail_stop("failed to signal ", target, cause),
            },
            StopPhase::WatchingKilled { target, left } => match event {
                StopEvent::Delivered => if left > 1 {
                    (
                        StopPhase::WatchingKilled { target, left: left - 1 },
                        StopAction::Signal { pause: true, target, signal: StopSignal::Probe },
                    )
                } else {
                    (
                        StopPhase::Done,
                        StopAction::Fail {
                            pause: true,
                            failure: Failure::plain(
                                concat2(target.text().as_str(), " did not exit after KILL"),
                            ),
                        },
                    )
                },
                StopEvent::Gone(_) => (StopPhase::Done, StopAction::Finish),
                StopEvent::Failed(cause) => fail_stop("failed to check ", target, cause),
            },
            StopPhase::Done => (StopPhase::Done, StopAction::Rest),
        };
        self.phase = phase;
        action
    }
}

} // verus!
