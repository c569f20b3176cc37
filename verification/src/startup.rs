//! Starting the server in this process: which step follows which, what each failure is called, and
//! what the launcher is told.

use crate::config::HostPath;
use crate::daemon::{
    format_ready_error, law_startup_error_reaches_launcher, ready_error_contents, start_verdict,
    ReadyFileView, StartVerdictView,
};
use crate::failure::{failure_text, within, Failure};
use crate::ssh::{serve_end_of, serve_outcome, ServeEnd, ServeEndView};
use crate::text::{concat2, lossy_text, trimmed_end, utf8_lossy};
use vstd::prelude::*;

verus! {

/// How far starting the server has come.
#[derive(Clone, Copy, Debug, PartialEq, Eq, Structural)]
pub enum StartupPhase {
    /// The log file is being prepared.
    PreparingLog,
    /// The address is being read.
    Resolving,
    /// The address is being bound.
    Binding,
    /// The directory of the pid file is being created.
    CreatingPidDirectory,
    /// The pid file is being written.
    WritingPid,
    /// The port forward is being started.
    Forwarding,
    /// The readiness file is being written.
    Readying,
    /// Connections are served.
    Serving,
    /// Nothing is left to do.
    Done,
}

/// What starting the server is told.
#[derive(Debug, PartialEq, Eq)]
pub enum StartupEvent {
    /// The step succeeded.
    Succeeded,
    /// The step failed, for this reason.
    Failed(Failure),
    /// The address was read; this is how it is shown.
    Resolved(String),
    /// Serving came to an end.
    Ended(ServeEnd),
}

/// What starting the server is told, over texts.
pub enum StartupEventView {
    Succeeded,
    Failed(Seq<Seq<char>>),
    Resolved(Seq<char>),
    Ended(ServeEndView),
}

impl View for StartupEvent {
    type V = StartupEventView;

    open spec fn view(&self) -> StartupEventView {
        match *self {
            StartupEvent::Succeeded => StartupEventView::Succeeded,
            StartupEvent::Failed(cause) => StartupEventView::Failed(cause@),
            StartupEvent::Resolved(address) => StartupEventView::Resolved(address@),
            StartupEvent::Ended(end) => StartupEventView::Ended(end@),
        }
    }
}

/// What is done to start the server.
#[derive(Debug, PartialEq, Eq)]
pub enum StartupAction {
    /// Prepare the log file.
    PrepareLog,
    /// Read the address.
    Resolve,
    /// Bind the address.
    Bind,
    /// Create the directory of the pid file.
    CreatePidDirectory,
    /// Write the pid file.
    WritePid,
    /// Start the port forward.
    Forward,
    /// Write into the readiness file that the server is up.
    Ready,
    /// Serve connections.
    Serve,
    /// Report success.
    Finish,
    /// Report this failure, and write `report` into the readiness file where there is one.
    Fail { failure: Failure, report: Option<String> },
    /// Do nothing.
    Rest,
}

/// What is done to start the server, over texts.
pub enum StartupActionView {
    PrepareLog,
    Resolve,
    Bind,
    CreatePidDirectory,
    WritePid,
    Forward,
    Ready,
    Serve,
    Finish,
    Fail { failure: Seq<Seq<char>>, report: Option<Seq<char>> },
    Rest,
}

impl View for StartupAction {
    type V = StartupActionView;

    open spec fn view(&self) -> StartupActionView {
        match *self {
            StartupAction::PrepareLog => StartupActionView::PrepareLog,
            StartupAction::Resolve => StartupActionView::Resolve,
            StartupAction::Bind => StartupActionView::Bind,
            StartupAction::CreatePidDirectory => StartupActionView::CreatePidDirectory,
            StartupAction::WritePid => StartupActionView::WritePid,
            StartupAction::Forward => StartupActionView::Forward,
            StartupAction::Ready => StartupActionView::Ready,
            StartupAction::Serve => StartupActionView::Serve,
            StartupAction::Finish => StartupActionView::Finish,
            StartupAction::Fail { failure, report } => StartupActionView::Fail {
                failure: failure@,
                report: match report {
                    Some(report) => Some(report@),
                    None => None,
                },
            },
            StartupAction::Rest => StartupActionView::Rest,
        }
    }
}

/// The state of starting the server.
#[derive(Debug, PartialEq, Eq)]
pub struct Startup {
    /// How far starting has come.
    pub phase: StartupPhase,
    /// The log file, if any.
    pub log_file: Option<HostPath>,
    /// The pid file.
    pub pid_file: HostPath,
    /// The address as it is shown, once it was read.
    pub address: String,
    /// The command line of the port forward as it is shown, if there is one.
    pub forward: Option<String>,
    /// The readiness file, if any.
    pub ready_file: Option<HostPath>,
}

/// The state of starting the server over texts and byte sequences.
pub struct StartupView {
    pub phase: StartupPhase,
    pub log_file: Option<Seq<u8>>,
    pub pid_file: Seq<u8>,
    pub address: Seq<char>,
    pub forward: Option<Seq<char>>,
    pub ready_file: Option<Seq<u8>>,
}

impl View for Startup {
    type V = StartupView;

    open spec fn view(&self) -> StartupView {
        StartupView {
            phase: self.phase,
            log_file: match self.log_file {
                Some(path) => Some(path@),
                None => None,
            },
            pid_file: self.pid_file@,
            address: self.address@,
            forward: match self.forward {
                Some(line) => Some(line@),
                None => None,
            },
            ready_file: match self.ready_file {
                Some(path) => Some(path@),
                None => None,
            },
        }
    }
}

/// The state `s` in another phase.
pub open spec fn moved(s: StartupView, phase: StartupPhase) -> StartupView {
    StartupView { phase, ..s }
}

/// What a failure leads to: whoever waits for the server is told of it.
pub open spec fn startup_failed(s: StartupView, failure: Seq<Seq<char>>) -> (
    StartupView,
    StartupActionView,
) {
    (
        moved(s, StartupPhase::Done),
        StartupActionView::Fail {
            failure,
            report: match s.ready_file {
                Some(_) => Some(ready_error_contents(failure_text(failure))),
                None => None,
            },
        },
    )
}

/// What follows once the port forward is up, or is not wanted.
pub open spec fn after_forward(s: StartupView) -> (StartupView, StartupActionView) {
    match s.ready_file {
        Some(_) => (moved(s, StartupPhase::Readying), StartupActionView::Ready),
        None => (moved(s, StartupPhase::Serving), StartupActionView::Serve),
    }
}

/// What follows once the pid file is written.
pub open spec fn after_pid_file(s: StartupView) -> (StartupView, StartupActionView) {
    match s.forward {
        Some(_) => (moved(s, StartupPhase::Forwarding), StartupActionView::Forward),
        None => after_forward(s),
    }
}

/// What is being done in a phase, for a failure of it.
pub open spec fn phase_text(s: StartupView) -> Seq<char> {
    match s.phase {
        StartupPhase::PreparingLog => "failed to prepare log file "@ + match s.log_file {
            Some(path) => lossy_text(path),
            None => ""@,
        },
        StartupPhase::Resolving => "invalid host or port"@,
        StartupPhase::Binding => "failed to bind "@ + s.address,
        StartupPhase::CreatingPidDirectory => "failed to create pid file directory "@ + lossy_text(
            s.pid_file,
        ),
        StartupPhase::WritingPid => "failed to write pid file "@ + lossy_text(s.pid_file),
        StartupPhase::Forwarding => "failed to start ssh forward: "@ + match s.forward {
            Some(line) => line,
            None => ""@,
        },
        StartupPhase::Readying => "failed to write daemon readiness file "@ + match s.ready_file {
            Some(path) => lossy_text(path),
            None => ""@,
        },
        StartupPhase::Serving | StartupPhase::Done => ""@,
    }
}

/// What an event leads to. An event that does not belong to the phase changes nothing.
pub open spec fn startup_step(s: StartupView, event: StartupEventView) -> (
    StartupView,
    StartupActionView,
) {
    match (s.phase, event) {
        (StartupPhase::Serving, StartupEventView::Ended(end)) => match serve_end_of(end) {
            Ok(_) => (moved(s, StartupPhase::Done), StartupActionView::Finish),
            Err(failure) => startup_failed(s, failure),
        },
        (StartupPhase::Serving, _) => (s, StartupActionView::Rest),
        (StartupPhase::Done, _) => (s, StartupActionView::Rest),
        (_, StartupEventView::Failed(cause)) => startup_failed(
            s,
            within(phase_text(s), cause),
        ),
        (StartupPhase::PreparingLog, StartupEventView::Succeeded) => (
            moved(s, StartupPhase::Resolving),
            StartupActionView::Resolve,
        ),
        (StartupPhase::Resolving, StartupEventView::Resolved(address)) => (
            StartupView { phase: StartupPhase::Binding, address, ..s },
            StartupActionView::Bind,
        ),
        (StartupPhase::Binding, StartupEventView::Succeeded) => (
            moved(s, StartupPhase::CreatingPidDirectory),
            StartupActionView::CreatePidDirectory,
        ),
        (StartupPhase::CreatingPidDirectory, StartupEventView::Succeeded) => (
            moved(s, StartupPhase::WritingPid),
            StartupActionView::WritePid,
        ),
        (StartupPhase::WritingPid, StartupEventView::Succeeded) => after_pid_file(s),
        (StartupPhase::Forwarding, StartupEventView::Succeeded) => after_forward(s),
        (StartupPhase::Readying, StartupEventView::Succeeded) => (
            moved(s, StartupPhase::Serving),
            StartupActionView::Serve,
        ),
        _ => (s, StartupActionView::Rest),
    }
}

/// The first state and the first action.
pub open spec fn startup_begin(
    log_file: Option<Seq<u8>>,
    pid_file: Seq<u8>,
    forward: Option<Seq<char>>,
    ready_file: Option<Seq<u8>>,
) -> (StartupView, StartupActionView) {
    let s = StartupView {
        phase: StartupPhase::Resolving,
        log_file,
        pid_file,
        address: ""@,
        forward,
        ready_file,
    };
    match log_file {
        Some(_) => (moved(s, StartupPhase::PreparingLog), StartupActionView::PrepareLog),
        None => (s, StartupActionView::Resolve),
    }
}

/// Says what a server that failed before its first step writes into its readiness file.
pub fn failure_report(ready_file: Option<&HostPath>, text: &str) -> (r: Option<String>)
    ensures
        match ready_file {
            Some(_) => r is Some && r->Some_0@ == ready_error_contents(text@),
            None => r is None,
        },
{
    match ready_file {
        Some(_) => Some(format_ready_error(text)),
        None => None,
    }
}

/// A failure's first words with the path that it is about.
fn about_path(words: &str, path: &HostPath) -> (r: String)
    ensures
        r@ == words@ + lossy_text(path@),
{
    concat2(words, utf8_lossy(path.bytes.as_slice()).as_str())
}

impl Startup {
    /// Begins to start the server, and says what to do.
    pub fn begin(
        log_file: Option<HostPath>,
        pid_file: HostPath,
        forward: Option<String>,
        ready_file: Option<HostPath>,
    ) -> (r: (Startup, StartupAction))
        ensures
            (r.0@, r.1@) == startup_begin(
                match log_file {
                    Some(path) => Some(path@),
                    None => None,
                },
                pid_file@,
                match forward {
                    Some(line) => Some(line@),
                    None => None,
                },
                match ready_file {
                    Some(path) => Some(path@),
                    None => None,
                },
            ),
    {
        let (phase, action) = match &log_file {
            Some(_) => (StartupPhase::PreparingLog, StartupAction::PrepareLog),
            None => (StartupPhase::Resolving, StartupAction::Resolve),
        };
        (
            Startup { phase, log_file, pid_file, address: "".to_owned(), forward, ready_file },
            action,
        )
    }

    /// Says what is being done.
    fn doing(&self) -> (r: String)
        ensures
            r@ == phase_text(self@),
    {
        match self.phase {
            StartupPhase::PreparingLog => match &self.log_file {
                Some(path) => about_path("failed to prepare log file ", path),
                None => concat2("failed to prepare log file ", ""),
            },
            StartupPhase::Resolving => "invalid host or port".to_owned(),
            StartupPhase::Binding => concat2("failed to bind ", self.address.as_str()),
            StartupPhase::CreatingPidDirectory => about_path(
                "failed to create pid file directory ",
                &self.pid_file,
            ),
            StartupPhase::WritingPid => about_path("failed to write pid file ", &self.pid_file),
            StartupPhase::Forwarding => match &self.forward {
                Some(line) => concat2("failed to start ssh forward: ", line.as_str()),
                None => concat2("failed to start ssh forward: ", ""),
            },
            StartupPhase::Readying => match &self.ready_file {
                Some(path) => about_path("failed to write daemon readiness file ", path),
                None => concat2("failed to write daemon readiness file ", ""),
            },
            StartupPhase::Serving | StartupPhase::Done => "".to_owned(),
        }
    }

    /// Ends with a failure.
    fn fail(&mut self, failure: Failure) -> (action: StartupAction)
        ensures
            (final(self)@, action@) == startup_failed(old(self)@, failure@),
    {
        let report = failure_report(self.ready_file.as_ref(), failure.text().as_str());
        self.phase = StartupPhase::Done;
        StartupAction::Fail { failure, report }
    }

    /// Goes on once the port forward is up, or is not wanted.
    fn go_on(&mut self) -> (action: StartupAction)
        ensures
            (final(self)@, action@) == after_forward(old(self)@),
    {
        if self.ready_file.is_some() {
            self.phase = StartupPhase::Readying;
            StartupAction::Ready
        } else {
            self.phase = StartupPhase::Serving;
            StartupAction::Serve
        }
    }

    /// Takes an event and says what to do.
    pub fn step(&mut self, event: StartupEvent) -> (action: StartupAction)
        ensures
            (final(self)@, action@) == startup_step(old(self)@, event@),
    {
        match (self.phase, event) {
            (StartupPhase::Serving, StartupEvent::Ended(end)) => match serve_outcome(end) {
                Ok(_) => {
                    self.phase = StartupPhase::Done;
                    StartupAction::Finish
                },
                Err(failure) => self.fail(failure),
            },
            (StartupPhase::Serving, _) => StartupAction::Rest,
            (StartupPhase::Done, _) => StartupAction::Rest,
            (_, StartupEvent::Failed(cause)) => {
                let failure = cause.within(self.doing());
                self.fail(failure)
            },
            (StartupPhase::PreparingLog, StartupEvent::Succeeded) => {
                self.phase = StartupPhase::Resolving;
                StartupAction::Resolve
            },
            (StartupPhase::Resolving, StartupEvent::Resolved(address)) => {
                self.phase = StartupPhase::Binding;
                self.address = address;
                StartupAction::Bind
            },
            (StartupPhase::Binding, StartupEvent::Succeeded) => {
                self.phase = StartupPhase::CreatingPidDirectory;
                StartupAction::CreatePidDirectory
            },
            (StartupPhase::CreatingPidDirectory, StartupEvent::Succeeded) => {
                self.phase = StartupPhase::WritingPid;
                StartupAction::WritePid
            },
            (StartupPhase::WritingPid, StartupEvent::Succeeded) => if self.forward.is_some() {
                self.phase = StartupPhase::Forwarding;
                StartupAction::Forward
            } else {
                self.go_on()
            },
            (StartupPhase::Forwarding, StartupEvent::Succeeded) => self.go_on(),
            (StartupPhase::Readying, StartupEvent::Succeeded) => {
                self.phase = StartupPhase::Serving;
                StartupAction::Serve
            },
            _ => StartupAction::Rest,
        }
    }
}

/// The place of a phase in the order of the steps.
pub open spec fn phase_rank(phase: StartupPhase) -> nat {
    match phase {
        StartupPhase::PreparingLog => 0,
        StartupPhase::Resolving => 1,
        StartupPhase::Binding => 2,
        StartupPhase::CreatingPidDirectory => 3,
        StartupPhase::WritingPid => 4,
        StartupPhase::Forwarding => 5,
        StartupPhase::Readying => 6,
        StartupPhase::Serving => 7,
        StartupPhase::Done => 8,
    }
}

/// The place of an action in the order of the steps.
pub open spec fn action_rank(action: StartupActionView) -> nat {
    match action {
        StartupActionView::PrepareLog => 0,
        StartupActionView::Resolve => 1,
        StartupActionView::Bind => 2,
        StartupActionView::CreatePidDirectory => 3,
        StartupActionView::WritePid => 4,
        StartupActionView::Forward => 5,
        StartupActionView::Ready => 6,
        StartupActionView::Serve => 7,
        StartupActionView::Finish | StartupActionView::Fail { .. } => 8,
        StartupActionView::Rest => 0,
    }
}

/// The actions that a course of events leads to.
pub open spec fn startup_actions(s: StartupView, events: Seq<StartupEventView>) -> Seq<
    StartupActionView,
>
    decreases events.len(),
{
    if events.len() == 0 {
        Seq::empty()
    } else {
        let (next, action) = startup_step(s, events[0]);
        seq![action] + startup_actions(next, events.skip(1))
    }
}

/// Every action comes later in the order than the phase in which its course began.
proof fn lemma_actions_are_ahead(s: StartupView, events: Seq<StartupEventView>, i: int)
    requires
        0 <= i < startup_actions(s, events).len(),
        !(startup_actions(s, events)[i] is Rest),
    ensures
        action_rank(startup_actions(s, events)[i]) > phase_rank(s.phase),
    decreases events.len(),
{
    let next = startup_step(s, events[0]).0;
    let rest = startup_actions(next, events.skip(1));
    assert(startup_actions(s, events) =~= seq![startup_step(s, events[0]).1] + rest);
    if i > 0 {
        assert(startup_actions(s, events)[i] == rest[i - 1]);
        lemma_actions_are_ahead(next, events.skip(1), i - 1);
    }
}

/// Whatever happens, the steps of starting a server are taken in their order, and none of them
/// twice.
pub proof fn law_steps_come_in_order(
    s: StartupView,
    events: Seq<StartupEventView>,
    i: int,
    j: int,
)
    requires
        0 <= i < j < startup_actions(s, events).len(),
        !(startup_actions(s, events)[i] is Rest),
        !(startup_actions(s, events)[j] is Rest),
    ensures
        action_rank(startup_actions(s, events)[i]) < action_rank(startup_actions(s, events)[j]),
    decreases events.len(),
{
    let next = startup_step(s, events[0]).0;
    let action = startup_step(s, events[0]).1;
    let rest = startup_actions(next, events.skip(1));
    assert(startup_actions(s, events) =~= seq![action] + rest);
    assert(startup_actions(s, events)[j] == rest[j - 1]);
    if i == 0 {
        lemma_actions_are_ahead(next, events.skip(1), j - 1);
        assert(action_rank(action) == phase_rank(next.phase));
    } else {
        assert(startup_actions(s, events)[i] == rest[i - 1]);
        law_steps_come_in_order(next, events.skip(1), i - 1, j - 1);
    }
}

/// None of the first steps is left out.
proof fn lemma_no_step_left_out(s: StartupView, events: Seq<StartupEventView>, k: nat, j: int)
    requires
        phase_rank(s.phase) < k <= 4,
        0 <= j < startup_actions(s, events).len(),
        k < action_rank(startup_actions(s, events)[j]) < 8,
    ensures
        exists|i: int|
            0 <= i < j && action_rank(#[trigger] startup_actions(s, events)[i]) == k,
    decreases events.len(),
{
    let next = startup_step(s, events[0]).0;
    let action = startup_step(s, events[0]).1;
    let rest = startup_actions(next, events.skip(1));
    let actions = startup_actions(s, events);
    assert(actions =~= seq![action] + rest);
    assert(j > 0);
    assert(actions[j] == rest[j - 1]);
    if phase_rank(next.phase) == k {
        assert(action_rank(actions[0]) == k);
    } else if next.phase == StartupPhase::Done {
        lemma_actions_are_ahead(next, events.skip(1), j - 1);
    } else {
        lemma_no_step_left_out(next, events.skip(1), k, j - 1);
        let i = choose|i: int| 0 <= i < j - 1 && action_rank(#[trigger] rest[i]) == k;
        assert(actions[i + 1] == rest[i]);
    }
}

/// A server writes its pid file only after it was told to bind its address.
pub proof fn law_bound_before_pid_file(s: StartupView, events: Seq<StartupEventView>, j: int)
    requires
        s.phase == StartupPhase::PreparingLog || s.phase == StartupPhase::Resolving,
        0 <= j < startup_actions(s, events).len(),
        startup_actions(s, events)[j] is WritePid,
    ensures
        exists|i: int| 0 <= i < j && (#[trigger] startup_actions(s, events)[i]) is Bind,
{
    lemma_no_step_left_out(s, events, 2, j);
    let i = choose|i: int|
        0 <= i < j && action_rank(#[trigger] startup_actions(s, events)[i]) == 2;
    assert(startup_actions(s, events)[i] is Bind);
}

/// A server reports that it is up, and serves, only after it was told to write its pid file.
pub proof fn law_pid_file_before_ready(s: StartupView, events: Seq<StartupEventView>, j: int)
    requires
        s.phase == StartupPhase::PreparingLog || s.phase == StartupPhase::Resolving,
        0 <= j < startup_actions(s, events).len(),
        startup_actions(s, events)[j] is Ready || startup_actions(s, events)[j] is Serve,
    ensures
        exists|i: int| 0 <= i < j && (#[trigger] startup_actions(s, events)[i]) is WritePid,
{
    lemma_no_step_left_out(s, events, 4, j);
    let i = choose|i: int|
        0 <= i < j && action_rank(#[trigger] startup_actions(s, events)[i]) == 4;
    assert(startup_actions(s, events)[i] is WritePid);
}

/// Where all goes well, a server with a port forward and a launcher takes every step.
pub proof fn law_full_startup(s: StartupView, address: Seq<char>)
    requires
        s.phase == StartupPhase::PreparingLog,
        s.forward is Some,
        s.ready_file is Some,
    ensures
        startup_actions(
            s,
            seq![
                StartupEventView::Succeeded,
                StartupEventView::Resolved(address),
                StartupEventView::Succeeded,
                StartupEventView::Succeeded,
                StartupEventView::Succeeded,
                StartupEventView::Succeeded,
                StartupEventView::Succeeded,
            ],
        ) == seq![
            StartupActionView::Resolve,
            StartupActionView::Bind,
            StartupActionView::CreatePidDirectory,
            StartupActionView::WritePid,
            StartupActionView::Forward,
            StartupActionView::Ready,
            StartupActionView::Serve,
        ],
{
    let e0 = seq![
        StartupEventView::Succeeded,
        StartupEventView::Resolved(address),
        StartupEventView::Succeeded,
        StartupEventView::Succeeded,
        StartupEventView::Succeeded,
        StartupEventView::Succeeded,
        StartupEventView::Succeeded,
    ];
    let s1 = moved(s, StartupPhase::Resolving);
    let s2 = StartupView { phase: StartupPhase::Binding, address, ..s1 };
    let s3 = moved(s2, StartupPhase::CreatingPidDirectory);
    let s4 = moved(s2, StartupPhase::WritingPid);
    let s5 = moved(s2, StartupPhase::Forwarding);
    let s6 = moved(s2, StartupPhase::Readying);
    let s7 = moved(s2, StartupPhase::Serving);
    let e1 = e0.skip(1);
    let e2 = e1.skip(1);
    let e3 = e2.skip(1);
    let e4 = e3.skip(1);
    let e5 = e4.skip(1);
    let e6 = e5.skip(1);
    let e7 = e6.skip(1);
    assert(startup_actions(s7, e7) =~= Seq::empty());
    assert(startup_actions(s6, e6) =~= seq![StartupActionView::Serve]);
    assert(startup_actions(s5, e5) =~= seq![StartupActionView::Ready, StartupActionView::Serve]);
    assert(startup_actions(s4, e4) =~= seq![
        StartupActionView::Forward,
        StartupActionView::Ready,
        StartupActionView::Serve,
    ]);
    assert(startup_actions(s3, e3) =~= seq![StartupActionView::WritePid] + startup_actions(s4, e4));
    assert(startup_actions(s2, e2) =~= seq![StartupActionView::CreatePidDirectory]
        + startup_actions(s3, e3));
    assert(startup_actions(s1, e1) =~= seq![StartupActionView::Bind] + startup_actions(s2, e2));
    assert(startup_actions(s, e0) =~= seq![StartupActionView::Resolve] + startup_actions(s1, e1));
}

/// The server and its port forward are coupled: when the forward ends, for whatever reason, the
/// server ends too, with a failure.
pub proof fn law_forward_end_ends_server(s: StartupView, end: ServeEndView)
    requires
        s.phase == StartupPhase::Serving,
        end is ForwardExited || end is ForwardPanicked,
    ensures
        startup_step(s, StartupEventView::Ended(end)).0.phase == StartupPhase::Done,
        startup_step(s, StartupEventView::Ended(end)).1 is Fail,
{
}

/// A server that fails tells its launcher, if it has one: the launcher fails with the same words,
/// but for white space at their end.
pub proof fn law_failure_reaches_launcher(
    s: StartupView,
    event: StartupEventView,
    path: Seq<u8>,
    exited: Option<Seq<char>>,
)
    requires
        s.ready_file == Some(path),
    ensures
        startup_step(s, event).1 matches StartupActionView::Fail { failure, report } ==> report
            matches Some(contents) && start_verdict(
            path,
            exited,
            ReadyFileView::Contents(contents),
        ) == (StartVerdictView::Failed {
            failure: seq![trimmed_end(failure_text(failure))],
            remove: true,
        }),
{
    if let StartupActionView::Fail { failure, .. } = startup_step(s, event).1 {
        law_startup_error_reaches_launcher(path, exited, failure_text(failure));
    }
}

} // verus!
