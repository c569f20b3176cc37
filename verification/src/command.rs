//! One command on the server: how it is spawned, how it is waited for or terminated, and what is
//! told of its output and its end.

use crate::config::{
    CLIENT_CWD_ENV_VAR, CLIENT_EXEC_ENV_VALUE, CLIENT_EXEC_ENV_VAR, CLIENT_HOSTNAME_ENV_VAR,
    CLIENT_USERNAME_ENV_VAR,
};
use crate::failure::{outermost, within, Failure};
use crate::protocol::{
    byte_frame_header, put_stderr_frame_header, put_stdout_frame_header, server_bytes, vars_of,
    EnvVarView, ForwardedEnvVar, ServerFrameTag, ServerFrameView, BYTE_FRAME_HEADER_SIZE,
    CHUNK_SIZE,
};
use crate::session::{ExecRequest, RequestView};
use crate::text::{concat2, decimal, decimal_text, texts_of};
use crate::wire::{be32, lemma_concat_assoc, length_field, prefixed};
use vstd::prelude::*;

verus! {

/// Seconds that a cancelled command is given to exit after a termination request.
pub const TERMINATION_GRACE_SECS: u64 = 2;

/// How a requested command is spawned.
#[derive(Debug, PartialEq, Eq)]
pub struct CommandPlan {
    /// The program to run.
    pub program: String,
    /// Its arguments.
    pub args: Vec<String>,
    /// The environment variables to set for it, in this order.
    pub env: Vec<ForwardedEnvVar>,
}

/// A request names no command.
#[derive(Clone, Copy, Debug, PartialEq, Eq, Structural)]
pub struct MissingCommand;

impl MissingCommand {
    /// Says what is missing.
    pub fn message(&self) -> (r: String)
        ensures
            r@ == "missing command"@,
    {
        "missing command".to_owned()
    }
}

/// The variables that tell a command who asked for it.
pub open spec fn origin_env(request: RequestView) -> Seq<EnvVarView> {
    seq![
        EnvVarView { name: CLIENT_HOSTNAME_ENV_VAR@, value: request.client_hostname },
        EnvVarView { name: CLIENT_USERNAME_ENV_VAR@, value: request.client_username },
        EnvVarView { name: CLIENT_CWD_ENV_VAR@, value: request.client_cwd },
        EnvVarView { name: CLIENT_EXEC_ENV_VAR@, value: CLIENT_EXEC_ENV_VALUE@ },
    ]
}

/// The variables to set for a command: the forwarded ones first, so that none of them can hide who
/// asked for it.
pub open spec fn command_env(request: RequestView) -> Seq<EnvVarView> {
    request.forward_env + origin_env(request)
}

/// A variable as it is set.
fn setting(name: &str, value: &str) -> (r: ForwardedEnvVar)
    ensures
        r@ == (EnvVarView { name: name@, value: value@ }),
{
    ForwardedEnvVar { name: name.to_owned(), value: value.to_owned() }
}

/// How a requested command is spawned: its program, its arguments and the variables that are set for
/// it; nothing where the request names no command.
pub open spec fn spawned_as(request: RequestView) -> Option<
    (Seq<char>, Seq<Seq<char>>, Seq<EnvVarView>),
> {
    if request.command.len() == 0 {
        None
    } else {
        Some((request.command[0], request.command.skip(1), command_env(request)))
    }
}

/// Plans how a requested command is spawned.
pub fn plan_command(request: &ExecRequest) -> (r: Result<CommandPlan, MissingCommand>)
    ensures
        r is Ok == (request@.command.len() > 0),
        r matches Ok(plan) ==> {
            &&& plan.program@ == request@.command[0]
            &&& texts_of(plan.args@) == request@.command.skip(1)
            &&& vars_of(plan.env@) == command_env(request@)
        },
        spawned_as(request@) == match r {
            Ok(plan) => Some((plan.program@, texts_of(plan.args@), vars_of(plan.env@))),
            Err(_) => None,
        },
{
    if request.command.len() == 0 {
        return Err(MissingCommand);
    }
    let mut args: Vec<String> = Vec::new();
    let mut i: usize = 1;
    while i < request.command.len()
        invariant
            1 <= i <= request.command@.len(),
            args@.len() == i - 1,
            forall|j: int| 0 <= j < i - 1 ==> (#[trigger] args@[j])@ == request.command@[j + 1]@,
        decreases request.command@.len() - i,
    {
        args.push(request.command[i].clone());
        i += 1;
    }
    let mut env: Vec<ForwardedEnvVar> = Vec::new();
    let mut k: usize = 0;
    while k < request.forward_env.len()
        invariant
            k <= request.forward_env@.len(),
            env@.len() == k,
            forall|j: int| 0 <= j < k ==> (#[trigger] env@[j])@ == request.forward_env@[j]@,
        decreases request.forward_env@.len() - k,
    {
        env.push(
            setting(
                request.forward_env[k].name.as_str(),
                request.forward_env[k].value.as_str(),
            ),
        );
        k += 1;
    }
    env.push(setting(CLIENT_HOSTNAME_ENV_VAR, request.client_hostname.as_str()));
    env.push(setting(CLIENT_USERNAME_ENV_VAR, request.client_username.as_str()));
    env.push(setting(CLIENT_CWD_ENV_VAR, request.client_cwd.as_str()));
    env.push(setting(CLIENT_EXEC_ENV_VAR, CLIENT_EXEC_ENV_VALUE));
    assert(texts_of(args@) =~= request@.command.skip(1));
    assert(vars_of(env@) =~= command_env(request@));
    Ok(CommandPlan { program: request.command[0].clone(), args, env })
}

/// What is told of a program that cannot be spawned.
pub fn spawn_failure(program: &str) -> (r: String)
    ensures
        r@ == "failed to spawn "@ + program@,
{
    concat2("failed to spawn ", program)
}

/// Output stream selector for process pipe readers.
#[derive(Clone, Copy, Debug, PartialEq, Eq, Structural)]
pub enum StreamKind {
    /// Read chunks should be marked as stdout.
    Stdout,
    /// Read chunks should be marked as stderr.
    Stderr,
}

/// The frame of a chunk of output.
pub open spec fn output_of(kind: StreamKind, bytes: Seq<u8>) -> ServerFrameView {
    match kind {
        StreamKind::Stdout => ServerFrameView::Stdout(bytes),
        StreamKind::Stderr => ServerFrameView::Stderr(bytes),
    }
}

/// Makes a buffer with room for a frame header and one chunk of output after it.
pub fn output_buffer() -> (buffer: Vec<u8>)
    ensures
        buffer@ == Seq::new((BYTE_FRAME_HEADER_SIZE + CHUNK_SIZE) as nat, |i: int| 0u8),
{
    let buffer: Vec<u8> = vec![0u8; BYTE_FRAME_HEADER_SIZE + CHUNK_SIZE];
    assert(buffer@ =~= Seq::new((BYTE_FRAME_HEADER_SIZE + CHUNK_SIZE) as nat, |i: int| 0u8));
    buffer
}

/// The frame of what one read of a pipe gave, or nothing where the pipe has ended.
pub open spec fn framed(kind: StreamKind, read: Seq<u8>) -> Option<Seq<u8>> {
    if read.len() == 0 {
        None
    } else {
        Some(server_bytes(output_of(kind, read)))
    }
}

/// The frames of what the reads of a pipe gave one after the other, up to its end.
pub open spec fn stream_frames(kind: StreamKind, reads: Seq<Seq<u8>>) -> Seq<Seq<u8>>
    decreases reads.len(),
{
    if reads.len() == 0 {
        Seq::empty()
    } else {
        match framed(kind, reads[0]) {
            Some(frame) => seq![frame] + stream_frames(kind, reads.skip(1)),
            None => Seq::empty(),
        }
    }
}

/// Makes an output frame of a buffer into which `read` bytes of output were read behind the room
/// for the header; `None` where the pipe has ended.
pub fn output_frame(kind: StreamKind, buffer: Vec<u8>, read: usize) -> (r: Option<Vec<u8>>)
    requires
        BYTE_FRAME_HEADER_SIZE + read <= buffer@.len(),
        read <= u32::MAX,
    ensures
        match framed(
            kind,
            buffer@.subrange(BYTE_FRAME_HEADER_SIZE as int, BYTE_FRAME_HEADER_SIZE + read),
        ) {
            Some(frame) => r is Some && r->Some_0@ == frame,
            None => r is None,
        },
{
    if read == 0 {
        return None;
    }
    let ghost before = buffer@;
    assert(BYTE_FRAME_HEADER_SIZE + read <= buffer.len());
    let mut frame = buffer;
    match kind {
        StreamKind::Stdout => put_stdout_frame_header(frame.as_mut_slice(), read),
        StreamKind::Stderr => put_stderr_frame_header(frame.as_mut_slice(), read),
    }
    let ghost written = frame@;
    frame.truncate(BYTE_FRAME_HEADER_SIZE + read);
    proof {
        let tag = match kind {
            StreamKind::Stdout => ServerFrameTag::Stdout,
            StreamKind::Stderr => ServerFrameTag::Stderr,
        };
        let tag_byte = seq![crate::protocol::server_tag_byte(tag)];
        let payload = before.subrange(BYTE_FRAME_HEADER_SIZE as int, BYTE_FRAME_HEADER_SIZE + read);
        reveal(be32);
        assert(byte_frame_header(tag, read as u32).len() == BYTE_FRAME_HEADER_SIZE);
        assert(frame@ =~= byte_frame_header(tag, read as u32) + payload);
        assert(length_field(payload.len()) == read as u32);
        lemma_concat_assoc(tag_byte, be32(read as u32), payload);
        assert(server_bytes(output_of(kind, payload)) == tag_byte + prefixed(payload));
    }
    Some(frame)
}

/// Says that an output frame could not be handed to the connection, for this reason.
pub fn output_refusal(cause: Failure) -> (r: Failure)
    ensures
        r@ == within("client disconnected while streaming output"@, cause@),
{
    cause.within("client disconnected while streaming output".to_owned())
}

/// Converts the code of a process that ended, if it has one, into a process-style exit code.
pub open spec fn exit_code_of(code: Option<i32>) -> i32 {
    match code {
        Some(code) => code,
        None => 1,
    }
}

/// Converts the code of a process that ended, if it has one, into a process-style exit code.
pub fn exit_code(code: Option<i32>) -> (r: i32)
    ensures
        r == exit_code_of(code),
{
    match code {
        Some(code) => code,
        None => 1,
    }
}

/// A signal that ends a command.
#[derive(Clone, Copy, Debug, PartialEq, Eq, Structural)]
pub enum EndSignal {
    /// The request to end.
    Term,
    /// The order to end.
    Kill,
}

/// The name of a signal.
pub open spec fn signal_name(signal: EndSignal) -> Seq<char> {
    match signal {
        EndSignal::Term => "TERM"@,
        EndSignal::Kill => "KILL"@,
    }
}

impl EndSignal {
    /// The name of this signal.
    pub fn name(self) -> (r: &'static str)
        ensures
            r@ == signal_name(self),
    {
        match self {
            EndSignal::Term => "TERM",
            EndSignal::Kill => "KILL",
        }
    }
}

/// The arguments of `kill` that send a signal to the process group of a command.
pub open spec fn kill_args_of(pid: u32, signal: EndSignal) -> Seq<Seq<char>> {
    seq!["-"@ + signal_name(signal), "-"@ + decimal(pid as nat)]
}

/// Writes the arguments of `kill` that send a signal to the process group of a command.
pub fn kill_args(pid: u32, signal: EndSignal) -> (r: Vec<String>)
    ensures
        texts_of(r@) == kill_args_of(pid, signal),
{
    let mut args: Vec<String> = Vec::new();
    args.push(concat2("-", signal.name()));
    args.push(concat2("-", decimal_text(pid as u128).as_str()));
    assert(texts_of(args@) =~= kill_args_of(pid, signal));
    args
}

/// What is told of a running command.
#[derive(Debug, PartialEq, Eq)]
pub enum RunEvent {
    /// The process ended, with this code where it has one.
    Exited(Option<i32>),
    /// The process could not be waited for, for this reason.
    WaitFailed(Failure),
    /// Cancellation was signalled; this is the process id, while the process has one.
    Cancelled(Option<u32>),
    /// The process did not end in the time it was given; this is its id, while it has one.
    GraceElapsed(Option<u32>),
    /// The process was killed without a process id.
    Killed,
    /// The process could not be killed, for this reason.
    KillFailed(Failure),
    /// The awaited output stream has ended.
    StreamEnded,
    /// The awaited output stream failed, for this reason.
    StreamFailed(Failure),
    /// The task of the awaited output stream panicked, for this reason.
    StreamPanicked(Failure),
    /// The exit code was handed to the connection.
    Reported,
    /// The connection takes no exit code, for this reason.
    ReportRefused(Failure),
}

/// What is told of a running command, over texts.
pub enum RunEventView {
    Exited(Option<i32>),
    WaitFailed(Seq<Seq<char>>),
    Cancelled(Option<u32>),
    GraceElapsed(Option<u32>),
    Killed,
    KillFailed(Seq<Seq<char>>),
    StreamEnded,
    StreamFailed(Seq<Seq<char>>),
    StreamPanicked(Seq<Seq<char>>),
    Reported,
    ReportRefused(Seq<Seq<char>>),
}

impl View for RunEvent {
    type V = RunEventView;

    open spec fn view(&self) -> RunEventView {
        match *self {
            RunEvent::Exited(code) => RunEventView::Exited(code),
            RunEvent::WaitFailed(cause) => RunEventView::WaitFailed(cause@),
            RunEvent::Cancelled(pid) => RunEventView::Cancelled(pid),
            RunEvent::GraceElapsed(pid) => RunEventView::GraceElapsed(pid),
            RunEvent::Killed => RunEventView::Killed,
            RunEvent::KillFailed(cause) => RunEventView::KillFailed(cause@),
            RunEvent::StreamEnded => RunEventView::StreamEnded,
            RunEvent::StreamFailed(cause) => RunEventView::StreamFailed(cause@),
            RunEvent::StreamPanicked(cause) => RunEventView::StreamPanicked(cause@),
            RunEvent::Reported => RunEventView::Reported,
            RunEvent::ReportRefused(cause) => RunEventView::ReportRefused(cause@),
        }
    }
}

/// What is done for a running command.
#[derive(Debug, PartialEq, Eq)]
pub enum RunAction {
    /// Wait for the next event.
    Wait,
    /// Signal the process group of this id, where there is one, and wait for the process for the
    /// time that a cancelled command is given.
    Terminate(Option<u32>),
    /// Kill the process group of this id, and wait for the process.
    KillGroup(u32),
    /// Kill the process without its id.
    KillProcess,
    /// Wait for the killed process.
    Reap,
    /// Stop forwarding stdin, and wait for the end of stdout.
    AwaitStdout,
    /// Wait for the end of stderr.
    AwaitStderr,
    /// Hand this exit code to the connection.
    Report(i32),
    /// Report success.
    Finish,
    /// Stop forwarding stdin. Where there is a `cause`, kill the process and note in the log that
    /// the command failed for it before it had an exit code. Then report the `failure`.
    Fail { failure: Failure, cause: Option<String> },
}

/// What is done for a running command, over texts.
pub enum RunActionView {
    Wait,
    Terminate(Option<u32>),
    KillGroup(u32),
    KillProcess,
    Reap,
    AwaitStdout,
    AwaitStderr,
    Report(i32),
    Finish,
    Fail { failure: Seq<Seq<char>>, cause: Option<Seq<char>> },
}

impl View for RunAction {
    type V = RunActionView;

    open spec fn view(&self) -> RunActionView {
        match *self {
            RunAction::Wait => RunActionView::Wait,
            RunAction::Terminate(pid) => RunActionView::Terminate(pid),
            RunAction::KillGroup(pid) => RunActionView::KillGroup(pid),
            RunAction::KillProcess => RunActionView::KillProcess,
            RunAction::Reap => RunActionView::Reap,
            RunAction::AwaitStdout => RunActionView::AwaitStdout,
            RunAction::AwaitStderr => RunActionView::AwaitStderr,
            RunAction::Report(code) => RunActionView::Report(code),
            RunAction::Finish => RunActionView::Finish,
            RunAction::Fail { failure, cause } => RunActionView::Fail {
                failure: failure@,
                cause: match cause {
                    Some(cause) => Some(cause@),
                    None => None,
                },
            },
        }
    }
}

/// How far a command has come.
#[derive(Clone, Copy, Debug, PartialEq, Eq, Structural)]
pub enum RunPhase {
    /// The process runs.
    Running,
    /// The process was asked to end.
    Terminating,
    /// The process is being killed without its id.
    Killing,
    /// The killed process is awaited.
    Reaping,
    /// The process ended with this code; the end of stdout is awaited.
    DrainingStdout(i32),
    /// The process ended with this code; the end of stderr is awaited.
    DrainingStderr(i32),
    /// The exit code is being handed to the connection.
    Reporting,
    /// Nothing is left to do.
    Done,
}

/// What a failure on the way to the exit code leads to.
pub open spec fn run_failed(cause: Seq<Seq<char>>) -> (RunPhase, RunActionView) {
    (
        RunPhase::Done,
        RunActionView::Fail {
            failure: within("command execution failed"@, cause),
            cause: Some(outermost(cause)),
        },
    )
}

/// What the end of the process leads to.
pub open spec fn process_ended(code: Option<i32>) -> (RunPhase, RunActionView) {
    (RunPhase::DrainingStdout(exit_code_of(code)), RunActionView::AwaitStdout)
}

/// What an event leads to. An event that does not belong to the phase changes nothing.
pub open spec fn run_step(phase: RunPhase, event: RunEventView) -> (RunPhase, RunActionView) {
    match (phase, event) {
        (RunPhase::Running, RunEventView::Exited(code)) => process_ended(code),
        (RunPhase::Running, RunEventView::WaitFailed(cause)) => run_failed(
            within("failed to wait for command"@, cause),
        ),
        (RunPhase::Running, RunEventView::Cancelled(pid)) => (
            RunPhase::Terminating,
            RunActionView::Terminate(pid),
        ),
        (RunPhase::Terminating, RunEventView::Exited(code)) => process_ended(code),
        (RunPhase::Terminating, RunEventView::WaitFailed(cause)) => run_failed(
            within("failed to wait for cancelled command"@, cause),
        ),
        (RunPhase::Terminating, RunEventView::GraceElapsed(Some(pid))) => (
            RunPhase::Reaping,
            RunActionView::KillGroup(pid),
        ),
        (RunPhase::Terminating, RunEventView::GraceElapsed(None)) => (
            RunPhase::Killing,
            RunActionView::KillProcess,
        ),
        (RunPhase::Killing, RunEventView::Killed) => (RunPhase::Reaping, RunActionView::Reap),
        (RunPhase::Killing, RunEventView::KillFailed(cause)) => run_failed(
            within("failed to kill cancelled command"@, cause),
        ),
        (RunPhase::Reaping, RunEventView::Exited(code)) => process_ended(code),
        (RunPhase::Reaping, RunEventView::WaitFailed(cause)) => run_failed(
            within("failed to wait for killed command"@, cause),
        ),
        (RunPhase::DrainingStdout(code), RunEventView::StreamEnded) => (
            RunPhase::DrainingStderr(code),
            RunActionView::AwaitStderr,
        ),
        (RunPhase::DrainingStdout(_), RunEventView::StreamFailed(cause)) => run_failed(cause),
        (RunPhase::DrainingStdout(_), RunEventView::StreamPanicked(cause)) => run_failed(
            within("stdout task panicked"@, cause),
        ),
        (RunPhase::DrainingStderr(code), RunEventView::StreamEnded) => (
            RunPhase::Reporting,
            RunActionView::Report(code),
        ),
        (RunPhase::DrainingStderr(_), RunEventView::StreamFailed(cause)) => run_failed(cause),
        (RunPhase::DrainingStderr(_), RunEventView::StreamPanicked(cause)) => run_failed(
            within("stderr task panicked"@, cause),
        ),
        (RunPhase::Reporting, RunEventView::Reported) => (RunPhase::Done, RunActionView::Finish),
        (RunPhase::Reporting, RunEventView::ReportRefused(cause)) => (
            RunPhase::Done,
            RunActionView::Fail {
                failure: within("client disconnected before exit code was sent"@, cause),
                cause: None,
            },
        ),
        _ => (phase, RunActionView::Wait),
    }
}

/// Gives a failure on the way to the exit code.
fn fail_run(cause: Failure) -> (r: (RunPhase, RunAction))
    ensures
        (r.0, r.1@) == run_failed(cause@),
{
    let words = cause.outermost();
    (
        RunPhase::Done,
        RunAction::Fail {
            failure: cause.within("command execution failed".to_owned()),
            cause: Some(words),
        },
    )
}

/// Gives a failure on the way to the exit code, with what was being done.
fn fail_run_in(context: &str, cause: Failure) -> (r: (RunPhase, RunAction))
    ensures
        (r.0, r.1@) == run_failed(within(context@, cause@)),
{
    fail_run(cause.within(context.to_owned()))
}

/// Takes the end of the process.
fn end_process(code: Option<i32>) -> (r: (RunPhase, RunAction))
    ensures
        (r.0, r.1@) == process_ended(code),
{
    (RunPhase::DrainingStdout(exit_code(code)), RunAction::AwaitStdout)
}

/// The state of a command.
#[derive(Clone, Copy, Debug, PartialEq, Eq, Structural)]
pub struct CommandRun {
    /// How far the command has come.
    pub phase: RunPhase,
}

impl CommandRun {
    /// Follows a process that was just spawned.
    pub fn new() -> (run: CommandRun)
        ensures
            run.phase == RunPhase::Running,
    {
        CommandRun { phase: RunPhase::Running }
    }

    /// Takes an event and says what to do.
    pub fn step(&mut self, event: RunEvent) -> (action: RunAction)
        ensures
            (final(self).phase, action@) == run_step(old(self).phase, event@),
    {
        let (phase, action) = match (self.phase, event) {
            (RunPhase::Running, RunEvent::Exited(code)) => end_process(code),
            (RunPhase::Running, RunEvent::WaitFailed(cause)) => fail_run_in(
                "failed to wait for command",
                cause,
            ),
            (RunPhase::Running, RunEvent::Cancelled(pid)) => (
                RunPhase::Terminating,
                RunAction::Terminate(pid),
            ),
            (RunPhase::Terminating, RunEvent::Exited(code)) => end_process(code),
            (RunPhase::Terminating, RunEvent::WaitFailed(cause)) => fail_run_in(
                "failed to wait for cancelled command",
                cause,
            ),
            (RunPhase::Terminating, RunEvent::GraceElapsed(Some(pid))) => (
                RunPhase::Reaping,
                RunAction::KillGroup(pid),
            ),
            (RunPhase::Terminating, RunEvent::GraceElapsed(None)) => (
                RunPhase::Killing,
                RunAction::KillProcess,
            ),
            (RunPhase::Killing, RunEvent::Killed) => (RunPhase::Reaping, RunAction::Reap),
            (RunPhase::Killing, RunEvent::KillFailed(cause)) => fail_run_in(
                "failed to kill cancelled command",
                cause,
            ),
            (RunPhase::Reaping, RunEvent::Exited(code)) => end_process(code),
            (RunPhase::Reaping, RunEvent::WaitFailed(cause)) => fail_run_in(
                "failed to wait for killed command",
                cause,
            ),
            (RunPhase::DrainingStdout(code), RunEvent::StreamEnded) => (
                RunPhase::DrainingStderr(code),
                RunAction::AwaitStderr,
            ),
            (RunPhase::DrainingStdout(_), RunEvent::StreamFailed(cause)) => fail_run(cause),
            (RunPhase::DrainingStdout(_), RunEvent::StreamPanicked(cause)) => fail_run_in(
                "stdout task panicked",
                cause,
            ),
            (RunPhase::DrainingStderr(code), RunEvent::StreamEnded) => (
                RunPhase::Reporting,
                RunAction::Report(code),
            ),
            (RunPhase::DrainingStderr(_), RunEvent::StreamFailed(cause)) => fail_run(cause),
            (RunPhase::DrainingStderr(_), RunEvent::StreamPanicked(cause)) => fail_run_in(
                "stderr task panicked",
                cause,
            ),
            (RunPhase::Reporting, RunEvent::Reported) => (RunPhase::Done, RunAction::Finish),
            (RunPhase::Reporting, RunEvent::ReportRefused(cause)) => (
                RunPhase::Done,
                RunAction::Fail {
                    failure: cause.within(
                        "client disconnected before exit code was sent".to_owned(),
                    ),
                    cause: None,
                },
            ),
            (phase, _) => (phase, RunAction::Wait),
        };
        self.phase = phase;
        action
    }
}

} // verus!
