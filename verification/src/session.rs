//! One websocket connection on the server: from the first frame to the last, which event leads to
//! which action.

use crate::decode_error::step_text;
use crate::failure::{outermost, Failure};
use crate::protocol::{
    client_decoded, server_bytes, vars_of, ClientFrame, ClientFrameView, EnvVarView,
    ForwardedEnvVar, ServerControlFrame, ServerFrameView,
};
use crate::server::{command_allowed, is_command_allowed};
use crate::text::texts_of;
use vstd::prelude::*;

verus! {

/// A command that a client asked for.
#[derive(Debug, PartialEq, Eq)]
pub struct ExecRequest {
    /// Program and arguments to execute.
    pub command: Vec<String>,
    /// Environment variables forwarded from the client.
    pub forward_env: Vec<ForwardedEnvVar>,
    /// Hostname of the client machine that requested the command.
    pub client_hostname: String,
    /// Username of the client user that requested the command.
    pub client_username: String,
    /// Working directory of the client process that requested the command.
    pub client_cwd: String,
}

/// A requested command over texts.
pub struct RequestView {
    pub command: Seq<Seq<char>>,
    pub forward_env: Seq<EnvVarView>,
    pub client_hostname: Seq<char>,
    pub client_username: Seq<char>,
    pub client_cwd: Seq<char>,
}

impl View for ExecRequest {
    type V = RequestView;

    open spec fn view(&self) -> RequestView {
        RequestView {
            command: texts_of(self.command@),
            forward_env: vars_of(self.forward_env@),
            client_hostname: self.client_hostname@,
            client_username: self.client_username@,
            client_cwd: self.client_cwd@,
        }
    }
}

/// The exec frame that asks for a command.
pub open spec fn exec_frame(request: RequestView) -> ClientFrameView {
    ClientFrameView::Exec {
        command: request.command,
        forward_env: request.forward_env,
        client_hostname: request.client_hostname,
        client_username: request.client_username,
        client_cwd: request.client_cwd,
    }
}

/// What came from the client's side of the connection.
#[derive(Debug, PartialEq, Eq)]
pub enum Incoming {
    /// A binary message.
    Binary(Vec<u8>),
    /// A close message.
    Close,
    /// Any other message.
    Other,
    /// The stream ended.
    Ended,
    /// The stream could not be read.
    Failed,
}

/// What came from the client's side, over byte sequences.
pub enum IncomingView {
    Binary(Seq<u8>),
    Close,
    Other,
    Ended,
    Failed,
}

impl View for Incoming {
    type V = IncomingView;

    open spec fn view(&self) -> IncomingView {
        match *self {
            Incoming::Binary(bytes) => IncomingView::Binary(bytes@),
            Incoming::Close => IncomingView::Close,
            Incoming::Other => IncomingView::Other,
            Incoming::Ended => IncomingView::Ended,
            Incoming::Failed => IncomingView::Failed,
        }
    }
}

/// What a connection is told.
#[derive(Debug, PartialEq, Eq)]
pub enum SessionEvent {
    /// Something came from the client.
    Message(Incoming),
    /// The command actor took the request.
    Accepted,
    /// The command actor is gone.
    ActorStopped,
    /// The command produced an output frame.
    Output(Vec<u8>),
    /// The command ended with this code.
    Exited(i32),
    /// The command produces nothing more.
    OutputEnded,
    /// A frame could not be sent to the client.
    SendFailed,
    /// The command takes no more stdin.
    StdinRefused,
    /// The command task reported success.
    Finished,
    /// The command task reported this failure.
    Failed(Failure),
    /// The command task ended without a report.
    Lost,
}

/// What a connection is told, over texts and byte sequences.
pub enum EventView {
    Message(IncomingView),
    Accepted,
    ActorStopped,
    Output(Seq<u8>),
    Exited(i32),
    OutputEnded,
    SendFailed,
    StdinRefused,
    Finished,
    Failed(Seq<Seq<char>>),
    Lost,
}

impl View for SessionEvent {
    type V = EventView;

    open spec fn view(&self) -> EventView {
        match *self {
            SessionEvent::Message(incoming) => EventView::Message(incoming@),
            SessionEvent::Accepted => EventView::Accepted,
            SessionEvent::ActorStopped => EventView::ActorStopped,
            SessionEvent::Output(bytes) => EventView::Output(bytes@),
            SessionEvent::Exited(code) => EventView::Exited(code),
            SessionEvent::OutputEnded => EventView::OutputEnded,
            SessionEvent::SendFailed => EventView::SendFailed,
            SessionEvent::StdinRefused => EventView::StdinRefused,
            SessionEvent::Finished => EventView::Finished,
            SessionEvent::Failed(failure) => EventView::Failed(failure@),
            SessionEvent::Lost => EventView::Lost,
        }
    }
}

/// Why a running command is cancelled.
#[derive(Clone, Copy, Debug, PartialEq, Eq, Structural)]
pub enum CancelReason {
    /// The client asked for it.
    Requested,
    /// The client sent a frame that cannot be decoded.
    BadFrame,
    /// The client closed the connection.
    Closed,
    /// The stream from the client ended.
    Ended,
    /// The stream from the client could not be read.
    ReadFailed,
}

/// What is done for a connection.
#[derive(Debug, PartialEq, Eq)]
pub enum SessionAction {
    /// Wait for the next event.
    Wait,
    /// Leave the connection without another word.
    Leave,
    /// Send this frame, close the connection and leave it.
    Reply(Vec<u8>),
    /// Note that this command is not allowed, send this frame, close the connection and leave it.
    Reject { command: Vec<String>, frame: Vec<u8> },
    /// Hand this request to the command actor.
    Start(ExecRequest),
    /// Send this frame; a failure comes back as an event.
    Send(Vec<u8>),
    /// Hand these bytes to the command's stdin; a refusal comes back as an event.
    WriteStdin(Vec<u8>),
    /// Close the command's stdin.
    CloseStdin,
    /// Note that a second exec frame was ignored.
    IgnoreExec,
    /// Note why the command is cancelled, with what was wrong with the client's frame where that is
    /// why; read no more from the client, and signal cancellation where `signal` is set.
    Cancel { reason: CancelReason, frame_error: Option<String>, signal: bool },
    /// Signal cancellation where `signal` is set, and leave the connection.
    CancelAndLeave { signal: bool },
    /// Wait for the report of the command task.
    AwaitReport,
    /// Close the connection and leave it.
    Close,
}

/// What is done for a connection, over texts and byte sequences.
pub enum ActionView {
    Wait,
    Leave,
    Reply(Seq<u8>),
    Reject { command: Seq<Seq<char>>, frame: Seq<u8> },
    Start(RequestView),
    Send(Seq<u8>),
    WriteStdin(Seq<u8>),
    CloseStdin,
    IgnoreExec,
    Cancel { reason: CancelReason, frame_error: Option<Seq<char>>, signal: bool },
    CancelAndLeave { signal: bool },
    AwaitReport,
    Close,
}

impl View for SessionAction {
    type V = ActionView;

    open spec fn view(&self) -> ActionView {
        match *self {
            SessionAction::Wait => ActionView::Wait,
            SessionAction::Leave => ActionView::Leave,
            SessionAction::Reply(bytes) => ActionView::Reply(bytes@),
            SessionAction::Reject { command, frame } => ActionView::Reject {
                command: texts_of(command@),
                frame: frame@,
            },
            SessionAction::Start(request) => ActionView::Start(request@),
            SessionAction::Send(bytes) => ActionView::Send(bytes@),
            SessionAction::WriteStdin(bytes) => ActionView::WriteStdin(bytes@),
            SessionAction::CloseStdin => ActionView::CloseStdin,
            SessionAction::IgnoreExec => ActionView::IgnoreExec,
            SessionAction::Cancel { reason, frame_error, signal } => ActionView::Cancel {
                reason,
                frame_error: match frame_error {
                    Some(text) => Some(text@),
                    None => None,
                },
                signal,
            },
            SessionAction::CancelAndLeave { signal } => ActionView::CancelAndLeave { signal },
            SessionAction::AwaitReport => ActionView::AwaitReport,
            SessionAction::Close => ActionView::Close,
        }
    }
}

/// How far a connection has come.
#[derive(Clone, Copy, Debug, PartialEq, Eq, Structural)]
pub enum Phase {
    /// The first frame is awaited.
    Greeting,
    /// The request is on its way to the command actor.
    Starting,
    /// The command runs.
    Running,
    /// The report of the command task is awaited.
    Finishing,
    /// The connection was left.
    Left,
}

/// The state of a connection.
#[derive(Clone, Copy, Debug, PartialEq, Eq, Structural)]
pub struct Session {
    /// How far the connection has come.
    pub phase: Phase,
    /// Whether the client is still listened to.
    pub reading: bool,
    /// Whether the command's stdin is open.
    pub stdin_open: bool,
    /// Whether cancellation was signalled.
    pub cancelled: bool,
}

/// The error frame that carries this text.
pub open spec fn error_frame(text: Seq<char>) -> Seq<u8> {
    server_bytes(ServerFrameView::Error(text))
}

/// The state `s` once the connection was left.
pub open spec fn left(s: Session) -> Session {
    Session { phase: Phase::Left, ..s }
}

/// The answer to a first message that starts no command, or nothing where it may start one.
pub open spec fn refusal_text(allowed: Seq<Seq<char>>, incoming: IncomingView) -> Option<
    Seq<char>,
> {
    match incoming {
        IncomingView::Binary(bytes) => match client_decoded(bytes) {
            Ok(ClientFrameView::Exec { command, .. }) => if command_allowed(allowed, command) {
                None
            } else {
                Some("command is not allowed"@)
            },
            Ok(ClientFrameView::Cancel) => Some("expected exec frame before cancel"@),
            Ok(ClientFrameView::Stdin(_)) => Some("expected exec frame before stdin"@),
            Ok(ClientFrameView::StdinEof) => Some("expected exec frame before stdin"@),
            Err(e) => Some(step_text(e.step)),
        },
        IncomingView::Close => Some("expected binary exec frame"@),
        IncomingView::Other => Some("expected binary exec frame"@),
        IncomingView::Ended => None,
        IncomingView::Failed => None,
    }
}

/// The request in a first message.
pub open spec fn requested(incoming: IncomingView) -> Option<RequestView> {
    match incoming {
        IncomingView::Binary(bytes) => match client_decoded(bytes) {
            Ok(
                ClientFrameView::Exec {
                    command,
                    forward_env,
                    client_hostname,
                    client_username,
                    client_cwd,
                },
            ) => Some(
                RequestView {
                    command,
                    forward_env,
                    client_hostname,
                    client_username,
                    client_cwd,
                },
            ),
            _ => None,
        },
        _ => None,
    }
}

/// The answer to a first message that starts no command: the one to a command that is not allowed
/// names the command, too.
pub open spec fn answer(incoming: IncomingView, text: Seq<char>) -> ActionView {
    match requested(incoming) {
        Some(request) => ActionView::Reject {
            command: request.command,
            frame: error_frame(text),
        },
        None => ActionView::Reply(error_frame(text)),
    }
}

/// What a first message leads to.
pub open spec fn greeting_step(s: Session, allowed: Seq<Seq<char>>, incoming: IncomingView) -> (
    Session,
    ActionView,
) {
    match refusal_text(allowed, incoming) {
        Some(text) => (left(s), answer(incoming, text)),
        None => match requested(incoming) {
            Some(request) => (
                Session { phase: Phase::Starting, ..s },
                ActionView::Start(request),
            ),
            None => (left(s), ActionView::Leave),
        },
    }
}

/// What cancelling for `reason` leads to: the client is not listened to any more, and the signal
/// is sent unless it was sent before.
pub open spec fn cancel_step(
    s: Session,
    reason: CancelReason,
    frame_error: Option<Seq<char>>,
) -> (Session, ActionView) {
    (
        Session { reading: false, cancelled: true, ..s },
        ActionView::Cancel { reason, frame_error, signal: !s.cancelled },
    )
}

/// What a message leads to while the command runs.
pub open spec fn client_step(s: Session, incoming: IncomingView) -> (Session, ActionView) {
    match incoming {
        IncomingView::Binary(bytes) => match client_decoded(bytes) {
            Ok(ClientFrameView::Cancel) => cancel_step(s, CancelReason::Requested, None),
            Ok(ClientFrameView::Stdin(bytes)) => if s.stdin_open {
                (s, ActionView::WriteStdin(bytes))
            } else {
                (s, ActionView::Wait)
            },
            Ok(ClientFrameView::StdinEof) => (
                Session { stdin_open: false, ..s },
                ActionView::CloseStdin,
            ),
            Ok(ClientFrameView::Exec { .. }) => (s, ActionView::IgnoreExec),
            Err(e) => cancel_step(s, CancelReason::BadFrame, Some(step_text(e.step))),
        },
        IncomingView::Close => cancel_step(s, CancelReason::Closed, None),
        IncomingView::Ended => cancel_step(s, CancelReason::Ended, None),
        IncomingView::Failed => cancel_step(s, CancelReason::ReadFailed, None),
        IncomingView::Other => (s, ActionView::Wait),
    }
}

/// What an event leads to. An event that does not belong to the phase changes nothing.
pub open spec fn session_step(s: Session, allowed: Seq<Seq<char>>, event: EventView) -> (
    Session,
    ActionView,
) {
    match (s.phase, event) {
        (Phase::Greeting, EventView::Message(incoming)) => greeting_step(s, allowed, incoming),
        (Phase::Starting, EventView::Accepted) => (
            Session { phase: Phase::Running, ..s },
            ActionView::Wait,
        ),
        (Phase::Starting, EventView::ActorStopped) => (
            left(s),
            ActionView::Reply(error_frame("server actor stopped"@)),
        ),
        (Phase::Running, EventView::Output(bytes)) => (s, ActionView::Send(bytes)),
        (Phase::Running, EventView::Exited(code)) => (
            s,
            ActionView::Send(server_bytes(ServerFrameView::Exit(code))),
        ),
        (Phase::Running, EventView::OutputEnded) => (
            Session { phase: Phase::Finishing, ..s },
            ActionView::AwaitReport,
        ),
        (Phase::Running, EventView::SendFailed) => (
            Session { cancelled: true, ..left(s) },
            ActionView::CancelAndLeave { signal: !s.cancelled },
        ),
        (Phase::Running, EventView::StdinRefused) => (
            Session { stdin_open: false, ..s },
            ActionView::Wait,
        ),
        (Phase::Running, EventView::Message(incoming)) => if s.reading {
            client_step(s, incoming)
        } else {
            (s, ActionView::Wait)
        },
        (Phase::Finishing, EventView::Finished) => (left(s), ActionView::Close),
        (Phase::Finishing, EventView::Failed(failure)) => (
            left(s),
            ActionView::Reply(error_frame(outermost(failure))),
        ),
        (Phase::Finishing, EventView::Lost) => (
            left(s),
            ActionView::Reply(error_frame("exec task stopped"@)),
        ),
        _ => (s, ActionView::Wait),
    }
}

/// Whether messages from the client are awaited.
pub open spec fn awaits(s: Session) -> bool {
    s.phase == Phase::Greeting || (s.phase == Phase::Running && s.reading)
}

/// A new connection.
pub open spec fn new_session() -> Session {
    Session { phase: Phase::Greeting, reading: true, stdin_open: true, cancelled: false }
}

/// Encodes an error frame.
pub fn encode_error(text: &str) -> (frame: Vec<u8>)
    ensures
        frame@ == error_frame(text@),
{
    ServerControlFrame::Error(text.to_owned()).encode()
}

impl Session {
    /// Opens a connection that waits for its first frame.
    pub fn new() -> (s: Session)
        ensures
            s == new_session(),
    {
        Session { phase: Phase::Greeting, reading: true, stdin_open: true, cancelled: false }
    }

    /// Whether messages from the client are awaited.
    pub fn awaits_client(&self) -> (r: bool)
        ensures
            r == (self.phase == Phase::Greeting || (self.phase == Phase::Running && self.reading)),
            r == awaits(*self),
    {
        match self.phase {
            Phase::Greeting => true,
            Phase::Running => self.reading,
            _ => false,
        }
    }

    /// Answers the first message.
    fn greet(&mut self, allowed: &[String], incoming: Incoming) -> (action: SessionAction)
        ensures
            (*final(self), action@) == greeting_step(*old(self), texts_of(allowed@), incoming@),
    {
        let bytes = match incoming {
            Incoming::Binary(bytes) => bytes,
            Incoming::Close | Incoming::Other => {
                self.phase = Phase::Left;
                return SessionAction::Reply(encode_error("expected binary exec frame"));
            },
            Incoming::Ended | Incoming::Failed => {
                self.phase = Phase::Left;
                return SessionAction::Leave;
            },
        };
        match ClientFrame::decode(bytes.as_slice()) {
            Ok(
                ClientFrame::Exec {
                    command,
                    forward_env,
                    client_hostname,
                    client_username,
                    client_cwd,
                },
            ) => {
                if !is_command_allowed(allowed, command.as_slice()) {
                    self.phase = Phase::Left;
                    return SessionAction::Reject {
                        command,
                        frame: encode_error("command is not allowed"),
                    };
                }
                self.phase = Phase::Starting;
                SessionAction::Start(
                    ExecRequest {
                        command,
                        forward_env,
                        client_hostname,
                        client_username,
                        client_cwd,
                    },
                )
            },
            Ok(ClientFrame::Cancel) => {
                self.phase = Phase::Left;
                SessionAction::Reply(encode_error("expected exec frame before cancel"))
            },
            Ok(ClientFrame::Stdin(_)) | Ok(ClientFrame::StdinEof) => {
                self.phase = Phase::Left;
                SessionAction::Reply(encode_error("expected exec frame before stdin"))
            },
            Err(e) => {
                self.phase = Phase::Left;
                SessionAction::Reply(encode_error(e.message().as_str()))
            },
        }
    }

    /// Stops listening to the client and cancels the command.
    fn cancel(&mut self, reason: CancelReason, frame_error: Option<String>) -> (action:
        SessionAction)
        ensures
            (*final(self), action@) == cancel_step(
                *old(self),
                reason,
                match frame_error {
                    Some(text) => Some(text@),
                    None => None,
                },
            ),
    {
        let signal = !self.cancelled;
        self.reading = false;
        self.cancelled = true;
        SessionAction::Cancel { reason, frame_error, signal }
    }

    /// Takes a message while the command runs.
    fn hear(&mut self, incoming: Incoming) -> (action: SessionAction)
        ensures
            (*final(self), action@) == client_step(*old(self), incoming@),
    {
        match incoming {
            Incoming::Binary(bytes) => match ClientFrame::decode(bytes.as_slice()) {
                Ok(ClientFrame::Cancel) => self.cancel(CancelReason::Requested, None),
                Ok(ClientFrame::Stdin(bytes)) => if self.stdin_open {
                    SessionAction::WriteStdin(bytes)
                } else {
                    SessionAction::Wait
                },
                Ok(ClientFrame::StdinEof) => {
                    self.stdin_open = false;
                    SessionAction::CloseStdin
                },
                Ok(ClientFrame::Exec { .. }) => SessionAction::IgnoreExec,
                Err(e) => self.cancel(CancelReason::BadFrame, Some(e.message())),
            },
            Incoming::Close => self.cancel(CancelReason::Closed, None),
            Incoming::Ended => self.cancel(CancelReason::Ended, None),
            Incoming::Failed => self.cancel(CancelReason::ReadFailed, None),
            Incoming::Other => SessionAction::Wait,
        }
    }

    /// Takes an event and says what to do.
    pub fn step(&mut self, allowed: &[String], event: SessionEvent) -> (action: SessionAction)
        ensures
            (*final(self), action@) == session_step(*old(self), texts_of(allowed@), event@),
    {
        match (self.phase, event) {
            (Phase::Greeting, SessionEvent::Message(incoming)) => self.greet(allowed, incoming),
            (Phase::Starting, SessionEvent::Accepted) => {
                self.phase = Phase::Running;
                SessionAction::Wait
            },
            (Phase::Starting, SessionEvent::ActorStopped) => {
                self.phase = Phase::Left;
                SessionAction::Reply(encode_error("server actor stopped"))
            },
            (Phase::Running, SessionEvent::Output(bytes)) => SessionAction::Send(bytes),
            (Phase::Running, SessionEvent::Exited(code)) => SessionAction::Send(
                ServerControlFrame::Exit(code).encode(),
            ),
            (Phase::Running, SessionEvent::OutputEnded) => {
                self.phase = Phase::Finishing;
                SessionAction::AwaitReport
            },
            (Phase::Running, SessionEvent::SendFailed) => {
                let signal = !self.cancelled;
                self.phase = Phase::Left;
                self.cancelled = true;
                SessionAction::CancelAndLeave { signal }
            },
            (Phase::Running, SessionEvent::StdinRefused) => {
                self.stdin_open = false;
                SessionAction::Wait
            },
            (Phase::Running, SessionEvent::Message(incoming)) => if self.reading {
                self.hear(incoming)
            } else {
                SessionAction::Wait
            },
            (Phase::Finishing, SessionEvent::Finished) => {
                self.phase = Phase::Left;
                SessionAction::Close
            },
            (Phase::Finishing, SessionEvent::Failed(failure)) => {
                self.phase = Phase::Left;
                SessionAction::Reply(ServerControlFrame::Error(failure.outermost()).encode())
            },
            (Phase::Finishing, SessionEvent::Lost) => {
                self.phase = Phase::Left;
                SessionAction::Reply(encode_error("exec task stopped"))
            },
            _ => SessionAction::Wait,
        }
    }
}

} // verus!
