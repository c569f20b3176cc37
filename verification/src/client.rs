//! One client session: what the client sends, what it does with what it receives, and with which
//! code it ends.

use crate::cli::ExecArgs;
use crate::decode_error::{cause_text, step_text};
use crate::protocol::{
    client_bytes, server_decoded, vars_of, ClientFrame, ClientFrameView, DecodedServerFrame,
    EnvVarView, ForwardedEnvVar, ServerFrameView, CHUNK_SIZE,
};
use crate::session::{exec_frame, ExecRequest, RequestView};
use crate::text::{
    concat2, concat3, decimal, decimal_text, in_context, lossy_text, texts_of, utf8_lossy,
    with_context,
};
use vstd::prelude::*;

verus! {

/// The exit code of a client that was interrupted.
pub const INTERRUPTED_CODE: i32 = 130;

/// The exit code of a client that failed, or that learned no exit code.
pub const FAILED_CODE: i32 = 1;

/// What the client could not find out about itself.
#[derive(Clone, Copy, Debug, PartialEq, Eq, Structural)]
pub enum IdentityError {
    /// The machine has an empty name.
    EmptyHostname,
    /// The user is not known to the system.
    MissingUser,
    /// The user has an empty name.
    EmptyUsername,
    /// The working directory is empty.
    EmptyCwd,
}

/// The description of an identity that is not known.
pub open spec fn identity_error_text(error: IdentityError) -> Seq<char> {
    match error {
        IdentityError::EmptyHostname => "client hostname is empty"@,
        IdentityError::MissingUser => "client user record is missing"@,
        IdentityError::EmptyUsername => "client username is empty"@,
        IdentityError::EmptyCwd => "client current working directory is empty"@,
    }
}

impl IdentityError {
    /// Says what is missing.
    pub fn message(&self) -> (r: String)
        ensures
            r@ == identity_error_text(*self),
    {
        let text: &str = match *self {
            IdentityError::EmptyHostname => "client hostname is empty",
            IdentityError::MissingUser => "client user record is missing",
            IdentityError::EmptyUsername => "client username is empty",
            IdentityError::EmptyCwd => "client current working directory is empty",
        };
        text.to_owned()
    }
}

/// Turns a text into a result: an empty text is the error.
fn not_empty(text: String, error: IdentityError) -> (r: Result<String, IdentityError>)
    ensures
        r is Ok == (text@.len() > 0),
        r matches Ok(same) ==> same@ == text@,
        r matches Err(e) ==> e == error,
{
    if text.as_str().unicode_len() == 0 {
        Err(error)
    } else {
        Ok(text)
    }
}

/// Resolves the machine hostname to send with the exec request from the system's name of it.
pub fn resolve_client_hostname(hostname: &[u8]) -> (r: Result<String, IdentityError>)
    ensures
        r is Ok == (lossy_text(hostname@).len() > 0),
        r matches Ok(text) ==> text@ == lossy_text(hostname@),
        r matches Err(e) ==> e == IdentityError::EmptyHostname,
{
    not_empty(utf8_lossy(hostname), IdentityError::EmptyHostname)
}

/// Resolves the username to send with the exec request from the system's record of the user.
pub fn resolve_client_username(name: Option<String>) -> (r: Result<String, IdentityError>)
    ensures
        match name {
            None => r == Err::<String, IdentityError>(IdentityError::MissingUser),
            Some(name) => if name@.len() == 0 {
                r == Err::<String, IdentityError>(IdentityError::EmptyUsername)
            } else {
                r is Ok && r->Ok_0@ == name@
            },
        },
{
    match name {
        Some(name) => not_empty(name, IdentityError::EmptyUsername),
        None => Err(IdentityError::MissingUser),
    }
}

/// Resolves the working directory to send with the exec request from its path.
pub fn resolve_client_cwd(cwd: &[u8]) -> (r: Result<String, IdentityError>)
    ensures
        r is Ok == (lossy_text(cwd@).len() > 0),
        r matches Ok(text) ==> text@ == lossy_text(cwd@),
        r matches Err(e) ==> e == IdentityError::EmptyCwd,
{
    not_empty(utf8_lossy(cwd), IdentityError::EmptyCwd)
}

/// The websocket address of a server.
pub open spec fn url_text(host: Seq<char>, port: u16) -> Seq<char> {
    "ws://"@ + host + ":"@ + decimal(port as nat) + "/ws"@
}

/// Writes the websocket address of a server.
pub fn format_url(host: &str, port: u16) -> (r: String)
    ensures
        r@ == url_text(host@, port),
{
    let mut text = concat3("ws://", host, ":");
    text.append(decimal_text(port as u128).as_str());
    text.append("/ws");
    text
}

/// What a client knows before it connects.
#[derive(Debug, PartialEq, Eq)]
pub struct ClientPlan {
    /// The websocket address of the server.
    pub url: String,
    /// The request to send.
    pub request: ExecRequest,
}

/// What the system says of the client: a value, or the failure to get it.
pub struct ClientFacts {
    /// The name of the machine.
    pub hostname: Result<Vec<u8>, String>,
    /// The name of the user, where the system knows the user.
    pub username: Result<Option<String>, String>,
    /// The working directory.
    pub cwd: Result<Vec<u8>, String>,
}

/// The machine name to send, or the failure.
pub open spec fn hostname_fact(facts: &ClientFacts) -> Result<Seq<char>, Seq<char>> {
    match facts.hostname {
        Err(cause) => Err(in_context("failed to determine client hostname"@, cause@)),
        Ok(bytes) => if lossy_text(bytes@).len() == 0 {
            Err(identity_error_text(IdentityError::EmptyHostname))
        } else {
            Ok(lossy_text(bytes@))
        },
    }
}

/// The user name to send, or the failure.
pub open spec fn username_fact(facts: &ClientFacts) -> Result<Seq<char>, Seq<char>> {
    match facts.username {
        Err(cause) => Err(in_context("failed to determine client username"@, cause@)),
        Ok(None) => Err(identity_error_text(IdentityError::MissingUser)),
        Ok(Some(name)) => if name@.len() == 0 {
            Err(identity_error_text(IdentityError::EmptyUsername))
        } else {
            Ok(name@)
        },
    }
}

/// The working directory to send, or the failure.
pub open spec fn cwd_fact(facts: &ClientFacts) -> Result<Seq<char>, Seq<char>> {
    match facts.cwd {
        Err(cause) => Err(
            in_context("failed to determine client current working directory"@, cause@),
        ),
        Ok(bytes) => if lossy_text(bytes@).len() == 0 {
            Err(identity_error_text(IdentityError::EmptyCwd))
        } else {
            Ok(lossy_text(bytes@))
        },
    }
}

/// The request that a client sends, or the first failure on the way to it.
pub open spec fn request_in(
    facts: &ClientFacts,
    command: Seq<Seq<char>>,
    forward_env: Seq<EnvVarView>,
) -> Result<RequestView, Seq<char>> {
    match hostname_fact(facts) {
        Err(text) => Err(text),
        Ok(client_hostname) => match username_fact(facts) {
            Err(text) => Err(text),
            Ok(client_username) => match cwd_fact(facts) {
                Err(text) => Err(text),
                Ok(client_cwd) => Ok(
                    RequestView {
                        command,
                        forward_env,
                        client_hostname,
                        client_username,
                        client_cwd,
                    },
                ),
            },
        },
    }
}

/// Plans a client session.
pub fn plan_client(
    args: ExecArgs,
    forward_env: Vec<ForwardedEnvVar>,
    facts: ClientFacts,
) -> (r: Result<ClientPlan, String>)
    ensures
        match request_in(&facts, texts_of(args.command@), vars_of(forward_env@)) {
            Ok(request) => r is Ok && r->Ok_0.request@ == request && r->Ok_0.url@ == url_text(
                args.connection.host@,
                args.connection.port,
            ),
            Err(text) => r is Err && r->Err_0@ == text,
        },
        r matches Ok(plan) ==> texts_of(plan.request.command@) == texts_of(args.command@),
{
    let client_hostname = match &facts.hostname {
        Err(cause) => return Err(
            with_context("failed to determine client hostname", cause.as_str()),
        ),
        Ok(bytes) => match resolve_client_hostname(bytes.as_slice()) {
            Ok(hostname) => hostname,
            Err(e) => return Err(e.message()),
        },
    };
    let client_username = match facts.username {
        Err(cause) => return Err(
            with_context("failed to determine client username", cause.as_str()),
        ),
        Ok(name) => match resolve_client_username(name) {
            Ok(username) => username,
            Err(e) => return Err(e.message()),
        },
    };
    let client_cwd = match &facts.cwd {
        Err(cause) => return Err(
            with_context(
                "failed to determine client current working directory",
                cause.as_str(),
            ),
        ),
        Ok(bytes) => match resolve_client_cwd(bytes.as_slice()) {
            Ok(cwd) => cwd,
            Err(e) => return Err(e.message()),
        },
    };
    let url = format_url(args.connection.host.as_str(), args.connection.port);
    Ok(
        ClientPlan {
            url,
            request: ExecRequest {
                command: args.command,
                forward_env,
                client_hostname,
                client_username,
                client_cwd,
            },
        },
    )
}

/// Says that the server at this address cannot be reached, for this reason.
pub fn connect_failure(url: &str, cause: &str) -> (r: String)
    ensures
        r@ == in_context("failed to connect to "@ + url@, cause@),
{
    with_context(concat2("failed to connect to ", url).as_str(), cause)
}

/// What one read of stdin leads to: the frame to send, and whether it is the last one. `None`
/// stands for a read that failed.
pub open spec fn stdin_frame_of(read: Option<Seq<u8>>) -> (ClientFrameView, bool) {
    match read {
        None => (ClientFrameView::Cancel, true),
        Some(bytes) => if bytes.len() == 0 {
            (ClientFrameView::StdinEof, true)
        } else {
            (ClientFrameView::Stdin(bytes), false)
        },
    }
}

/// The frames that the reads of stdin lead to one after the other, up to the last one.
pub open spec fn stdin_frames(reads: Seq<Option<Seq<u8>>>) -> Seq<ClientFrameView>
    decreases reads.len(),
{
    if reads.len() == 0 {
        Seq::empty()
    } else {
        let (frame, last) = stdin_frame_of(reads[0]);
        if last {
            seq![frame]
        } else {
            seq![frame] + stdin_frames(reads.skip(1))
        }
    }
}

/// Makes a buffer with room for one chunk of stdin.
pub fn stdin_buffer() -> (buffer: Vec<u8>)
    ensures
        buffer@ == Seq::new(CHUNK_SIZE as nat, |i: int| 0u8),
{
    let buffer: Vec<u8> = vec![0u8; CHUNK_SIZE];
    assert(buffer@ =~= Seq::new(CHUNK_SIZE as nat, |i: int| 0u8));
    buffer
}

/// Turns one read of stdin into the frame to send, and says whether it is the last one.
pub fn stdin_frame(read: Option<&[u8]>) -> (r: (ClientFrame, bool))
    ensures
        (r.0@, r.1) == stdin_frame_of(
            match read {
                Some(bytes) => Some(bytes@),
                None => None,
            },
        ),
{
    match read {
        None => (ClientFrame::Cancel, true),
        Some(bytes) => if bytes.len() == 0 {
            (ClientFrame::StdinEof, true)
        } else {
            (ClientFrame::Stdin(vstd::slice::slice_to_vec(bytes)), false)
        },
    }
}

/// What came from the server's side of the connection.
#[derive(Debug, PartialEq, Eq)]
pub enum Received {
    /// A binary message.
    Binary(Vec<u8>),
    /// Any other message.
    Other,
    /// The stream ended.
    Ended,
    /// The stream could not be read, for this reason.
    Failed(String),
}

/// What came from the server's side, over texts and byte sequences.
pub enum ReceivedView {
    Binary(Seq<u8>),
    Other,
    Ended,
    Failed(Seq<char>),
}

impl View for Received {
    type V = ReceivedView;

    open spec fn view(&self) -> ReceivedView {
        match *self {
            Received::Binary(bytes) => ReceivedView::Binary(bytes@),
            Received::Other => ReceivedView::Other,
            Received::Ended => ReceivedView::Ended,
            Received::Failed(cause) => ReceivedView::Failed(cause@),
        }
    }
}

/// What a client session is told.
#[derive(Debug, PartialEq, Eq)]
pub enum ClientEvent {
    /// The frame that was to be sent was sent.
    Sent,
    /// The frame that was to be sent could not be sent, for this reason.
    SendFailed(String),
    /// The user asked to interrupt.
    Interrupted,
    /// Interrupts cannot be listened for, for this reason.
    InterruptUnavailable(String),
    /// The stdin reader produced a frame.
    Stdin(ClientFrame),
    /// The stdin reader produces nothing more.
    StdinEnded,
    /// Something came from the server.
    Message(Received),
    /// Output could not be written, for this reason.
    WriteFailed(String),
}

/// What a client session is told, over texts and byte sequences.
pub enum ClientEventView {
    Sent,
    SendFailed(Seq<char>),
    Interrupted,
    InterruptUnavailable(Seq<char>),
    Stdin(ClientFrameView),
    StdinEnded,
    Message(ReceivedView),
    WriteFailed(Seq<char>),
}

impl View for ClientEvent {
    type V = ClientEventView;

    open spec fn view(&self) -> ClientEventView {
        match *self {
            ClientEvent::Sent => ClientEventView::Sent,
            ClientEvent::SendFailed(cause) => ClientEventView::SendFailed(cause@),
            ClientEvent::Interrupted => ClientEventView::Interrupted,
            ClientEvent::InterruptUnavailable(cause) => ClientEventView::InterruptUnavailable(
                cause@,
            ),
            ClientEvent::Stdin(frame) => ClientEventView::Stdin(frame@),
            ClientEvent::StdinEnded => ClientEventView::StdinEnded,
            ClientEvent::Message(received) => ClientEventView::Message(received@),
            ClientEvent::WriteFailed(cause) => ClientEventView::WriteFailed(cause@),
        }
    }
}

/// What is done for a client session.
#[derive(Debug, PartialEq, Eq)]
pub enum ClientAction {
    /// Wait for the next event.
    Wait,
    /// Send this frame; whether it was sent comes back as an event.
    Send(Vec<u8>),
    /// Write these bytes to stdout; a failure comes back as an event.
    WriteStdout(Vec<u8>),
    /// Write these bytes to stderr; a failure comes back as an event.
    WriteStderr(Vec<u8>),
    /// Close the connection and end with this code.
    CloseAndEnd(i32),
    /// End with this code.
    End(i32),
    /// End with this failure.
    Fail(String),
}

/// What is done for a client session, over texts and byte sequences.
pub enum ClientActionView {
    Wait,
    Send(Seq<u8>),
    WriteStdout(Seq<u8>),
    WriteStderr(Seq<u8>),
    CloseAndEnd(i32),
    End(i32),
    Fail(Seq<char>),
}

impl View for ClientAction {
    type V = ClientActionView;

    open spec fn view(&self) -> ClientActionView {
        match *self {
            ClientAction::Wait => ClientActionView::Wait,
            ClientAction::Send(bytes) => ClientActionView::Send(bytes@),
            ClientAction::WriteStdout(bytes) => ClientActionView::WriteStdout(bytes@),
            ClientAction::WriteStderr(bytes) => ClientActionView::WriteStderr(bytes@),
            ClientAction::CloseAndEnd(code) => ClientActionView::CloseAndEnd(code),
            ClientAction::End(code) => ClientActionView::End(code),
            ClientAction::Fail(text) => ClientActionView::Fail(text@),
        }
    }
}

/// How far a client session has come.
#[derive(Clone, Copy, Debug, PartialEq, Eq, Structural)]
pub enum ClientPhase {
    /// The exec request is being sent.
    Opening,
    /// The command runs.
    Running,
    /// The cancel request is being sent.
    Interrupting,
    /// The session has ended.
    Ended,
}

/// The state of a client session.
#[derive(Clone, Copy, Debug, PartialEq, Eq, Structural)]
pub struct ClientSession {
    /// How far the session has come.
    pub phase: ClientPhase,
    /// Whether stdin is still forwarded.
    pub read_stdin: bool,
    /// The exit code that the server reported last.
    pub exit: Option<i32>,
}

/// A session whose exec request is being sent.
pub open spec fn opened_client() -> ClientSession {
    ClientSession { phase: ClientPhase::Opening, read_stdin: true, exit: None }
}

/// The state `s` once the session has ended.
pub open spec fn ended_client(s: ClientSession) -> ClientSession {
    ClientSession { phase: ClientPhase::Ended, ..s }
}

/// What a failure leads to.
pub open spec fn failed_client(s: ClientSession, text: Seq<char>) -> (
    ClientSession,
    ClientActionView,
) {
    (ended_client(s), ClientActionView::Fail(text))
}

/// What a message from the server leads to while the command runs.
pub open spec fn server_message_step(s: ClientSession, received: ReceivedView) -> (
    ClientSession,
    ClientActionView,
) {
    match received {
        ReceivedView::Binary(bytes) => match server_decoded(bytes) {
            Ok(ServerFrameView::Stdout(bytes)) => (s, ClientActionView::WriteStdout(bytes)),
            Ok(ServerFrameView::Stderr(bytes)) => (s, ClientActionView::WriteStderr(bytes)),
            Ok(ServerFrameView::Exit(code)) => (
                ClientSession { exit: Some(code), ..s },
                ClientActionView::Wait,
            ),
            Ok(ServerFrameView::Error(message)) => failed_client(s, message),
            Err(e) => failed_client(s, in_context(step_text(e.step), cause_text(e.cause))),
        },
        ReceivedView::Ended => (
            ended_client(s),
            ClientActionView::End(
                match s.exit {
                    Some(code) => code,
                    None => FAILED_CODE,
                },
            ),
        ),
        ReceivedView::Failed(cause) => failed_client(
            s,
            in_context("websocket read failed"@, cause),
        ),
        ReceivedView::Other => (s, ClientActionView::Wait),
    }
}

/// What an event leads to. An event that does not belong to the phase changes nothing.
pub open spec fn client_session_step(s: ClientSession, event: ClientEventView) -> (
    ClientSession,
    ClientActionView,
) {
    match (s.phase, event) {
        (ClientPhase::Opening, ClientEventView::Sent) => (
            ClientSession { phase: ClientPhase::Running, ..s },
            ClientActionView::Wait,
        ),
        (ClientPhase::Opening, ClientEventView::SendFailed(cause)) => failed_client(
            s,
            in_context("failed to send exec request"@, cause),
        ),
        (ClientPhase::Running, ClientEventView::Interrupted) => (
            ClientSession { phase: ClientPhase::Interrupting, ..s },
            ClientActionView::Send(client_bytes(ClientFrameView::Cancel)),
        ),
        (ClientPhase::Running, ClientEventView::InterruptUnavailable(cause)) => failed_client(
            s,
            in_context("failed to listen for ctrl-c"@, cause),
        ),
        (ClientPhase::Running, ClientEventView::Stdin(frame)) => if s.read_stdin {
            (
                ClientSession { read_stdin: !(frame is StdinEof || frame is Cancel), ..s },
                ClientActionView::Send(client_bytes(frame)),
            )
        } else {
            (s, ClientActionView::Wait)
        },
        (ClientPhase::Running, ClientEventView::StdinEnded) => (
            ClientSession { read_stdin: false, ..s },
            ClientActionView::Wait,
        ),
        (ClientPhase::Running, ClientEventView::SendFailed(cause)) => failed_client(
            s,
            in_context("failed to send stdin frame"@, cause),
        ),
        (ClientPhase::Running, ClientEventView::Message(received)) => server_message_step(
            s,
            received,
        ),
        (ClientPhase::Running, ClientEventView::WriteFailed(cause)) => failed_client(s, cause),
        (ClientPhase::Interrupting, ClientEventView::Sent) => (
            ended_client(s),
            ClientActionView::CloseAndEnd(INTERRUPTED_CODE),
        ),
        (ClientPhase::Interrupting, ClientEventView::SendFailed(cause)) => failed_client(
            s,
            in_context("failed to send cancel request"@, cause),
        ),
        _ => (s, ClientActionView::Wait),
    }
}

impl ClientSession {
    /// Opens a session and gives the exec frame to send.
    pub fn open(request: ExecRequest) -> (r: (ClientSession, Vec<u8>))
        ensures
            r.0 == opened_client(),
            r.1@ == client_bytes(exec_frame(request@)),
    {
        let frame = ClientFrame::Exec {
            command: request.command,
            forward_env: request.forward_env,
            client_hostname: request.client_hostname,
            client_username: request.client_username,
            client_cwd: request.client_cwd,
        };
        assert(frame@ == exec_frame(request@));
        (
            ClientSession { phase: ClientPhase::Opening, read_stdin: true, exit: None },
            frame.encode(),
        )
    }

    /// Ends the session with a failure.
    fn fail(&mut self, text: String) -> (action: ClientAction)
        ensures
            (*final(self), action@) == failed_client(*old(self), text@),
    {
        self.phase = ClientPhase::Ended;
        ClientAction::Fail(text)
    }

    /// Takes a message from the server while the command runs.
    fn hear(&mut self, received: Received) -> (action: ClientAction)
        ensures
            (*final(self), action@) == server_message_step(*old(self), received@),
    {
        match received {
            Received::Binary(bytes) => match DecodedServerFrame::decode(bytes.as_slice()) {
                Ok(DecodedServerFrame::Stdout(bytes)) => ClientAction::WriteStdout(
                    vstd::slice::slice_to_vec(bytes),
                ),
                Ok(DecodedServerFrame::Stderr(bytes)) => ClientAction::WriteStderr(
                    vstd::slice::slice_to_vec(bytes),
                ),
                Ok(DecodedServerFrame::Exit(code)) => {
                    self.exit = Some(code);
                    ClientAction::Wait
                },
                Ok(DecodedServerFrame::Error(message)) => self.fail(message),
                Err(e) => self.fail(e.chain()),
            },
            Received::Ended => {
                let code: i32 = match self.exit {
                    Some(code) => code,
                    None => FAILED_CODE,
                };
                self.phase = ClientPhase::Ended;
                ClientAction::End(code)
            },
            Received::Failed(cause) => self.fail(
                with_context("websocket read failed", cause.as_str()),
            ),
            Received::Other => ClientAction::Wait,
        }
    }

    /// Takes a frame of the stdin reader while the command runs.
    fn forward(&mut self, frame: ClientFrame) -> (action: ClientAction)
        requires
            old(self).phase == ClientPhase::Running,
        ensures
            (*final(self), action@) == client_session_step(
                *old(self),
                ClientEventView::Stdin(frame@),
            ),
    {
        if !self.read_stdin {
            return ClientAction::Wait;
        }
        self.read_stdin = match frame {
            ClientFrame::StdinEof | ClientFrame::Cancel => false,
            _ => true,
        };
        ClientAction::Send(frame.encode())
    }

    /// Takes an event and says what to do.
    pub fn step(&mut self, event: ClientEvent) -> (action: ClientAction)
        ensures
            (*final(self), action@) == client_session_step(*old(self), event@),
    {
        match (self.phase, event) {
            (ClientPhase::Opening, ClientEvent::Sent) => {
                self.phase = ClientPhase::Running;
                ClientAction::Wait
            },
            (ClientPhase::Opening, ClientEvent::SendFailed(cause)) => self.fail(
                with_context("failed to send exec request", cause.as_str()),
            ),
            (ClientPhase::Running, ClientEvent::Interrupted) => {
                self.phase = ClientPhase::Interrupting;
                ClientAction::Send(ClientFrame::Cancel.encode())
            },
            (ClientPhase::Running, ClientEvent::InterruptUnavailable(cause)) => self.fail(
                with_context("failed to listen for ctrl-c", cause.as_str()),
            ),
            (ClientPhase::Running, ClientEvent::Stdin(frame)) => self.forward(frame),
            (ClientPhase::Running, ClientEvent::StdinEnded) => {
                self.read_stdin = false;
                ClientAction::Wait
            },
            (ClientPhase::Running, ClientEvent::SendFailed(cause)) => self.fail(
                with_context("failed to send stdin frame", cause.as_str()),
            ),
            (ClientPhase::Running, ClientEvent::Message(received)) => self.hear(received),
            (ClientPhase::Running, ClientEvent::WriteFailed(cause)) => self.fail(cause),
            (ClientPhase::Interrupting, ClientEvent::Sent) => {
                self.phase = ClientPhase::Ended;
                ClientAction::CloseAndEnd(INTERRUPTED_CODE)
            },
            (ClientPhase::Interrupting, ClientEvent::SendFailed(cause)) => self.fail(
                with_context("failed to send cancel request", cause.as_str()),
            ),
            _ => ClientAction::Wait,
        }
    }
}

/// How a client process ends: its exit code and what it says on stderr, if anything.
#[derive(Debug, PartialEq, Eq)]
pub struct ClientOutcome {
    /// The exit code of the process.
    pub code: i32,
    /// The line for stderr.
    pub complaint: Option<String>,
}

/// How a client process ends whose session gave an exit code or failed: its exit code, and what it
/// says on stderr, if anything.
pub open spec fn outcome_of(result: Result<i32, Seq<char>>) -> (i32, Option<Seq<char>>) {
    match result {
        Ok(code) => (code, None),
        Err(text) => (FAILED_CODE, Some("Error: "@ + text)),
    }
}

/// Says how a client process ends whose session gave an exit code or failed.
pub fn client_outcome(result: Result<i32, String>) -> (r: ClientOutcome)
    ensures
        match result {
            Ok(code) => r.code == code && r.complaint is None,
            Err(text) => r.code == FAILED_CODE && r.complaint is Some
                && r.complaint->Some_0@ == "Error: "@ + text@,
        },
        outcome_of(
            match result {
                Ok(code) => Ok(code),
                Err(text) => Err(text@),
            },
        ) == (
            r.code,
            match r.complaint {
                Some(line) => Some(line@),
                None => None,
            },
        ),
{
    match result {
        Ok(code) => ClientOutcome { code, complaint: None },
        Err(text) => ClientOutcome {
            code: FAILED_CODE,
            complaint: Some(concat2("Error: ", text.as_str())),
        },
    }
}

} // verus!
