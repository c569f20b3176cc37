//! The laws of the models: what is said of a value is said of all of it.

use crate::cli::{
    bytes_of, CliError, CliErrorView, Commands, CommandsView, ConnectionArgs, ExecArgs,
    ParserAnswer, ServerArgs, StopArgs,
};
use crate::client::{
    ClientAction, ClientActionView, ClientEvent, ClientEventView, Received, ReceivedView,
};
use crate::command::{RunAction, RunActionView, RunEvent, RunEventView};
use crate::config::{path_option, HostPath};
use crate::daemon::{
    settings_of, LaunchAction, LaunchActionView, LaunchEvent, LaunchEventView, LaunchSetting,
    ReadyFile, ReadyFileView, StartVerdict, StartVerdictView,
};
use crate::failure::Failure;
use crate::protocol::{
    vars_of, ClientFrame, ClientFrameView, DecodedServerFrame, EnvVarView, ForwardedEnvVar,
    ServerControlFrame, ServerFrameView,
};
use crate::session::{
    ActionView, CancelReason, EventView, ExecRequest, Incoming, IncomingView, SessionAction,
    SessionEvent,
};
use crate::ssh::{ServeEnd, ServeEndView};
use crate::startup::{
    Startup, StartupAction, StartupActionView, StartupEvent, StartupEventView,
};
use crate::stop::{
    PidError, PidErrorView, StopAction, StopActionView, StopEvent, StopEventView, StopSignal,
    StopTarget,
};
use crate::text::texts_of;
use vstd::prelude::*;

verus! {

/// A list of texts is all of its texts, in their order.
pub proof fn law_lists_are_kept(
    texts: Seq<String>,
    vars: Seq<ForwardedEnvVar>,
    settings: Seq<LaunchSetting>,
    values: Seq<Vec<u8>>,
    i: int,
)
    ensures
        texts_of(texts).len() == texts.len(),
        0 <= i < texts.len() ==> texts_of(texts)[i] == texts[i]@,
        vars_of(vars).len() == vars.len(),
        0 <= i < vars.len() ==> vars_of(vars)[i].name == vars[i].name@ && vars_of(vars)[i].value
            == vars[i].value@,
        settings_of(settings).len() == settings.len(),
        0 <= i < settings.len() ==> settings_of(settings)[i].name == settings[i].name@,
        0 <= i < settings.len() ==> (settings[i].value matches Some(value) ==> settings_of(
            settings,
        )[i].value == Some(value@)),
        0 <= i < settings.len() && settings[i].value is None ==> settings_of(settings)[i].value
            is None,
        bytes_of(values).len() == values.len(),
        0 <= i < values.len() ==> bytes_of(values)[i] == values[i]@,
{
}

/// A path is its bytes, and a failure its links.
pub proof fn law_paths_and_failures_are_kept(path: HostPath, failure: Failure, i: int)
    ensures
        path@ == path.bytes@,
        path_option(Some(&path)) == Some(path.bytes@),
        path_option(None) is None,
        failure@.len() == failure.links@.len(),
        0 <= i < failure.links@.len() ==> failure@[i] == failure.links@[i]@,
{
}

/// A request is its words, its variables, and who asked.
pub proof fn law_requests_are_kept(request: ExecRequest, i: int)
    ensures
        request@.command.len() == request.command@.len(),
        0 <= i < request.command@.len() ==> request@.command[i] == request.command@[i]@,
        request@.forward_env.len() == request.forward_env@.len(),
        0 <= i < request.forward_env@.len() ==> request@.forward_env[i] == (EnvVarView {
            name: request.forward_env@[i].name@,
            value: request.forward_env@[i].value@,
        }),
        request@.client_hostname == request.client_hostname@,
        request@.client_username == request.client_username@,
        request@.client_cwd == request.client_cwd@,
{
}

/// A client frame is its values.
pub proof fn law_client_frames_are_kept(
    command: Vec<String>,
    forward_env: Vec<ForwardedEnvVar>,
    client_hostname: String,
    client_username: String,
    client_cwd: String,
    bytes: Vec<u8>,
)
    ensures
        (ClientFrame::Exec { command, forward_env, client_hostname, client_username, client_cwd })@
            == (ClientFrameView::Exec {
            command: texts_of(command@),
            forward_env: vars_of(forward_env@),
            client_hostname: client_hostname@,
            client_username: client_username@,
            client_cwd: client_cwd@,
        }),
        ClientFrame::Cancel@ == ClientFrameView::Cancel,
        ClientFrame::Stdin(bytes)@ == ClientFrameView::Stdin(bytes@),
        ClientFrame::StdinEof@ == ClientFrameView::StdinEof,
{
}

/// A server frame is its value.
pub proof fn law_server_frames_are_kept(bytes: &[u8], code: i32, message: String)
    ensures
        ServerControlFrame::Exit(code)@ == ServerFrameView::Exit(code),
        ServerControlFrame::Error(message)@ == ServerFrameView::Error(message@),
        DecodedServerFrame::Stdout(bytes)@ == ServerFrameView::Stdout(bytes@),
        DecodedServerFrame::Stderr(bytes)@ == ServerFrameView::Stderr(bytes@),
        DecodedServerFrame::Exit(code)@ == ServerFrameView::Exit(code),
        DecodedServerFrame::Error(message)@ == ServerFrameView::Error(message@),
{
}

/// A command line is its arguments.
pub proof fn law_command_lines_are_kept(
    connection: ConnectionArgs,
    server: ServerArgs,
    stop: StopArgs,
    exec: ExecArgs,
)
    ensures
        connection@.secret == connection.secret@,
        connection@.port == connection.port,
        connection@.host == connection.host@,
        Commands::Server(server)@ matches CommandsView::Server {
            connection,
            log_file,
            pid_file,
            daemon,
            ssh_forward,
            ssh_forward_port,
            allow,
        } && {
            &&& connection.secret == server.connection.secret@
            &&& connection.port == server.connection.port
            &&& connection.host == server.connection.host@
            &&& log_file is None <==> server.log_file is None
            &&& server.log_file matches Some(path) ==> log_file == Some(path.bytes@)
            &&& pid_file == server.pid_file.bytes@
            &&& daemon == server.daemon
            &&& ssh_forward is None <==> server.ssh_forward is None
            &&& server.ssh_forward matches Some(hostname) ==> ssh_forward == Some(hostname@)
            &&& ssh_forward_port == server.ssh_forward_port
            &&& allow == texts_of(server.allow@)
        },
        Commands::Stop(stop)@ == (CommandsView::Stop { pid_file: stop.pid_file.bytes@ }),
        Commands::Exec(exec)@ matches CommandsView::Exec { connection, command } && {
            &&& connection.secret == exec.connection.secret@
            &&& connection.port == exec.connection.port
            &&& connection.host == exec.connection.host@
            &&& command == texts_of(exec.command@)
        },
{
}

/// What is wrong with a command line is what it is called.
pub proof fn law_command_line_errors_are_kept(
    name: String,
    id: &'static str,
    answer: ParserAnswer,
)
    ensures
        CliError::MissingSubcommand@ == CliErrorView::MissingSubcommand,
        CliError::UnknownSubcommand(name)@ == CliErrorView::UnknownSubcommand(name@),
        CliError::MissingArgument(id)@ == CliErrorView::MissingArgument(id@),
        CliError::InvalidArgument(id)@ == CliErrorView::InvalidArgument(id@),
        answer@ == (answer.text@, answer.code, answer.on_stderr),
{
}

/// What a connection is told is all that it is told.
pub proof fn law_connection_events_are_kept(bytes: Vec<u8>, code: i32, failure: Failure)
    ensures
        Incoming::Binary(bytes)@ == IncomingView::Binary(bytes@),
        Incoming::Close@ == IncomingView::Close,
        Incoming::Other@ == IncomingView::Other,
        Incoming::Ended@ == IncomingView::Ended,
        Incoming::Failed@ == IncomingView::Failed,
        SessionEvent::Message(Incoming::Binary(bytes))@ == EventView::Message(
            IncomingView::Binary(bytes@),
        ),
        SessionEvent::Message(Incoming::Close)@ == EventView::Message(IncomingView::Close),
        SessionEvent::Message(Incoming::Other)@ == EventView::Message(IncomingView::Other),
        SessionEvent::Message(Incoming::Ended)@ == EventView::Message(IncomingView::Ended),
        SessionEvent::Message(Incoming::Failed)@ == EventView::Message(IncomingView::Failed),
        SessionEvent::Accepted@ == EventView::Accepted,
        SessionEvent::ActorStopped@ == EventView::ActorStopped,
        SessionEvent::Output(bytes)@ == EventView::Output(bytes@),
        SessionEvent::Exited(code)@ == EventView::Exited(code),
        SessionEvent::OutputEnded@ == EventView::OutputEnded,
        SessionEvent::SendFailed@ == EventView::SendFailed,
        SessionEvent::StdinRefused@ == EventView::StdinRefused,
        SessionEvent::Finished@ == EventView::Finished,
        SessionEvent::Failed(failure)@ == EventView::Failed(texts_of(failure.links@)),
        SessionEvent::Lost@ == EventView::Lost,
{
}

/// What is done for a connection is all that is said of it.
pub proof fn law_connection_actions_are_kept(
    bytes: Vec<u8>,
    words: Vec<String>,
    request: ExecRequest,
    reason: CancelReason,
    text: String,
    signal: bool,
)
    ensures
        SessionAction::Wait@ == ActionView::Wait,
        SessionAction::Leave@ == ActionView::Leave,
        SessionAction::Reply(bytes)@ == ActionView::Reply(bytes@),
        (SessionAction::Reject { command: words, frame: bytes })@ == (ActionView::Reject {
            command: texts_of(words@),
            frame: bytes@,
        }),
        SessionAction::Start(request)@ == ActionView::Start(request@),
        SessionAction::Send(bytes)@ == ActionView::Send(bytes@),
        SessionAction::WriteStdin(bytes)@ == ActionView::WriteStdin(bytes@),
        SessionAction::CloseStdin@ == ActionView::CloseStdin,
        SessionAction::IgnoreExec@ == ActionView::IgnoreExec,
        (SessionAction::Cancel { reason, frame_error: Some(text), signal })@ == (ActionView::Cancel {
            reason,
            frame_error: Some(text@),
            signal,
        }),
        (SessionAction::Cancel { reason, frame_error: None, signal })@ == (ActionView::Cancel {
            reason,
            frame_error: None,
            signal,
        }),
        (SessionAction::CancelAndLeave { signal })@ == (ActionView::CancelAndLeave { signal }),
        SessionAction::AwaitReport@ == ActionView::AwaitReport,
        SessionAction::Close@ == ActionView::Close,
{
}

/// What a client is told is all that it is told, and what it does all that is said of it.
pub proof fn law_client_sessions_are_kept(
    bytes: Vec<u8>,
    text: String,
    frame: ClientFrame,
    code: i32,
)
    ensures
        Received::Binary(bytes)@ == ReceivedView::Binary(bytes@),
        Received::Other@ == ReceivedView::Other,
        Received::Ended@ == ReceivedView::Ended,
        Received::Failed(text)@ == ReceivedView::Failed(text@),
        ClientEvent::Sent@ == ClientEventView::Sent,
        ClientEvent::SendFailed(text)@ == ClientEventView::SendFailed(text@),
        ClientEvent::Interrupted@ == ClientEventView::Interrupted,
        ClientEvent::InterruptUnavailable(text)@ == ClientEventView::InterruptUnavailable(text@),
        ClientEvent::Stdin(frame)@ == ClientEventView::Stdin(frame@),
        ClientEvent::StdinEnded@ == ClientEventView::StdinEnded,
        ClientEvent::Message(Received::Binary(bytes))@ == ClientEventView::Message(
            ReceivedView::Binary(bytes@),
        ),
        ClientEvent::Message(Received::Other)@ == ClientEventView::Message(ReceivedView::Other),
        ClientEvent::Message(Received::Ended)@ == ClientEventView::Message(ReceivedView::Ended),
        ClientEvent::Message(Received::Failed(text))@ == ClientEventView::Message(
            ReceivedView::Failed(text@),
        ),
        ClientEvent::WriteFailed(text)@ == ClientEventView::WriteFailed(text@),
        ClientAction::Wait@ == ClientActionView::Wait,
        ClientAction::Send(bytes)@ == ClientActionView::Send(bytes@),
        ClientAction::WriteStdout(bytes)@ == ClientActionView::WriteStdout(bytes@),
        ClientAction::WriteStderr(bytes)@ == ClientActionView::WriteStderr(bytes@),
        ClientAction::CloseAndEnd(code)@ == ClientActionView::CloseAndEnd(code),
        ClientAction::End(code)@ == ClientActionView::End(code),
        ClientAction::Fail(text)@ == ClientActionView::Fail(text@),
{
}

/// What a command's run is told is all that it is told, and what is done for it all that is said of
/// it.
pub proof fn law_runs_are_kept(
    code: Option<i32>,
    pid: Option<u32>,
    group: u32,
    reported: i32,
    failure: Failure,
    text: String,
)
    ensures
        RunEvent::Exited(code)@ == RunEventView::Exited(code),
        RunEvent::WaitFailed(failure)@ == RunEventView::WaitFailed(texts_of(failure.links@)),
        RunEvent::Cancelled(pid)@ == RunEventView::Cancelled(pid),
        RunEvent::GraceElapsed(pid)@ == RunEventView::GraceElapsed(pid),
        RunEvent::Killed@ == RunEventView::Killed,
        RunEvent::KillFailed(failure)@ == RunEventView::KillFailed(texts_of(failure.links@)),
        RunEvent::StreamEnded@ == RunEventView::StreamEnded,
        RunEvent::StreamFailed(failure)@ == RunEventView::StreamFailed(texts_of(failure.links@)),
        RunEvent::StreamPanicked(failure)@ == RunEventView::StreamPanicked(
            texts_of(failure.links@),
        ),
        RunEvent::Reported@ == RunEventView::Reported,
        RunEvent::ReportRefused(failure)@ == RunEventView::ReportRefused(texts_of(failure.links@)),
        RunAction::Wait@ == RunActionView::Wait,
        RunAction::Terminate(pid)@ == RunActionView::Terminate(pid),
        RunAction::KillGroup(group)@ == RunActionView::KillGroup(group),
        RunAction::KillProcess@ == RunActionView::KillProcess,
        RunAction::Reap@ == RunActionView::Reap,
        RunAction::AwaitStdout@ == RunActionView::AwaitStdout,
        RunAction::AwaitStderr@ == RunActionView::AwaitStderr,
        RunAction::Report(reported)@ == RunActionView::Report(reported),
        RunAction::Finish@ == RunActionView::Finish,
        (RunAction::Fail { failure, cause: Some(text) })@ == (RunActionView::Fail {
            failure: texts_of(failure.links@),
            cause: Some(text@),
        }),
        (RunAction::Fail { failure, cause: None })@ == (RunActionView::Fail {
            failure: texts_of(failure.links@),
            cause: None,
        }),
{
}

/// What starting a server is told is all that it is told, and what is done all that is said of it.
pub proof fn law_startups_are_kept(
    startup: Startup,
    failure: Failure,
    text: String,
)
    ensures
        startup@.phase == startup.phase,
        startup@.log_file is None <==> startup.log_file is None,
        startup.log_file matches Some(path) ==> startup@.log_file == Some(path.bytes@),
        startup@.pid_file == startup.pid_file.bytes@,
        startup@.address == startup.address@,
        startup@.forward is None <==> startup.forward is None,
        startup.forward matches Some(line) ==> startup@.forward == Some(line@),
        startup@.ready_file is None <==> startup.ready_file is None,
        startup.ready_file matches Some(path) ==> startup@.ready_file == Some(path.bytes@),
        StartupEvent::Succeeded@ == StartupEventView::Succeeded,
        StartupEvent::Failed(failure)@ == StartupEventView::Failed(texts_of(failure.links@)),
        StartupEvent::Resolved(text)@ == StartupEventView::Resolved(text@),
        StartupEvent::Ended(ServeEnd::Server)@ == StartupEventView::Ended(ServeEndView::Server),
        StartupEvent::Ended(ServeEnd::ServerFailed(failure))@ == StartupEventView::Ended(
            ServeEndView::ServerFailed(texts_of(failure.links@)),
        ),
        StartupEvent::Ended(ServeEnd::ForwardExited(failure))@ == StartupEventView::Ended(
            ServeEndView::ForwardExited(texts_of(failure.links@)),
        ),
        StartupEvent::Ended(ServeEnd::ForwardPanicked(failure))@ == StartupEventView::Ended(
            ServeEndView::ForwardPanicked(texts_of(failure.links@)),
        ),
        StartupAction::PrepareLog@ == StartupActionView::PrepareLog,
        StartupAction::Resolve@ == StartupActionView::Resolve,
        StartupAction::Bind@ == StartupActionView::Bind,
        StartupAction::CreatePidDirectory@ == StartupActionView::CreatePidDirectory,
        StartupAction::WritePid@ == StartupActionView::WritePid,
        StartupAction::Forward@ == StartupActionView::Forward,
        StartupAction::Ready@ == StartupActionView::Ready,
        StartupAction::Serve@ == StartupActionView::Serve,
        StartupAction::Finish@ == StartupActionView::Finish,
        (StartupAction::Fail { failure, report: Some(text) })@ == (StartupActionView::Fail {
            failure: texts_of(failure.links@),
            report: Some(text@),
        }),
        (StartupAction::Fail { failure, report: None })@ == (StartupActionView::Fail {
            failure: texts_of(failure.links@),
            report: None,
        }),
        StartupAction::Rest@ == StartupActionView::Rest,
{
}

/// What stopping a daemon is told is all that it is told, and what is done all that is said of it.
pub proof fn law_stops_are_kept(
    failure: Failure,
    text: String,
    cause: String,
    pause: bool,
    target: StopTarget,
    signal: StopSignal,
)
    ensures
        PidError::Empty@ == PidErrorView::Empty,
        (PidError::Invalid { text, cause })@ == (PidErrorView::Invalid {
            text: text@,
            cause: cause@,
        }),
        PidError::NotPositive@ == PidErrorView::NotPositive,
        StopEvent::Delivered@ == StopEventView::Delivered,
        StopEvent::Gone(failure)@ == StopEventView::Gone(texts_of(failure.links@)),
        StopEvent::Failed(failure)@ == StopEventView::Failed(texts_of(failure.links@)),
        (StopAction::Signal { pause, target, signal })@ == (StopActionView::Signal {
            pause,
            target,
            signal,
        }),
        StopAction::Finish@ == StopActionView::Finish,
        (StopAction::Fail { pause, failure })@ == (StopActionView::Fail {
            pause,
            failure: texts_of(failure.links@),
        }),
        StopAction::Rest@ == StopActionView::Rest,
{
}

/// What launching a daemon is told is all that it is told, and what is done all that is said of it.
pub proof fn law_launches_are_kept(
    failure: Failure,
    text: String,
    file: ReadyFile,
    remove: bool,
    pause: bool,
)
    ensures
        ReadyFile::Contents(text)@ == ReadyFileView::Contents(text@),
        ReadyFile::Missing@ == ReadyFileView::Missing,
        ReadyFile::Unreadable(failure)@ == ReadyFileView::Unreadable(texts_of(failure.links@)),
        StartVerdict::Ready@ == StartVerdictView::Ready,
        (StartVerdict::Failed { failure, remove })@ == (StartVerdictView::Failed {
            failure: texts_of(failure.links@),
            remove,
        }),
        StartVerdict::Waiting@ == StartVerdictView::Waiting,
        LaunchEvent::Succeeded@ == LaunchEventView::Succeeded,
        LaunchEvent::Failed(failure)@ == LaunchEventView::Failed(texts_of(failure.links@)),
        (LaunchEvent::Looked { exited: Some(text), file })@ == (LaunchEventView::Looked {
            exited: Some(text@),
            file: file@,
        }),
        (LaunchEvent::Looked { exited: None, file })@ == (LaunchEventView::Looked {
            exited: None,
            file: file@,
        }),
        LaunchAction::CreatePidDirectory@ == LaunchActionView::CreatePidDirectory,
        LaunchAction::CreateLogDirectory@ == LaunchActionView::CreateLogDirectory,
        LaunchAction::NameReadyFile@ == LaunchActionView::NameReadyFile,
        LaunchAction::Locate@ == LaunchActionView::Locate,
        LaunchAction::Spawn@ == LaunchActionView::Spawn,
        (LaunchAction::Look { pause })@ == (LaunchActionView::Look { pause }),
        LaunchAction::Finish@ == LaunchActionView::Finish,
        (LaunchAction::Fail { failure, remove })@ == (LaunchActionView::Fail {
            failure: texts_of(failure.links@),
            remove,
        }),
        LaunchAction::Rest@ == LaunchActionView::Rest,
{
}

} // verus!
