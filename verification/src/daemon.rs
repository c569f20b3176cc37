//! The daemon: when and how the server is started again in the background, and how the launcher
//! learns whether it started.

use crate::cli::ServerArgs;
use crate::config::{
    joined_path, path_option, HomeNotSet, HostPath, ALLOW_ENV_VAR, DAEMON_READY_FILE_ENV_VAR,
    HOST_ENV_VAR, LOG_FILE_ENV_VAR, PID_FILE_ENV_VAR, PORT_ENV_VAR, SECRET_ENV_VAR,
    SSH_FORWARD_ENV_VAR, SSH_FORWARD_PORT_ENV_VAR,
};
use crate::failure::{within, Failure};
use crate::server::{daemon_log_file_of, effective_daemon_log_file, effective_pid_file, pid_file_of};
use crate::text::{
    concat2, concat3, decimal, decimal_text, join_texts, joined, lossy_text, same_text,
    starts_with, strip_prefix, texts_of, trim_end, trimmed_end, utf8_lossy, white_space,
};
use vstd::prelude::*;
use vstd::utf8::encode_utf8;

verus! {

/// Status written by the daemon child after successful startup.
pub const DAEMON_READY_OK: &'static str = "OK\n";

/// Prefix written by the daemon child before a startup error message.
pub const DAEMON_READY_ERR_PREFIX: &'static str = "ERR ";

/// Milliseconds between two looks of the launcher at the daemon child.
pub const DAEMON_READY_POLL_MILLIS: u64 = 50;

/// Whether a process only launches the daemon: it is to run a daemon, and nobody waits for it.
pub open spec fn launches(daemon: bool, told_ready_file: bool) -> bool {
    daemon && !told_ready_file
}

/// Says whether this process only launches the daemon. The process that it launches is told a
/// readiness file, and so runs the server itself.
pub fn is_launcher(daemon: bool, told_ready_file: bool) -> (r: bool)
    ensures
        r == (daemon && !told_ready_file),
        r == launches(daemon, told_ready_file),
{
    daemon && !told_ready_file
}

/// The readiness file of a server, by the daemon setting and the test-only setting.
pub open spec fn ready_file_in(daemon: Option<HostPath>, test: Option<HostPath>) -> Option<
    HostPath,
> {
    match daemon {
        Some(path) => Some(path),
        None => test,
    }
}

/// Returns the server readiness file path from the daemon or the test-only setting.
pub fn server_ready_file(daemon: Option<HostPath>, test: Option<HostPath>) -> (r: Option<HostPath>)
    ensures
        r == match daemon {
            Some(path) => Some(path),
            None => test,
        },
        r == ready_file_in(daemon, test),
{
    match daemon {
        Some(path) => Some(path),
        None => test,
    }
}

/// An environment variable of the daemon child: its value, or nothing where it is removed.
#[derive(Debug, PartialEq, Eq)]
pub struct LaunchSetting {
    /// The name of the variable.
    pub name: &'static str,
    /// The value to set, if any.
    pub value: Option<Vec<u8>>,
}

/// An environment variable of the daemon child over a text and bytes.
pub struct LaunchSettingView {
    pub name: Seq<char>,
    pub value: Option<Seq<u8>>,
}

impl View for LaunchSetting {
    type V = LaunchSettingView;

    open spec fn view(&self) -> LaunchSettingView {
        LaunchSettingView {
            name: self.name@,
            value: match self.value {
                Some(value) => Some(value@),
                None => None,
            },
        }
    }
}

/// The environment variables of the daemon child over texts and bytes.
pub open spec fn settings_of(list: Seq<LaunchSetting>) -> Seq<LaunchSettingView> {
    Seq::new(list.len(), |i: int| list[i]@)
}

/// A variable that is set.
pub open spec fn set_to(name: Seq<char>, value: Seq<u8>) -> LaunchSettingView {
    LaunchSettingView { name, value: Some(value) }
}

/// The environment of the daemon child: what the launcher resolved, so that the child does not
/// resolve it again.
pub open spec fn launch_settings(
    args: &ServerArgs,
    log_file: Seq<u8>,
    pid_file: Seq<u8>,
    ready_file: Seq<u8>,
) -> Seq<LaunchSettingView> {
    seq![
        set_to(SECRET_ENV_VAR@, encode_utf8(args.connection.secret@)),
        set_to(PORT_ENV_VAR@, encode_utf8(decimal(args.connection.port as nat))),
        set_to(HOST_ENV_VAR@, encode_utf8(args.connection.host@)),
        set_to(LOG_FILE_ENV_VAR@, log_file),
        set_to(PID_FILE_ENV_VAR@, pid_file),
        set_to(DAEMON_READY_FILE_ENV_VAR@, ready_file),
        LaunchSettingView {
            name: SSH_FORWARD_ENV_VAR@,
            value: match args.ssh_forward {
                Some(hostname) => Some(encode_utf8(hostname@)),
                None => None,
            },
        },
        LaunchSettingView {
            name: SSH_FORWARD_PORT_ENV_VAR@,
            value: match args.ssh_forward_port {
                Some(port) => Some(encode_utf8(decimal(port as nat))),
                None => None,
            },
        },
        LaunchSettingView {
            name: ALLOW_ENV_VAR@,
            value: if args.allow@.len() == 0 {
                None
            } else {
                Some(encode_utf8(joined(texts_of(args.allow@), ","@)))
            },
        },
    ]
}

/// How the daemon child is launched.
#[derive(Debug, PartialEq, Eq)]
pub struct LaunchPlan {
    /// The arguments of the child.
    pub args: Vec<&'static str>,
    /// The changes to its environment.
    pub settings: Vec<LaunchSetting>,
}

/// The bytes of a text.
fn bytes_of(text: &str) -> (r: Vec<u8>)
    ensures
        r@ == encode_utf8(text@),
{
    vstd::slice::slice_to_vec(text.as_bytes())
}

/// The arguments of the daemon child.
pub open spec fn launch_words() -> Seq<Seq<char>> {
    seq!["server"@, "--daemon"@]
}

/// Plans how the daemon child is launched.
pub fn plan_launch(
    args: &ServerArgs,
    log_file: &HostPath,
    pid_file: &HostPath,
    ready_file: &HostPath,
) -> (plan: LaunchPlan)
    ensures
        plan.args@.len() == 2,
        plan.args@[0]@ == "server"@,
        plan.args@[1]@ == "--daemon"@,
        plan.args@.map_values(|word: &'static str| word@) == launch_words(),
        settings_of(plan.settings@) == launch_settings(args, log_file@, pid_file@, ready_file@),
{
    let mut words: Vec<&'static str> = Vec::new();
    words.push("server");
    words.push("--daemon");

    let mut settings: Vec<LaunchSetting> = Vec::new();
    settings.push(
        LaunchSetting {
            name: SECRET_ENV_VAR,
            value: Some(bytes_of(args.connection.secret.as_str())),
        },
    );
    settings.push(
        LaunchSetting {
            name: PORT_ENV_VAR,
            value: Some(bytes_of(decimal_text(args.connection.port as u128).as_str())),
        },
    );
    settings.push(
        LaunchSetting {
            name: HOST_ENV_VAR,
            value: Some(bytes_of(args.connection.host.as_str())),
        },
    );
    settings.push(LaunchSetting { name: LOG_FILE_ENV_VAR, value: Some(log_file.copy().bytes) });
    settings.push(LaunchSetting { name: PID_FILE_ENV_VAR, value: Some(pid_file.copy().bytes) });
    settings.push(
        LaunchSetting { name: DAEMON_READY_FILE_ENV_VAR, value: Some(ready_file.copy().bytes) },
    );
    let ssh_forward: Option<Vec<u8>> = match &args.ssh_forward {
        Some(hostname) => Some(bytes_of(hostname.as_str())),
        None => None,
    };
    settings.push(LaunchSetting { name: SSH_FORWARD_ENV_VAR, value: ssh_forward });
    let ssh_forward_port: Option<Vec<u8>> = match args.ssh_forward_port {
        Some(port) => Some(bytes_of(decimal_text(port as u128).as_str())),
        None => None,
    };
    settings.push(LaunchSetting { name: SSH_FORWARD_PORT_ENV_VAR, value: ssh_forward_port });
    let allow: Option<Vec<u8>> = if args.allow.len() == 0 {
        None
    } else {
        Some(bytes_of(join_texts(&args.allow, ",").as_str()))
    };
    settings.push(LaunchSetting { name: ALLOW_ENV_VAR, value: allow });
    assert(settings_of(settings@) =~= launch_settings(args, log_file@, pid_file@, ready_file@));
    assert(words@.map_values(|word: &'static str| word@) =~= launch_words());
    LaunchPlan { args: words, settings }
}

/// The files that a launcher resolves.
#[derive(Debug, PartialEq, Eq)]
pub struct DaemonFiles {
    /// The pid file.
    pub pid_file: HostPath,
    /// The log file.
    pub log_file: HostPath,
}

/// Resolves the files of a daemon.
pub fn resolve_daemon_files(args: &ServerArgs, home: Option<&HostPath>) -> (r: Result<
    DaemonFiles,
    HomeNotSet,
>)
    ensures
        r is Ok == (pid_file_of(args, path_option(home)) is Ok && daemon_log_file_of(
            args,
            path_option(home),
        ) is Ok),
        r matches Ok(files) ==> {
            &&& pid_file_of(args, path_option(home)) == Ok::<Seq<u8>, HomeNotSet>(files.pid_file@)
            &&& daemon_log_file_of(args, path_option(home)) == Ok::<Seq<u8>, HomeNotSet>(
                files.log_file@,
            )
        },
{
    let pid_file = effective_pid_file(args, home)?;
    let log_file = effective_daemon_log_file(args, home)?;
    Ok(DaemonFiles { pid_file, log_file })
}

/// The name of a readiness file, told apart by the launcher's process id and the time.
pub open spec fn ready_file_name(pid: u32, nanos: u128) -> Seq<char> {
    "server.ready."@ + decimal(pid as nat) + "."@ + decimal(nanos as nat)
}

/// The path of a readiness file: in the directory of the pid file, where it has one, or else in the
/// directory for temporary files.
pub open spec fn ready_file_path(
    pid_file_directory: Option<Seq<u8>>,
    temporary_directory: Seq<u8>,
    pid: u32,
    nanos: u128,
) -> Seq<u8> {
    let directory = match pid_file_directory {
        Some(directory) => if directory.len() > 0 {
            directory
        } else {
            temporary_directory
        },
        None => temporary_directory,
    };
    joined_path(directory, encode_utf8(ready_file_name(pid, nanos)))
}

/// Returns a temporary readiness file path in the directory of the pid file, where it has one, or
/// else in the directory for temporary files.
pub fn daemon_ready_file_path(
    pid_file_directory: Option<&HostPath>,
    temporary_directory: &HostPath,
    pid: u32,
    nanos: u128,
) -> (path: HostPath)
    ensures
        path@ == joined_path(
            match pid_file_directory {
                Some(directory) => if directory@.len() > 0 {
                    directory@
                } else {
                    temporary_directory@
                },
                None => temporary_directory@,
            },
            encode_utf8(ready_file_name(pid, nanos)),
        ),
        path@ == ready_file_path(
            path_option(pid_file_directory),
            temporary_directory@,
            pid,
            nanos,
        ),
{
    let mut name = concat3("server.ready.", decimal_text(pid as u128).as_str(), ".");
    name.append(decimal_text(nanos).as_str());
    let directory = match pid_file_directory {
        Some(directory) => if directory.bytes.len() > 0 {
            directory
        } else {
            temporary_directory
        },
        None => temporary_directory,
    };
    directory.join(name.as_str().as_bytes())
}

/// What a server that failed to start writes into its readiness file.
pub open spec fn ready_error_contents(error: Seq<char>) -> Seq<char> {
    DAEMON_READY_ERR_PREFIX@ + error + "\n"@
}

/// Writes what a server that failed to start writes into its readiness file.
pub fn format_ready_error(error: &str) -> (r: String)
    ensures
        r@ == ready_error_contents(error@),
{
    concat3(DAEMON_READY_ERR_PREFIX, error, "\n")
}

/// The startup error in the contents of a readiness file, if there is one.
pub open spec fn ready_error_in(contents: Seq<char>) -> Option<Seq<char>> {
    if starts_with(contents, DAEMON_READY_ERR_PREFIX@) {
        Some(trimmed_end(contents.skip(DAEMON_READY_ERR_PREFIX@.len() as int)))
    } else {
        None
    }
}

/// Extracts a daemon startup error from readiness file contents.
pub fn parse_daemon_ready_error(message: &str) -> (r: Option<&str>)
    ensures
        r is Some == (ready_error_in(message@) is Some),
        r matches Some(error) ==> ready_error_in(message@) == Some(error@),
{
    match strip_prefix(message, DAEMON_READY_ERR_PREFIX) {
        Some(error) => Some(trim_end(error)),
        None => None,
    }
}

/// What the launcher finds when it reads the readiness file.
#[derive(Debug, PartialEq, Eq)]
pub enum ReadyFile {
    /// These contents.
    Contents(String),
    /// No such file.
    Missing,
    /// A file that cannot be read, for this reason.
    Unreadable(Failure),
}

/// What the launcher finds when it reads the readiness file, over texts.
pub enum ReadyFileView {
    Contents(Seq<char>),
    Missing,
    Unreadable(Seq<Seq<char>>),
}

impl View for ReadyFile {
    type V = ReadyFileView;

    open spec fn view(&self) -> ReadyFileView {
        match *self {
            ReadyFile::Contents(contents) => ReadyFileView::Contents(contents@),
            ReadyFile::Missing => ReadyFileView::Missing,
            ReadyFile::Unreadable(cause) => ReadyFileView::Unreadable(cause@),
        }
    }
}

/// What the launcher makes of a look at the daemon child.
#[derive(Debug, PartialEq, Eq)]
pub enum StartVerdict {
    /// The daemon is up: remove the readiness file and report success.
    Ready,
    /// The daemon did not start: remove the readiness file where `remove` is set, and report this
    /// failure.
    Failed { failure: Failure, remove: bool },
    /// Nothing is known yet: look again.
    Waiting,
}

/// What the launcher makes of a look at the daemon child, over texts.
pub enum StartVerdictView {
    Ready,
    Failed { failure: Seq<Seq<char>>, remove: bool },
    Waiting,
}

impl View for StartVerdict {
    type V = StartVerdictView;

    open spec fn view(&self) -> StartVerdictView {
        match *self {
            StartVerdict::Ready => StartVerdictView::Ready,
            StartVerdict::Failed { failure, remove } => StartVerdictView::Failed {
                failure: failure@,
                remove,
            },
            StartVerdict::Waiting => StartVerdictView::Waiting,
        }
    }
}

/// What a child that exited with this status means, given the readiness file.
pub open spec fn exited_verdict(status: Seq<char>, file: ReadyFileView) -> StartVerdictView {
    let error = match file {
        ReadyFileView::Contents(contents) => ready_error_in(contents),
        _ => None,
    };
    StartVerdictView::Failed {
        failure: seq![
            match error {
                Some(error) => error,
                None => "daemon child exited before startup completed: "@ + status,
            },
        ],
        remove: true,
    }
}

/// What the readiness file at `path` means while the child runs.
pub open spec fn running_verdict(path: Seq<u8>, file: ReadyFileView) -> StartVerdictView {
    match file {
        ReadyFileView::Contents(contents) => if contents == DAEMON_READY_OK@ {
            StartVerdictView::Ready
        } else {
            match ready_error_in(contents) {
                Some(error) => StartVerdictView::Failed { failure: seq![error], remove: true },
                None => StartVerdictView::Waiting,
            }
        },
        ReadyFileView::Missing => StartVerdictView::Waiting,
        ReadyFileView::Unreadable(cause) => StartVerdictView::Failed {
            failure: within("failed to read daemon readiness file "@ + lossy_text(path), cause),
            remove: false,
        },
    }
}

/// What a look at the daemon child means: `exited` is its status, once it has one.
pub open spec fn start_verdict(
    path: Seq<u8>,
    exited: Option<Seq<char>>,
    file: ReadyFileView,
) -> StartVerdictView {
    match exited {
        Some(status) => exited_verdict(status, file),
        None => running_verdict(path, file),
    }
}

/// Judges a look at the daemon child.
pub fn judge_start(path: &HostPath, exited: Option<&str>, file: ReadyFile) -> (verdict:
    StartVerdict)
    ensures
        verdict@ == start_verdict(
            path@,
            match exited {
                Some(status) => Some(status@),
                None => None,
            },
            file@,
        ),
{
    if let Some(status) = exited {
        if let ReadyFile::Contents(contents) = &file {
            if let Some(error) = parse_daemon_ready_error(contents.as_str()) {
                return StartVerdict::Failed {
                    failure: Failure::plain(error.to_owned()),
                    remove: true,
                };
            }
        }
        return StartVerdict::Failed {
            failure: Failure::plain(
                concat2("daemon child exited before startup completed: ", status),
            ),
            remove: true,
        };
    }
    match file {
        ReadyFile::Contents(contents) => if same_text(contents.as_str(), DAEMON_READY_OK) {
            StartVerdict::Ready
        } else {
            match parse_daemon_ready_error(contents.as_str()) {
                Some(error) => StartVerdict::Failed {
                    failure: Failure::plain(error.to_owned()),
                    remove: true,
                },
                None => StartVerdict::Waiting,
            }
        },
        ReadyFile::Missing => StartVerdict::Waiting,
        ReadyFile::Unreadable(cause) => StartVerdict::Failed {
            failure: cause.within(
                concat2(
                    "failed to read daemon readiness file ",
                    utf8_lossy(path.bytes.as_slice()).as_str(),
                ),
            ),
            remove: false,
        },
    }
}

/// How far launching the daemon has come.
#[derive(Clone, Copy, Debug, PartialEq, Eq, Structural)]
pub enum LaunchPhase {
    /// The directory of the pid file is being created.
    CreatingPidDirectory,
    /// The directory of the log file is being created.
    CreatingLogDirectory,
    /// The readiness file is being named.
    NamingReadyFile,
    /// The program is being located.
    Locating,
    /// The child is being spawned.
    Spawning,
    /// The child is being looked at.
    Watching,
    /// Nothing is left to do.
    Done,
}

/// What launching the daemon is told.
#[derive(Debug, PartialEq, Eq)]
pub enum LaunchEvent {
    /// The step succeeded.
    Succeeded,
    /// The step failed, for this reason.
    Failed(Failure),
    /// A look at the child showed its status, once it has one, and the readiness file.
    Looked { exited: Option<String>, file: ReadyFile },
}

/// What launching the daemon is told, over texts.
pub enum LaunchEventView {
    Succeeded,
    Failed(Seq<Seq<char>>),
    Looked { exited: Option<Seq<char>>, file: ReadyFileView },
}

impl View for LaunchEvent {
    type V = LaunchEventView;

    open spec fn view(&self) -> LaunchEventView {
        match *self {
            LaunchEvent::Succeeded => LaunchEventView::Succeeded,
            LaunchEvent::Failed(cause) => LaunchEventView::Failed(cause@),
            LaunchEvent::Looked { exited, file } => LaunchEventView::Looked {
                exited: match exited {
                    Some(status) => Some(status@),
                    None => None,
                },
                file: file@,
            },
        }
    }
}

/// What is done to launch the daemon.
#[derive(Debug, PartialEq, Eq)]
pub enum LaunchAction {
    /// Create the directory of the pid file.
    CreatePidDirectory,
    /// Create the directory of the log file.
    CreateLogDirectory,
    /// Name the readiness file.
    NameReadyFile,
    /// Locate the program.
    Locate,
    /// Spawn the child.
    Spawn,
    /// Pause where `pause` is set, then look at the child.
    Look { pause: bool },
    /// Remove the readiness file and report success.
    Finish,
    /// Remove the readiness file where `remove` is set, and report this failure.
    Fail { failure: Failure, remove: bool },
    /// Do nothing.
    Rest,
}

/// What is done to launch the daemon, over texts.
pub enum LaunchActionView {
    CreatePidDirectory,
    CreateLogDirectory,
    NameReadyFile,
    Locate,
    Spawn,
    Look { pause: bool },
    Finish,
    Fail { failure: Seq<Seq<char>>, remove: bool },
    Rest,
}

impl View for LaunchAction {
    type V = LaunchActionView;

    open spec fn view(&self) -> LaunchActionView {
        match *self {
            LaunchAction::CreatePidDirectory => LaunchActionView::CreatePidDirectory,
            LaunchAction::CreateLogDirectory => LaunchActionView::CreateLogDirectory,
            LaunchAction::NameReadyFile => LaunchActionView::NameReadyFile,
            LaunchAction::Locate => LaunchActionView::Locate,
            LaunchAction::Spawn => LaunchActionView::Spawn,
            LaunchAction::Look { pause } => LaunchActionView::Look { pause },
            LaunchAction::Finish => LaunchActionView::Finish,
            LaunchAction::Fail { failure, remove } => LaunchActionView::Fail {
                failure: failure@,
                remove,
            },
            LaunchAction::Rest => LaunchActionView::Rest,
        }
    }
}

/// What is being done in a phase, for a failure of it.
pub open spec fn launch_phase_text(
    phase: LaunchPhase,
    pid_file: Seq<u8>,
    log_file: Seq<u8>,
) -> Seq<char> {
    match phase {
        LaunchPhase::CreatingPidDirectory => "failed to create pid file directory "@ + lossy_text(
            pid_file,
        ),
        LaunchPhase::CreatingLogDirectory => "failed to create log file directory "@ + lossy_text(
            log_file,
        ),
        LaunchPhase::NamingReadyFile => "system clock is before Unix epoch"@,
        LaunchPhase::Locating => "failed to locate current executable"@,
        LaunchPhase::Spawning => "failed to start daemon child"@,
        LaunchPhase::Watching => "failed to poll daemon child"@,
        LaunchPhase::Done => ""@,
    }
}

/// What a look at the child leads to.
pub open spec fn looked(verdict: StartVerdictView) -> (LaunchPhase, LaunchActionView) {
    match verdict {
        StartVerdictView::Ready => (LaunchPhase::Done, LaunchActionView::Finish),
        StartVerdictView::Failed { failure, remove } => (
            LaunchPhase::Done,
            LaunchActionView::Fail { failure, remove },
        ),
        StartVerdictView::Waiting => (
            LaunchPhase::Watching,
            LaunchActionView::Look { pause: true },
        ),
    }
}

/// What an event leads to. An event that does not belong to the phase changes nothing.
pub open spec fn launch_step(
    phase: LaunchPhase,
    pid_file: Seq<u8>,
    log_file: Seq<u8>,
    ready_file: Seq<u8>,
    event: LaunchEventView,
) -> (LaunchPhase, LaunchActionView) {
    match (phase, event) {
        (LaunchPhase::Done, _) => (phase, LaunchActionView::Rest),
        (_, LaunchEventView::Failed(cause)) => (
            LaunchPhase::Done,
            LaunchActionView::Fail {
                failure: within(launch_phase_text(phase, pid_file, log_file), cause),
                remove: false,
            },
        ),
        (LaunchPhase::CreatingPidDirectory, LaunchEventView::Succeeded) => (
            LaunchPhase::CreatingLogDirectory,
            LaunchActionView::CreateLogDirectory,
        ),
        (LaunchPhase::CreatingLogDirectory, LaunchEventView::Succeeded) => (
            LaunchPhase::NamingReadyFile,
            LaunchActionView::NameReadyFile,
        ),
        (LaunchPhase::NamingReadyFile, LaunchEventView::Succeeded) => (
            LaunchPhase::Locating,
            LaunchActionView::Locate,
        ),
        (LaunchPhase::Locating, LaunchEventView::Succeeded) => (
            LaunchPhase::Spawning,
            LaunchActionView::Spawn,
        ),
        (LaunchPhase::Spawning, LaunchEventView::Succeeded) => (
            LaunchPhase::Watching,
            LaunchActionView::Look { pause: false },
        ),
        (LaunchPhase::Watching, LaunchEventView::Looked { exited, file }) => looked(
            start_verdict(ready_file, exited, file),
        ),
        _ => (phase, LaunchActionView::Rest),
    }
}

/// The first phase and the first action.
pub open spec fn launch_begin() -> (LaunchPhase, LaunchActionView) {
    (LaunchPhase::CreatingPidDirectory, LaunchActionView::CreatePidDirectory)
}

/// The state of launching the daemon.
#[derive(Debug, PartialEq, Eq)]
pub struct Launch {
    /// How far launching has come.
    pub phase: LaunchPhase,
    /// The files of the daemon.
    pub files: DaemonFiles,
    /// The readiness file, once it has a name.
    pub ready_file: HostPath,
}

impl Launch {
    /// Begins to launch the daemon, and says what to do.
    pub fn begin(files: DaemonFiles) -> (r: (Launch, LaunchAction))
        ensures
            (r.0.phase, r.1@) == launch_begin(),
            r.0.phase == LaunchPhase::CreatingPidDirectory,
            r.0.files == files,
            r.0.ready_file@.len() == 0,
            r.1@ == LaunchActionView::CreatePidDirectory,
    {
        (
            Launch {
                phase: LaunchPhase::CreatingPidDirectory,
                files,
                ready_file: HostPath { bytes: Vec::new() },
            },
            LaunchAction::CreatePidDirectory,
        )
    }

    /// Says what is being done.
    fn doing(&self) -> (r: String)
        ensures
            r@ == launch_phase_text(self.phase, self.files.pid_file@, self.files.log_file@),
    {
        match self.phase {
            LaunchPhase::CreatingPidDirectory => concat2(
                "failed to create pid file directory ",
                utf8_lossy(self.files.pid_file.bytes.as_slice()).as_str(),
            ),
            LaunchPhase::CreatingLogDirectory => concat2(
                "failed to create log file directory ",
                utf8_lossy(self.files.log_file.bytes.as_slice()).as_str(),
            ),
            LaunchPhase::NamingReadyFile => "system clock is before Unix epoch".to_owned(),
            LaunchPhase::Locating => "failed to locate current executable".to_owned(),
            LaunchPhase::Spawning => "failed to start daemon child".to_owned(),
            LaunchPhase::Watching => "failed to poll daemon child".to_owned(),
            LaunchPhase::Done => "".to_owned(),
        }
    }

    /// Takes the name of the readiness file.
    pub fn name_ready_file(&mut self, path: HostPath)
        ensures
            *final(self) == (Launch { ready_file: path, ..*old(self) }),
    {
        self.ready_file = path;
    }

    /// Takes an event and says what to do.
    pub fn step(&mut self, event: LaunchEvent) -> (action: LaunchAction)
        ensures
            final(self).files == old(self).files,
            final(self).ready_file == old(self).ready_file,
            (final(self).phase, action@) == launch_step(
                old(self).phase,
                old(self).files.pid_file@,
                old(self).files.log_file@,
                old(self).ready_file@,
                event@,
            ),
    {
        let (phase, action) = match (self.phase, event) {
            (LaunchPhase::Done, _) => (LaunchPhase::Done, LaunchAction::Rest),
            (_, LaunchEvent::Failed(cause)) => (
                LaunchPhase::Done,
                LaunchAction::Fail {
                    failure: cause.within(self.doing()),
                    remove: false,
                },
            ),
            (LaunchPhase::CreatingPidDirectory, LaunchEvent::Succeeded) => (
                LaunchPhase::CreatingLogDirectory,
                LaunchAction::CreateLogDirectory,
            ),
            (LaunchPhase::CreatingLogDirectory, LaunchEvent::Succeeded) => (
                LaunchPhase::NamingReadyFile,
                LaunchAction::NameReadyFile,
            ),
            (LaunchPhase::NamingReadyFile, LaunchEvent::Succeeded) => (
                LaunchPhase::Locating,
                LaunchAction::Locate,
            ),
            (LaunchPhase::Locating, LaunchEvent::Succeeded) => (
                LaunchPhase::Spawning,
                LaunchAction::Spawn,
            ),
            (LaunchPhase::Spawning, LaunchEvent::Succeeded) => (
                LaunchPhase::Watching,
                LaunchAction::Look { pause: false },
            ),
            (LaunchPhase::Watching, LaunchEvent::Looked { exited, file }) => {
                let status: Option<&str> = match &exited {
                    Some(status) => Some(status.as_str()),
                    None => None,
                };
                match judge_start(&self.ready_file, status, file) {
                    StartVerdict::Ready => (LaunchPhase::Done, LaunchAction::Finish),
                    StartVerdict::Failed { failure, remove } => (
                        LaunchPhase::Done,
                        LaunchAction::Fail { failure, remove },
                    ),
                    StartVerdict::Waiting => (
                        LaunchPhase::Watching,
                        LaunchAction::Look { pause: true },
                    ),
                }
            },
            (phase, _) => (phase, LaunchAction::Rest),
        };
        self.phase = phase;
        action
    }
}

/// A launcher reports success only on a look at a running child whose readiness file says so.
pub proof fn law_launch_succeeds_only_when_ready(
    phase: LaunchPhase,
    pid_file: Seq<u8>,
    log_file: Seq<u8>,
    ready_file: Seq<u8>,
    event: LaunchEventView,
)
    ensures
        launch_step(phase, pid_file, log_file, ready_file, event).1 is Finish == (phase
            == LaunchPhase::Watching && event == (LaunchEventView::Looked {
            exited: None,
            file: ReadyFileView::Contents(DAEMON_READY_OK@),
        })),
{
}

/// A launcher whose child reports that it is up reports success.
pub proof fn law_ready_daemon_is_reported(path: Seq<u8>)
    ensures
        start_verdict(path, None, ReadyFileView::Contents(DAEMON_READY_OK@))
            == StartVerdictView::Ready,
{
}

/// The words with which a child fails to start are those that its launcher fails with, whether the
/// child is still there or not, but for white space at their end.
pub proof fn law_startup_error_reaches_launcher(
    path: Seq<u8>,
    exited: Option<Seq<char>>,
    error: Seq<char>,
)
    ensures
        start_verdict(path, exited, ReadyFileView::Contents(ready_error_contents(error)))
            == (StartVerdictView::Failed { failure: seq![trimmed_end(error)], remove: true }),
        error.len() > 0 && !white_space(error.last()) ==> trimmed_end(error) == error,
{
    reveal_strlit("OK\n");
    reveal_strlit("ERR ");
    reveal_strlit("\n");
    let contents = ready_error_contents(error);
    assert(contents[0] == 'E');
    assert(contents.take(4) =~= DAEMON_READY_ERR_PREFIX@);
    assert(contents.skip(4) =~= error + "\n"@);
    assert((error + "\n"@).drop_last() =~= error);
    assert((error + "\n"@).last() == '\n');
}

/// While the child runs, a readiness file that is only partly written makes the launcher wait.
pub proof fn law_half_written_ready_file_is_awaited(path: Seq<u8>, n: int)
    requires
        0 <= n < DAEMON_READY_OK@.len(),
    ensures
        start_verdict(path, None, ReadyFileView::Contents(DAEMON_READY_OK@.take(n)))
            == StartVerdictView::Waiting,
{
    reveal_strlit("OK\n");
    reveal_strlit("ERR ");
    let contents = DAEMON_READY_OK@.take(n);
    if starts_with(contents, DAEMON_READY_ERR_PREFIX@) {
        assert(contents.len() < 4);
    }
}

/// A launcher never reports success of a child that has exited.
pub proof fn law_exited_child_is_a_failure(path: Seq<u8>, status: Seq<char>, file: ReadyFileView)
    ensures
        start_verdict(path, Some(status), file) is Failed,
{
}

/// The process that a launcher starts is told its readiness file, so that it is no launcher itself.
pub proof fn law_launched_child_is_told_its_ready_file(
    args: &ServerArgs,
    log_file: Seq<u8>,
    pid_file: Seq<u8>,
    ready_file: Seq<u8>,
)
    ensures
        launch_settings(args, log_file, pid_file, ready_file).contains(
            set_to(DAEMON_READY_FILE_ENV_VAR@, ready_file),
        ),
{
    assert(launch_settings(args, log_file, pid_file, ready_file)[5] == set_to(
        DAEMON_READY_FILE_ENV_VAR@,
        ready_file,
    ));
}

/// Every variable of the daemon child is set or removed once, so the order does not matter.
pub proof fn law_launch_settings_differ(
    args: &ServerArgs,
    log_file: Seq<u8>,
    pid_file: Seq<u8>,
    ready_file: Seq<u8>,
    i: int,
    j: int,
)
    requires
        0 <= i < j < launch_settings(args, log_file, pid_file, ready_file).len(),
    ensures
        launch_settings(args, log_file, pid_file, ready_file)[i].name != launch_settings(
            args,
            log_file,
            pid_file,
            ready_file,
        )[j].name,
{
    reveal_strlit("HOSTCMD_SECRET");
    reveal_strlit("HOSTCMD_PORT");
    reveal_strlit("HOSTCMD_HOST");
    reveal_strlit("HOSTCMD_LOG_FILE");
    reveal_strlit("HOSTCMD_PID_FILE");
    reveal_strlit("HOSTCMD_DAEMON_READY_FILE");
    reveal_strlit("HOSTCMD_SSH_FORWARD");
    reveal_strlit("HOSTCMD_SSH_FORWARD_PORT");
    reveal_strlit("HOSTCMD_ALLOW");
    let names = launch_settings(args, log_file, pid_file, ready_file);
    assert(names[0].name.len() == 14);
    assert(names[1].name.len() == 12 && names[1].name[8] == 'P');
    assert(names[2].name.len() == 12 && names[2].name[8] == 'H');
    assert(names[3].name.len() == 16 && names[3].name[8] == 'L');
    assert(names[4].name.len() == 16 && names[4].name[8] == 'P');
    assert(names[5].name.len() == 25);
    assert(names[6].name.len() == 19);
    assert(names[7].name.len() == 24);
    assert(names[8].name.len() == 13);
}

} // verus!
