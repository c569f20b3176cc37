//! What the server derives from its arguments: its files, its address, its allow list and what it
//! logs of them.

use crate::cli::ServerArgs;
use crate::config::{
    expand_home_path, expanded_path, is_below_home, path_option, same_path_result,
    without_leading_slashes, HomeNotSet, HostPath, DEFAULT_LOG_FILE, SLASH, TILDE,
};
use crate::text::{
    concat2, concat3, decimal, decimal_text, join_texts, joined, lossy_text, texts_of, utf8_lossy,
};
use vstd::prelude::*;
use vstd::utf8::{encode_utf8, valid_utf8};

verus! {

/// Whether the allow list lets a command run: an empty list lets every command run, any other
/// list those whose program it names.
pub open spec fn command_allowed(allowed: Seq<Seq<char>>, command: Seq<Seq<char>>) -> bool {
    allowed.len() == 0 || (command.len() > 0 && allowed.contains(command[0]))
}

/// Returns whether the requested command is executable under the configured allow list.
pub fn is_command_allowed(allowed_commands: &[String], command: &[String]) -> (r: bool)
    ensures
        r == command_allowed(texts_of(allowed_commands@), texts_of(command@)),
{
    if allowed_commands.len() == 0 {
        return true;
    }
    if command.len() == 0 {
        return false;
    }
    let ghost texts = texts_of(allowed_commands@);
    let mut i: usize = 0;
    while i < allowed_commands.len()
        invariant
            i <= allowed_commands@.len(),
            command@.len() > 0,
            texts == texts_of(allowed_commands@),
            forall|j: int| 0 <= j < i ==> texts[j] != command@[0]@,
        decreases allowed_commands@.len() - i,
    {
        if allowed_commands[i] == command[0] {
            assert(texts[i as int] == texts_of(command@)[0]);
            return true;
        }
        i += 1;
    }
    assert(!texts.contains(texts_of(command@)[0]));
    false
}

/// The pid file that the server uses.
pub open spec fn pid_file_of(args: &ServerArgs, home: Option<Seq<u8>>) -> Result<
    Seq<u8>,
    HomeNotSet,
> {
    expanded_path(args.pid_file@, home)
}

/// The log file that a daemon uses: the configured one or the default.
pub open spec fn daemon_log_file_of(args: &ServerArgs, home: Option<Seq<u8>>) -> Result<
    Seq<u8>,
    HomeNotSet,
> {
    match args.log_file {
        Some(path) => expanded_path(path@, home),
        None => expanded_path(encode_utf8(DEFAULT_LOG_FILE@), home),
    }
}

/// The log file that the server uses, if any. In the foreground the configured path is taken as it
/// stands.
pub open spec fn log_file_of(args: &ServerArgs, home: Option<Seq<u8>>) -> Result<
    Option<Seq<u8>>,
    HomeNotSet,
> {
    if args.daemon {
        match daemon_log_file_of(args, home) {
            Ok(path) => Ok(Some(path)),
            Err(e) => Err(e),
        }
    } else {
        match args.log_file {
            Some(path) => Ok(Some(path@)),
            None => Ok(None),
        }
    }
}

/// Returns the effective server pid file path, including the default state location.
pub fn effective_pid_file(args: &ServerArgs, home: Option<&HostPath>) -> (r: Result<
    HostPath,
    HomeNotSet,
>)
    ensures
        same_path_result(r, pid_file_of(args, path_option(home))),
{
    expand_home_path(&args.pid_file, home)
}

/// Returns the effective server log file path when one should be used.
pub fn effective_log_file(args: &ServerArgs, home: Option<&HostPath>) -> (r: Result<
    Option<HostPath>,
    HomeNotSet,
>)
    ensures
        match log_file_of(args, path_option(home)) {
            Ok(None) => r == Ok::<Option<HostPath>, HomeNotSet>(None),
            Ok(Some(path)) => r is Ok && r->Ok_0 is Some && r->Ok_0->Some_0@ == path,
            Err(e) => r == Err::<Option<HostPath>, HomeNotSet>(e),
        },
{
    if args.daemon {
        return match effective_daemon_log_file(args, home) {
            Ok(path) => Ok(Some(path)),
            Err(e) => Err(e),
        };
    }
    match &args.log_file {
        Some(path) => Ok(Some(path.copy())),
        None => Ok(None),
    }
}

/// Returns the daemon log file path, using the default when no log file was configured.
pub fn effective_daemon_log_file(args: &ServerArgs, home: Option<&HostPath>) -> (r: Result<
    HostPath,
    HomeNotSet,
>)
    ensures
        same_path_result(r, daemon_log_file_of(args, path_option(home))),
{
    match &args.log_file {
        Some(path) => expand_home_path(path, home),
        None => expand_home_path(&HostPath::from_text(DEFAULT_LOG_FILE), home),
    }
}

/// A text, or a dash where there is none.
pub open spec fn or_dash(text: Option<Seq<char>>) -> Seq<char> {
    match text {
        Some(text) => text,
        None => "-"@,
    }
}

/// The allow list as it is logged.
pub open spec fn allow_text(allow: Seq<Seq<char>>) -> Seq<char> {
    if allow.len() == 0 {
        "*"@
    } else {
        joined(allow, ","@)
    }
}

/// A truth value as a text.
pub open spec fn bool_text(b: bool) -> Seq<char> {
    if b {
        "true"@
    } else {
        "false"@
    }
}

/// The arguments of a server as they are logged.
pub open spec fn server_args_text(args: &ServerArgs) -> Seq<char> {
    "host="@ + args.connection.host@ + " port="@ + decimal(args.connection.port as nat)
        + " secret="@ + args.connection.secret@ + " log_file="@ + or_dash(
        match args.log_file {
            Some(path) => Some(lossy_text(path@)),
            None => None,
        },
    ) + " pid_file="@ + lossy_text(args.pid_file@) + " daemon="@ + bool_text(args.daemon)
        + " ssh_forward="@ + or_dash(
        match args.ssh_forward {
            Some(hostname) => Some(hostname@),
            None => None,
        },
    ) + " ssh_forward_port="@ + or_dash(
        match args.ssh_forward_port {
            Some(port) => Some(decimal(port as nat)),
            None => None,
        },
    ) + " allow="@ + allow_text(texts_of(args.allow@))
}

/// Formats effective server startup arguments for logging.
pub fn format_server_args(args: &ServerArgs) -> (r: String)
    ensures
        r@ == server_args_text(args),
{
    let log_file: String = match &args.log_file {
        Some(path) => utf8_lossy(path.bytes.as_slice()),
        None => "-".to_owned(),
    };
    let pid_file = utf8_lossy(args.pid_file.bytes.as_slice());
    let ssh_forward: String = match &args.ssh_forward {
        Some(hostname) => hostname.clone(),
        None => "-".to_owned(),
    };
    let ssh_forward_port: String = match args.ssh_forward_port {
        Some(port) => decimal_text(port as u128),
        None => "-".to_owned(),
    };
    let allow: String = if args.allow.len() == 0 {
        "*".to_owned()
    } else {
        join_texts(&args.allow, ",")
    };
    let mut text = concat2("host=", args.connection.host.as_str());
    text.append(" port=");
    text.append(decimal_text(args.connection.port as u128).as_str());
    text.append(" secret=");
    text.append(args.connection.secret.as_str());
    text.append(" log_file=");
    text.append(log_file.as_str());
    text.append(" pid_file=");
    text.append(pid_file.as_str());
    text.append(" daemon=");
    text.append(
        if args.daemon {
            "true"
        } else {
            "false"
        },
    );
    text.append(" ssh_forward=");
    text.append(ssh_forward.as_str());
    text.append(" ssh_forward_port=");
    text.append(ssh_forward_port.as_str());
    text.append(" allow=");
    text.append(allow.as_str());
    text
}

/// The address that the server binds and the client connects to.
pub open spec fn address_text(host: Seq<char>, port: u16) -> Seq<char> {
    host + ":"@ + decimal(port as nat)
}

/// Writes the address to bind or connect to.
pub fn format_address(host: &str, port: u16) -> (r: String)
    ensures
        r@ == address_text(host@, port),
{
    concat3(host, ":", decimal_text(port as u128).as_str())
}

/// The hint, for the log, at a client command line that reaches the server.
pub open spec fn try_line(host: Seq<char>, port: u16, secret: Seq<char>) -> Seq<char> {
    "Try with: hostcmd exec --secret "@ + secret + " --port "@ + decimal(port as nat) + " --host "@
        + host + " -- uname -a"@
}

/// Writes the hint at a client command line that reaches the server.
pub fn format_try_line(host: &str, port: u16, secret: &str) -> (r: String)
    ensures
        r@ == try_line(host@, port, secret@),
{
    let mut text = concat2("Try with: hostcmd exec --secret ", secret);
    text.append(" --port ");
    text.append(decimal_text(port as u128).as_str());
    text.append(" --host ");
    text.append(host);
    text.append(" -- uname -a");
    text
}

/// Everything that a server resolves before it listens.
#[derive(Debug, PartialEq, Eq)]
pub struct ForegroundPlan {
    /// The pid file to write.
    pub pid_file: HostPath,
    /// The log file to write, if any.
    pub log_file: Option<HostPath>,
    /// The address to bind.
    pub address: String,
    /// The arguments, for the log.
    pub startup_args: String,
    /// The hint at a client command line, for the log.
    pub try_line: String,
}

/// Resolves what a server needs before it listens.
pub fn plan_foreground(args: &ServerArgs, home: Option<&HostPath>) -> (r: Result<
    ForegroundPlan,
    HomeNotSet,
>)
    ensures
        r is Ok == (pid_file_of(args, path_option(home)) is Ok && log_file_of(
            args,
            path_option(home),
        ) is Ok),
        r matches Err(e) ==> e == HomeNotSet,
        r matches Ok(plan) ==> {
            &&& Ok::<Seq<u8>, HomeNotSet>(plan.pid_file@) == pid_file_of(args, path_option(home))
            &&& Ok::<Option<Seq<u8>>, HomeNotSet>(
                match plan.log_file {
                    Some(path) => Some(path@),
                    None => None,
                },
            ) == log_file_of(args, path_option(home))
            &&& plan.address@ == address_text(args.connection.host@, args.connection.port)
            &&& plan.startup_args@ == server_args_text(args)
            &&& plan.try_line@ == try_line(
                args.connection.host@,
                args.connection.port,
                args.connection.secret@,
            )
        },
{
    let pid_file = effective_pid_file(args, home)?;
    let log_file = effective_log_file(args, home)?;
    let host = args.connection.host.as_str();
    Ok(
        ForegroundPlan {
            pid_file,
            log_file,
            address: format_address(host, args.connection.port),
            startup_args: format_server_args(args),
            try_line: format_try_line(host, args.connection.port, args.connection.secret.as_str()),
        },
    )
}

/// Expanding a path once is enough, where the home directory does not itself begin with `~`: a
/// daemon that is handed the expanded paths uses the files that its launcher prepared.
pub proof fn law_expansion_is_idempotent(path: Seq<u8>, home: Option<Seq<u8>>)
    requires
        home matches Some(home) ==> home.len() > 0 && home[0] != TILDE,
    ensures
        expanded_path(path, home) matches Ok(expanded) ==> expanded_path(expanded, home) == Ok::<
            Seq<u8>,
            HomeNotSet,
        >(expanded),
{
    if let Ok(expanded) = expanded_path(path, home) {
        if valid_utf8(path) && is_below_home(path) {
            lemma_no_leading_slash(path.skip(2));
        }
        if expanded != path {
            assert(expanded.len() > 0 && expanded[0] != TILDE);
        }
    }
}

/// What is written below the home directory lies below it: the expanded path begins with the home
/// directory, and what follows is set off from it by a slash, unless the home directory is empty or
/// ends in one.
pub proof fn law_tilde_stays_below_home(path: Seq<u8>, home: Seq<u8>)
    requires
        valid_utf8(path),
        is_below_home(path),
    ensures
        expanded_path(path, Some(home)) matches Ok(expanded) && {
            let rest = without_leading_slashes(path.skip(2));
            &&& expanded == if home.len() == 0 || home.last() == SLASH {
                home + rest
            } else {
                home + seq![SLASH] + rest
            }
            &&& rest.len() == 0 || rest[0] != SLASH
        },
{
    lemma_no_leading_slash(path.skip(2));
    let rest = without_leading_slashes(path.skip(2));
    assert(home.push(SLASH) + rest =~= home + seq![SLASH] + rest);
}

/// Dropping the slashes at the front leaves none there.
proof fn lemma_no_leading_slash(rest: Seq<u8>)
    ensures
        without_leading_slashes(rest).len() == 0 || without_leading_slashes(rest)[0] != SLASH,
    decreases rest.len(),
{
    if rest.len() > 0 && rest[0] == SLASH {
        lemma_no_leading_slash(rest.skip(1));
    }
}

/// A path that is absolute needs no home directory and stays as it is.
pub proof fn law_absolute_path_is_kept(path: Seq<u8>, home: Option<Seq<u8>>)
    requires
        path.len() > 0,
        path[0] == SLASH,
    ensures
        expanded_path(path, home) == Ok::<Seq<u8>, HomeNotSet>(path),
{
}

} // verus!
