//! The definition of the command line: every subcommand and every option, as it is handed to the
//! argument parser.

use crate::config::{
    ALLOW_ENV_VAR, COMMAND_ENV_VAR, DEFAULT_PID_FILE, HOST_ENV_VAR, LOG_FILE_ENV_VAR,
    PID_FILE_ENV_VAR, PORT_ENV_VAR, SECRET_ENV_VAR, SSH_FORWARD_ENV_VAR, SSH_FORWARD_PORT_ENV_VAR,
};
use clap::builder::{ValueParser, ValueParserFactory};
use clap::{Arg, ArgAction};
use vstd::prelude::*;

verus! {

/// What a value on the command line is.
#[derive(Clone, Copy, Debug, PartialEq, Eq, Structural)]
pub enum ValueKind {
    /// A text.
    Text,
    /// A file path.
    Path,
    /// A TCP port.
    Port,
    /// A truth value.
    Truth,
}

/// What an option does each time it occurs.
#[derive(Clone, Copy, Debug, PartialEq, Eq, Structural)]
pub enum OccurrenceRule {
    /// It sets its value, once.
    Once,
    /// It adds to its values.
    Collect,
    /// It stands for the value `true`.
    Flag,
}

/// One option, or the words of a command.
#[derive(Clone, Copy, Debug)]
pub struct OptionRule {
    /// The name by which its values are asked for.
    pub id: &'static str,
    /// The word that introduces it; none for the words of a command.
    pub long: Option<&'static str>,
    /// The environment variable that stands in for it.
    pub env: Option<&'static str>,
    /// What its value is called in the help.
    pub value_name: Option<&'static str>,
    /// The value that it has where none is given.
    pub default: Option<&'static str>,
    /// The character that separates several values in one.
    pub delimiter: Option<char>,
    /// How many values one occurrence has at least.
    pub min_values: usize,
    /// How many values one occurrence has at most.
    pub max_values: usize,
    /// Whether a value has to come from somewhere.
    pub required: bool,
    /// Whether everything behind its first value belongs to it.
    pub trailing: bool,
    /// What an occurrence does.
    pub occurrence: OccurrenceRule,
    /// What its values are.
    pub kind: ValueKind,
    /// The short help.
    pub help: &'static str,
    /// The long help, where it says more.
    pub long_help: Option<&'static str>,
}

/// A command or a subcommand.
#[derive(Clone, Copy, Debug)]
pub struct CommandRule {
    /// Its name.
    pub name: &'static str,
    /// Its help.
    pub about: &'static str,
    /// Its version, where it tells one.
    pub version: Option<&'static str>,
    /// Whether one of its subcommands has to be chosen.
    pub chooses: bool,
}

/// A command or a subcommand with its options.
pub struct CommandDefinition {
    pub rule: CommandRule,
    pub options: Seq<OptionRule>,
}

/// The version of the program.
pub const VERSION: &'static str = "0.1.0";

/// The long help of the shared secret.
pub const SECRET_HELP: &'static str =
    "Shared secret for authenticating between client and server.\n\nThe client must present the same secret value that the server was started with. Requests that do not match are rejected.";

/// The long help of the port.
pub const PORT_HELP: &'static str =
    "TCP port used for the websocket connection.\n\nOn the server side this is the port to bind and listen on. On the client side this is the port to connect to.";

/// The long help of the host.
pub const HOST_HELP: &'static str =
    "Host address to bind or connect to.\n\nOn the server side this is the address to bind the listener to (e.g. `127.0.0.1` for local-only or `0.0.0.0` for all interfaces). On the client side this is the address of the running server.";

/// The long help of the log file.
pub const LOG_FILE_HELP: &'static str =
    "File that receives server log output instead of stdout.\n\nWhen `--daemon` is used and no `--log-file` is set, logs are automatically written to `~/.local/share/hostcmd/server.log`.";

/// The long help of the server's pid file.
pub const SERVER_PID_FILE_HELP: &'static str =
    "File that receives the running server process id.\n\nUsed by `hostcmd stop` to locate and terminate the daemon. Override this when running multiple server instances.";

/// The long help of the daemon flag.
pub const DAEMON_HELP: &'static str =
    "Start the server in the background as a daemon process.\n\nThe daemon detaches from the terminal and writes its pid to `--pid-file`. Stop it later with `hostcmd stop`.";

/// The long help of the forward.
pub const SSH_FORWARD_HELP: &'static str =
    "SSH hostname used to expose the server through a reverse port forward.\n\nWhen set, the server runs:\n\n  ssh <hostname> -R <port>:<host>:<port> -N -o ExitOnForwardFailure=yes\n\nThis makes the server reachable from the remote SSH host. The server\nand SSH process are coupled: if the SSH process exits for any reason\n(connection drop, authentication failure, remote shutdown) the server\nexits immediately as well.";

/// The long help of the forward's port.
pub const SSH_FORWARD_PORT_HELP: &'static str =
    "SSH port used when connecting to the reverse port forward host.\n\nAdds `-p <port>` to the `ssh` command started by `--ssh-forward`. Only meaningful when `--ssh-forward` is also provided.";

/// The long help of the allow list.
pub const ALLOW_HELP: &'static str =
    "Command names allowed for remote execution.\n\nCan be repeated to allow multiple commands:\n\n  --allow pbcopy --allow uname\n\nVia the environment variable, use comma-separated values:\n\n  HOSTCMD_ALLOW=pbcopy,uname\n\nWhen any allow rule is set, the server rejects commands whose\nexecutable name is not in the list. When no allow rules are set,\nall commands are permitted.";

/// The long help of the command words.
pub const COMMAND_HELP: &'static str =
    "Command and arguments to execute on the server.\n\nThe first token is the executable name and subsequent tokens are passed as positional arguments. `--` is optional when the command is written after all `hostcmd exec` flags, but it can still be used to stop option parsing explicitly.";

/// The long help of the pid file of a daemon to stop.
pub const STOP_PID_FILE_HELP: &'static str =
    "File that contains the daemon server process id.\n\nUse this when the daemon was started with a custom `--pid-file` path. Defaults to `~/.local/share/hostcmd/server.pid`.";

/// An option that takes one value, need not be given, and says nothing more of itself.
pub open spec fn plain_option(id: &'static str, long: &'static str) -> OptionRule {
    OptionRule {
        id,
        long: Some(long),
        env: None,
        value_name: None,
        default: None,
        delimiter: None,
        min_values: 1,
        max_values: 1,
        required: false,
        trailing: false,
        occurrence: OccurrenceRule::Once,
        kind: ValueKind::Text,
        help: "",
        long_help: None,
    }
}

/// The options that a client and a server share.
pub open spec fn connection_options() -> Seq<OptionRule> {
    seq![
        OptionRule {
            env: Some(SECRET_ENV_VAR),
            value_name: Some("SECRET"),
            required: true,
            help: "Shared secret for authenticating between client and server",
            long_help: Some(SECRET_HELP),
            ..plain_option("secret", "secret")
        },
        OptionRule {
            env: Some(PORT_ENV_VAR),
            value_name: Some("PORT"),
            required: true,
            kind: ValueKind::Port,
            help: "TCP port used for the websocket connection",
            long_help: Some(PORT_HELP),
            ..plain_option("port", "port")
        },
        OptionRule {
            env: Some(HOST_ENV_VAR),
            value_name: Some("HOST"),
            required: true,
            help: "Host address to bind or connect to",
            long_help: Some(HOST_HELP),
            ..plain_option("host", "host")
        },
    ]
}

/// The pid file option, which a server and the stop command share but for its help.
pub open spec fn pid_file_option(help: &'static str, long_help: &'static str) -> OptionRule {
    OptionRule {
        env: Some(PID_FILE_ENV_VAR),
        value_name: Some("file"),
        default: Some(DEFAULT_PID_FILE),
        kind: ValueKind::Path,
        help,
        long_help: Some(long_help),
        ..plain_option("pid_file", "pid-file")
    }
}

/// The options of the server.
pub open spec fn server_options() -> Seq<OptionRule> {
    connection_options() + seq![
        OptionRule {
            env: Some(LOG_FILE_ENV_VAR),
            value_name: Some("file"),
            kind: ValueKind::Path,
            help: "File that receives server log output instead of stdout",
            long_help: Some(LOG_FILE_HELP),
            ..plain_option("log_file", "log-file")
        },
        pid_file_option(
            "File that receives the running server process id",
            SERVER_PID_FILE_HELP,
        ),
        OptionRule {
            min_values: 0,
            max_values: 0,
            occurrence: OccurrenceRule::Flag,
            kind: ValueKind::Truth,
            help: "Start the server in the background as a daemon process",
            long_help: Some(DAEMON_HELP),
            ..plain_option("daemon", "daemon")
        },
        OptionRule {
            env: Some(SSH_FORWARD_ENV_VAR),
            value_name: Some("hostname"),
            help: "SSH hostname used to expose the server through a reverse port forward.",
            long_help: Some(SSH_FORWARD_HELP),
            ..plain_option("ssh_forward", "ssh-forward")
        },
        OptionRule {
            env: Some(SSH_FORWARD_PORT_ENV_VAR),
            value_name: Some("port"),
            kind: ValueKind::Port,
            help: "SSH port used when connecting to the reverse port forward host",
            long_help: Some(SSH_FORWARD_PORT_HELP),
            ..plain_option("ssh_forward_port", "ssh-forward-port")
        },
        OptionRule {
            env: Some(ALLOW_ENV_VAR),
            value_name: Some("cmd"),
            delimiter: Some(','),
            occurrence: OccurrenceRule::Collect,
            help: "Command names allowed for remote execution.",
            long_help: Some(ALLOW_HELP),
            ..plain_option("allow", "allow")
        },
    ]
}

/// The options of the stop command.
pub open spec fn stop_options() -> Seq<OptionRule> {
    seq![
        pid_file_option(
            "File that contains the daemon server process id",
            STOP_PID_FILE_HELP,
        ),
    ]
}

/// The options of the exec command, and the words of the command to execute.
pub open spec fn exec_options() -> Seq<OptionRule> {
    connection_options() + seq![
        OptionRule {
            long: None,
            env: Some(COMMAND_ENV_VAR),
            value_name: Some("COMMAND"),
            max_values: usize::MAX,
            required: true,
            trailing: true,
            occurrence: OccurrenceRule::Collect,
            help: "Command and arguments to execute on the server",
            long_help: Some(COMMAND_HELP),
            ..plain_option("command", "command")
        },
    ]
}

/// The program.
pub open spec fn program_rule() -> CommandRule {
    CommandRule {
        name: "hostcmd",
        about: "Command line interface for the hostcmd binary",
        version: Some(VERSION),
        chooses: true,
    }
}

/// A subcommand.
pub open spec fn subcommand_rule(name: &'static str, about: &'static str) -> CommandRule {
    CommandRule { name, about, version: None, chooses: false }
}

/// The whole definition: the program itself, and then its subcommands.
pub open spec fn program_definition() -> Seq<CommandDefinition> {
    seq![
        CommandDefinition { rule: program_rule(), options: Seq::empty() },
        CommandDefinition {
            rule: subcommand_rule("server", "Start a websocket command execution server"),
            options: server_options(),
        },
        CommandDefinition {
            rule: subcommand_rule("stop", "Stop a daemon server using its pid file"),
            options: stop_options(),
        },
        CommandDefinition {
            rule: subcommand_rule("exec", "Execute a command through a remote websocket server"),
            options: exec_options(),
        },
    ]
}

/// The definition of a command line: `clap::Command`.
#[verifier::external_type_specification]
#[verifier::external_body]
pub struct ExCommand(clap::Command);

/// Names what a `clap::Command` was built from: its own rule and options, and then those of each of
/// its subcommands, none of which has subcommands of its own.
pub uninterp spec fn definition_of(command: clap::Command) -> Seq<CommandDefinition>;

/// Makes a command without options: `clap::Command::new` with the texts and the two settings on
/// subcommands that the rule names.
#[verifier::external_body]
fn new_command(rule: CommandRule) -> (command: clap::Command)
    ensures
        definition_of(command) == seq![CommandDefinition { rule, options: Seq::empty() }],
{
    clap::Command::new(rule.name)
        .about(rule.about)
        .version(rule.version)
        .subcommand_required(rule.chooses)
        .arg_required_else_help(rule.chooses)
}

/// Adds an option to a command: `clap::Command::arg` with a `clap::Arg` that has the settings that
/// the rule names. A port is what clap reads for a `u16`. The current value of the rule's
/// environment variable is read here.
#[verifier::external_body]
fn with_option(command: clap::Command, rule: OptionRule) -> (r: clap::Command)
    requires
        definition_of(command).len() == 1,
        rule.min_values <= rule.max_values,
    ensures
        definition_of(r) == seq![
            CommandDefinition {
                rule: definition_of(command)[0].rule,
                options: definition_of(command)[0].options.push(rule),
            },
        ],
{
    let action = match rule.occurrence {
        OccurrenceRule::Once => ArgAction::Set,
        OccurrenceRule::Collect => ArgAction::Append,
        OccurrenceRule::Flag => ArgAction::SetTrue,
    };
    let parser = match rule.kind {
        ValueKind::Text => ValueParser::string(),
        ValueKind::Path => ValueParser::path_buf(),
        ValueKind::Port => u16::value_parser().into(),
        ValueKind::Truth => ValueParser::bool(),
    };
    let arg = Arg::new(rule.id).long(rule.long).env(rule.env).value_name(rule.value_name)
        .default_value(rule.default).value_delimiter(rule.delimiter).required(rule.required)
        .num_args(rule.min_values..=rule.max_values).trailing_var_arg(rule.trailing);
    command.arg(arg.action(action).value_parser(parser).help(rule.help).long_help(rule.long_help))
}

/// Adds a subcommand without subcommands of its own to a command: `clap::Command::subcommand` keeps
/// it behind those that were added before.
#[verifier::external_body]
fn with_subcommand(command: clap::Command, subcommand: clap::Command) -> (r: clap::Command)
    requires
        definition_of(command).len() >= 1,
        definition_of(subcommand).len() == 1,
    ensures
        definition_of(r) == definition_of(command) + definition_of(subcommand),
{
    command.subcommand(subcommand)
}

/// Makes an option that takes one value, need not be given, and says nothing more of itself.
fn plain(id: &'static str, long: &'static str) -> (rule: OptionRule)
    ensures
        rule == plain_option(id, long),
{
    OptionRule {
        id,
        long: Some(long),
        env: None,
        value_name: None,
        default: None,
        delimiter: None,
        min_values: 1,
        max_values: 1,
        required: false,
        trailing: false,
        occurrence: OccurrenceRule::Once,
        kind: ValueKind::Text,
        help: "",
        long_help: None,
    }
}

/// Adds the options that a client and a server share.
fn with_connection_options(command: clap::Command) -> (r: clap::Command)
    requires
        definition_of(command).len() == 1,
        definition_of(command)[0].options == Seq::<OptionRule>::empty(),
    ensures
        definition_of(r) == seq![
            CommandDefinition {
                rule: definition_of(command)[0].rule,
                options: connection_options(),
            },
        ],
{
    let secret = OptionRule {
        env: Some(SECRET_ENV_VAR),
        value_name: Some("SECRET"),
        required: true,
        help: "Shared secret for authenticating between client and server",
        long_help: Some(SECRET_HELP),
        ..plain("secret", "secret")
    };
    let port = OptionRule {
        env: Some(PORT_ENV_VAR),
        value_name: Some("PORT"),
        required: true,
        kind: ValueKind::Port,
        help: "TCP port used for the websocket connection",
        long_help: Some(PORT_HELP),
        ..plain("port", "port")
    };
    let host = OptionRule {
        env: Some(HOST_ENV_VAR),
        value_name: Some("HOST"),
        required: true,
        help: "Host address to bind or connect to",
        long_help: Some(HOST_HELP),
        ..plain("host", "host")
    };
    let r = with_option(with_option(with_option(command, secret), port), host);
    assert(definition_of(r)[0].options =~= connection_options());
    r
}

/// Makes the pid file option.
fn pid_file(help: &'static str, long_help: &'static str) -> (rule: OptionRule)
    ensures
        rule == pid_file_option(help, long_help),
{
    OptionRule {
        env: Some(PID_FILE_ENV_VAR),
        value_name: Some("file"),
        default: Some(DEFAULT_PID_FILE),
        kind: ValueKind::Path,
        help,
        long_help: Some(long_help),
        ..plain("pid_file", "pid-file")
    }
}

/// Makes a subcommand without options.
fn new_subcommand(name: &'static str, about: &'static str) -> (command: clap::Command)
    ensures
        definition_of(command) == seq![
            CommandDefinition { rule: subcommand_rule(name, about), options: Seq::empty() },
        ],
{
    new_command(CommandRule { name, about, version: None, chooses: false })
}

/// Defines the server command.
fn server_command() -> (command: clap::Command)
    ensures
        definition_of(command) == seq![program_definition()[1]],
{
    let log_file = OptionRule {
        env: Some(LOG_FILE_ENV_VAR),
        value_name: Some("file"),
        kind: ValueKind::Path,
        help: "File that receives server log output instead of stdout",
        long_help: Some(LOG_FILE_HELP),
        ..plain("log_file", "log-file")
    };
    let pid_file = pid_file(
        "File that receives the running server process id",
        SERVER_PID_FILE_HELP,
    );
    let daemon = OptionRule {
        min_values: 0,
        max_values: 0,
        occurrence: OccurrenceRule::Flag,
        kind: ValueKind::Truth,
        help: "Start the server in the background as a daemon process",
        long_help: Some(DAEMON_HELP),
        ..plain("daemon", "daemon")
    };
    let ssh_forward = OptionRule {
        env: Some(SSH_FORWARD_ENV_VAR),
        value_name: Some("hostname"),
        help: "SSH hostname used to expose the server through a reverse port forward.",
        long_help: Some(SSH_FORWARD_HELP),
        ..plain("ssh_forward", "ssh-forward")
    };
    let ssh_forward_port = OptionRule {
        env: Some(SSH_FORWARD_PORT_ENV_VAR),
        value_name: Some("port"),
        kind: ValueKind::Port,
        help: "SSH port used when connecting to the reverse port forward host",
        long_help: Some(SSH_FORWARD_PORT_HELP),
        ..plain("ssh_forward_port", "ssh-forward-port")
    };
    let allow = OptionRule {
        env: Some(ALLOW_ENV_VAR),
        value_name: Some("cmd"),
        delimiter: Some(','),
        occurrence: OccurrenceRule::Collect,
        help: "Command names allowed for remote execution.",
        long_help: Some(ALLOW_HELP),
        ..plain("allow", "allow")
    };
    let command = with_connection_options(
        new_subcommand("server", "Start a websocket command execution server"),
    );
    let command = with_option(with_option(with_option(command, log_file), pid_file), daemon);
    let command = with_option(command, ssh_forward);
    let command = with_option(with_option(command, ssh_forward_port), allow);
    assert(definition_of(command)[0].options =~= server_options());
    command
}

/// Defines the stop command.
fn stop_command() -> (command: clap::Command)
    ensures
        definition_of(command) == seq![program_definition()[2]],
{
    let command = with_option(
        new_subcommand("stop", "Stop a daemon server using its pid file"),
        pid_file("File that contains the daemon server process id", STOP_PID_FILE_HELP),
    );
    assert(definition_of(command)[0].options =~= stop_options());
    command
}

/// Defines the exec command.
fn exec_command() -> (command: clap::Command)
    ensures
        definition_of(command) == seq![program_definition()[3]],
{
    let words = OptionRule {
        long: None,
        env: Some(COMMAND_ENV_VAR),
        value_name: Some("COMMAND"),
        max_values: usize::MAX,
        required: true,
        trailing: true,
        occurrence: OccurrenceRule::Collect,
        help: "Command and arguments to execute on the server",
        long_help: Some(COMMAND_HELP),
        ..plain("command", "command")
    };
    let command = with_option(
        with_connection_options(
            new_subcommand("exec", "Execute a command through a remote websocket server"),
        ),
        words,
    );
    assert(definition_of(command)[0].options =~= exec_options());
    command
}

/// Defines the command line.
pub fn command() -> (command: clap::Command)
    ensures
        definition_of(command) == program_definition(),
{
    let program = new_command(
        CommandRule {
            name: "hostcmd",
            about: "Command line interface for the hostcmd binary",
            version: Some(VERSION),
            chooses: true,
        },
    );
    let program = with_subcommand(program, server_command());
    let program = with_subcommand(program, stop_command());
    let program = with_subcommand(program, exec_command());
    assert(definition_of(program) =~= program_definition());
    program
}

/// Within each subcommand every option goes by a name of its own.
pub proof fn law_options_go_by_their_own_names(subcommand: int, i: int, j: int)
    requires
        0 <= subcommand < program_definition().len(),
        0 <= i < j < program_definition()[subcommand].options.len(),
    ensures
        program_definition()[subcommand].options[i].id@
            != program_definition()[subcommand].options[j].id@,
{
    reveal_strlit("secret");
    reveal_strlit("port");
    reveal_strlit("host");
    reveal_strlit("log_file");
    reveal_strlit("pid_file");
    reveal_strlit("daemon");
    reveal_strlit("ssh_forward");
    reveal_strlit("ssh_forward_port");
    reveal_strlit("allow");
    reveal_strlit("command");
    let options = program_definition()[subcommand].options;
    if subcommand == 1 || subcommand == 3 {
        assert(options[0].id@.len() == 6 && options[0].id@[0] == 's');
        assert(options[1].id@.len() == 4 && options[1].id@[0] == 'p');
        assert(options[2].id@.len() == 4 && options[2].id@[0] == 'h');
    }
    if subcommand == 1 {
        assert(options[3].id@.len() == 8 && options[3].id@[0] == 'l');
        assert(options[4].id@.len() == 8 && options[4].id@[0] == 'p');
        assert(options[5].id@.len() == 6 && options[5].id@[0] == 'd');
        assert(options[6].id@.len() == 11);
        assert(options[7].id@.len() == 16);
        assert(options[8].id@.len() == 5);
    }
    if subcommand == 3 {
        assert(options[3].id@.len() == 7);
    }
}

} // verus!
