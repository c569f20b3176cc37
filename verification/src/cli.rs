//! The command line: its subcommands and their options.

use crate::cli_rules::{command, definition_of, program_definition, CommandDefinition};
use crate::config::HostPath;
use crate::text::{concat2, concat3, integer_value, parse_integer, same_text, texts_of};
use crate::wire::string_from_utf8;
use vstd::prelude::*;
use vstd::utf8::{decode_utf8, encode_utf8, encode_utf8_decode_utf8, valid_utf8};

verus! {

/// Command line interface for the hostcmd binary.
#[derive(Debug, PartialEq, Eq)]
pub struct Cli {
    /// Subcommand selected by the caller.
    pub command: Commands,
}

/// Top-level actions supported by the hostcmd binary.
#[derive(Debug, PartialEq, Eq)]
pub enum Commands {
    /// Start a websocket command execution server.
    Server(ServerArgs),
    /// Stop a daemon server using its pid file.
    Stop(StopArgs),
    /// Execute a command through a remote websocket server.
    Exec(ExecArgs),
}

/// Shared connection and authentication options for server and client modes.
///
/// These three fields are required for both the server and client to establish
/// an authenticated WebSocket connection. They can be provided as flags or
/// through their corresponding environment variables for flag-free usage.
#[derive(Debug, PartialEq, Eq)]
pub struct ConnectionArgs {
    /// Shared secret for authenticating between client and server.
    pub secret: String,
    /// TCP port used for the websocket connection.
    pub port: u16,
    /// Host address to bind or connect to.
    pub host: String,
}

/// Arguments for running the websocket server.
#[derive(Debug, PartialEq, Eq)]
pub struct ServerArgs {
    /// Shared connection settings for the server listener.
    pub connection: ConnectionArgs,
    /// File that receives server log output instead of stdout.
    pub log_file: Option<HostPath>,
    /// File that receives the running server process id.
    pub pid_file: HostPath,
    /// Start the server in the background as a daemon process.
    pub daemon: bool,
    /// SSH hostname used to expose the server through a reverse port forward.
    pub ssh_forward: Option<String>,
    /// SSH port used when connecting to the reverse port forward host.
    pub ssh_forward_port: Option<u16>,
    /// Command names allowed for remote execution.
    pub allow: Vec<String>,
}

/// Arguments for executing a command through the websocket server.
#[derive(Debug, PartialEq, Eq)]
pub struct ExecArgs {
    /// Shared connection settings for the client connection.
    pub connection: ConnectionArgs,
    /// Command and arguments to execute on the server.
    pub command: Vec<String>,
}

/// Arguments for stopping a daemon server.
#[derive(Debug, PartialEq, Eq)]
pub struct StopArgs {
    /// File that contains the daemon server process id.
    pub pid_file: HostPath,
}

/// The arguments of a connection over texts.
pub struct ConnectionView {
    pub secret: Seq<char>,
    pub port: u16,
    pub host: Seq<char>,
}

impl View for ConnectionArgs {
    type V = ConnectionView;

    open spec fn view(&self) -> ConnectionView {
        ConnectionView { secret: self.secret@, port: self.port, host: self.host@ }
    }
}

/// The chosen subcommand and its arguments, over texts and byte sequences.
pub enum CommandsView {
    Server {
        connection: ConnectionView,
        log_file: Option<Seq<u8>>,
        pid_file: Seq<u8>,
        daemon: bool,
        ssh_forward: Option<Seq<char>>,
        ssh_forward_port: Option<u16>,
        allow: Seq<Seq<char>>,
    },
    Stop { pid_file: Seq<u8> },
    Exec { connection: ConnectionView, command: Seq<Seq<char>> },
}

impl View for Commands {
    type V = CommandsView;

    open spec fn view(&self) -> CommandsView {
        match *self {
            Commands::Server(args) => CommandsView::Server {
                connection: args.connection@,
                log_file: match args.log_file {
                    Some(path) => Some(path@),
                    None => None,
                },
                pid_file: args.pid_file@,
                daemon: args.daemon,
                ssh_forward: match args.ssh_forward {
                    Some(hostname) => Some(hostname@),
                    None => None,
                },
                ssh_forward_port: args.ssh_forward_port,
                allow: texts_of(args.allow@),
            },
            Commands::Stop(args) => CommandsView::Stop { pid_file: args.pid_file@ },
            Commands::Exec(args) => CommandsView::Exec {
                connection: args.connection@,
                command: texts_of(args.command@),
            },
        }
    }
}

/// Why matched arguments are no command line of this program.
#[derive(Debug)]
pub enum CliError {
    /// No subcommand was chosen.
    MissingSubcommand,
    /// There is no such subcommand.
    UnknownSubcommand(String),
    /// The argument of this name has no value.
    MissingArgument(&'static str),
    /// The argument of this name has a value that it cannot have.
    InvalidArgument(&'static str),
}

/// Why matched arguments are no command line of this program, over texts.
pub enum CliErrorView {
    MissingSubcommand,
    UnknownSubcommand(Seq<char>),
    MissingArgument(Seq<char>),
    InvalidArgument(Seq<char>),
}

impl View for CliError {
    type V = CliErrorView;

    open spec fn view(&self) -> CliErrorView {
        match *self {
            CliError::MissingSubcommand => CliErrorView::MissingSubcommand,
            CliError::UnknownSubcommand(name) => CliErrorView::UnknownSubcommand(name@),
            CliError::MissingArgument(id) => CliErrorView::MissingArgument(id@),
            CliError::InvalidArgument(id) => CliErrorView::InvalidArgument(id@),
        }
    }
}

/// The description of matched arguments that are no command line of this program.
pub open spec fn cli_error_text(error: CliErrorView) -> Seq<char> {
    match error {
        CliErrorView::MissingSubcommand =>
            "A subcommand is required but one was not provided."@,
        CliErrorView::UnknownSubcommand(name) => "The subcommand '"@ + name
            + "' wasn't recognized"@,
        CliErrorView::MissingArgument(id) =>
            "The following required argument was not provided: "@ + id,
        CliErrorView::InvalidArgument(id) => "The following argument has an invalid value: "@ + id,
    }
}

impl CliError {
    /// Says what is wrong.
    pub fn message(&self) -> (r: String)
        ensures
            r@ == cli_error_text(self@),
    {
        match self {
            CliError::MissingSubcommand =>
                "A subcommand is required but one was not provided.".to_owned(),
            CliError::UnknownSubcommand(name) => concat3(
                "The subcommand '",
                name.as_str(),
                "' wasn't recognized",
            ),
            CliError::MissingArgument(id) => concat2(
                "The following required argument was not provided: ",
                id,
            ),
            CliError::InvalidArgument(id) => concat2(
                "The following argument has an invalid value: ",
                id,
            ),
        }
    }
}

/// The values of matched arguments: for each argument that has any, its values as they were given,
/// one after the other.
pub type Values = Map<Seq<char>, Seq<Seq<u8>>>;

/// The byte sequences of a list of byte vectors.
pub open spec fn bytes_of(list: Seq<Vec<u8>>) -> Seq<Seq<u8>> {
    Seq::new(list.len(), |i: int| list[i]@)
}

/// Matched arguments: `clap::ArgMatches`.
#[verifier::external_type_specification]
#[verifier::external_body]
pub struct ExArgMatches(clap::ArgMatches);

/// Names the values that a `clap::ArgMatches` holds: for each argument that has any, its values as
/// they were given.
pub uninterp spec fn values_of(matches: clap::ArgMatches) -> Map<Seq<char>, Seq<Seq<u8>>>;

/// Asks for the values of an argument as they were given: `clap::ArgMatches::try_get_raw`. An
/// argument that was not given has none.
#[verifier::external_body]
fn raw_values(matches: &clap::ArgMatches, id: &str) -> (r: Option<Vec<Vec<u8>>>)
    ensures
        r is Some == values_of(*matches).dom().contains(id@),
        r matches Some(values) ==> bytes_of(values@) == values_of(*matches)[id@],
{
    let values = matches.try_get_raw(id).ok().flatten()?;
    Some(values.map(|value| value.as_encoded_bytes().to_vec()).collect())
}

/// What the argument parser answers where it hands out no arguments: an error, or the help or the
/// version that was asked for.
#[derive(Debug, PartialEq, Eq)]
pub struct ParserAnswer {
    /// The text of the answer.
    pub text: String,
    /// The exit code that goes with it.
    pub code: i32,
    /// Whether it belongs on stderr.
    pub on_stderr: bool,
}

impl View for ParserAnswer {
    type V = (Seq<char>, i32, bool);

    open spec fn view(&self) -> (Seq<char>, i32, bool) {
        (self.text@, self.code, self.on_stderr)
    }
}

/// The exit code that goes with an answer.
pub open spec fn answer_code(on_stderr: bool) -> i32 {
    if on_stderr {
        2
    } else {
        0
    }
}

/// Names the subcommand that a `clap::ArgMatches` holds, with the values of its own arguments; the
/// sequence is empty where none was chosen.
pub uninterp spec fn chosen_in(matches: clap::ArgMatches) -> Seq<
    (Seq<char>, Map<Seq<char>, Seq<Seq<u8>>>),
>;

/// Gives the subcommand that was chosen, with its own arguments: `clap::ArgMatches::subcommand`.
#[verifier::external_body]
fn chosen_subcommand(matches: &clap::ArgMatches) -> (r: Option<(String, clap::ArgMatches)>)
    ensures
        match r {
            Some((name, inner)) => chosen_in(*matches) == seq![(name@, values_of(inner))],
            None => chosen_in(*matches).len() == 0,
        },
{
    matches.subcommand().map(|(name, inner)| (name.to_owned(), inner.clone()))
}

/// Names the values of the environment variables that were read while a `clap::Command` was built,
/// by the subcommand and the name of the argument that each stands in for.
pub uninterp spec fn environment_of(command: clap::Command) -> Map<
    (Seq<char>, Seq<char>),
    Seq<u8>,
>;

/// Names what `clap::Command::try_get_matches_from` makes of arguments, given the definition of the
/// command line and the values of its environment variables: the chosen subcommand with the values
/// of its arguments, or, where it answers the arguments itself, the text of the answer, its exit
/// code and whether it belongs on stderr.
pub uninterp spec fn parsed_arguments(
    definition: Seq<CommandDefinition>,
    environment: Map<(Seq<char>, Seq<char>), Seq<u8>>,
    arguments: Seq<Seq<char>>,
) -> Result<Seq<(Seq<char>, Map<Seq<char>, Seq<Seq<u8>>>)>, (Seq<char>, i32, bool)>;

/// Matches arguments against the definition of the command line:
/// `clap::Command::try_get_matches_from`. What it makes of them, and the words of its answers, are
/// named and not described here. An answer on stderr goes with the exit code 2, any other one with
/// 0. It panics on some definitions, and not on this one.
#[verifier::external_body]
fn match_arguments(command: clap::Command, arguments: Vec<String>) -> (r: Result<
    clap::ArgMatches,
    ParserAnswer,
>)
    requires
        definition_of(command) == program_definition(),
    ensures
        match parsed_arguments(
            definition_of(command),
            environment_of(command),
            texts_of(arguments@),
        ) {
            Ok(chosen) => r is Ok && chosen_in(r->Ok_0) == chosen,
            Err(answer) => r is Err && r->Err_0@ == answer,
        },
        r matches Err(answer) ==> answer.code == answer_code(answer.on_stderr),
{
    command.try_get_matches_from(arguments).map_err(
        |e| ParserAnswer {
            text: e.render().to_string(),
            code: e.exit_code(),
            on_stderr: e.use_stderr(),
        },
    )
}

/// The first value of an argument.
pub open spec fn first_value(values: Values, id: Seq<char>) -> Option<Seq<u8>> {
    if values.dom().contains(id) && values[id].len() > 0 {
        Some(values[id][0])
    } else {
        None
    }
}

/// The text that a value writes.
pub open spec fn text_of_value(value: Seq<u8>) -> Option<Seq<char>> {
    if valid_utf8(value) {
        Some(decode_utf8(value))
    } else {
        None
    }
}

/// The port that a text writes: a whole number from 0 to 65535, with an optional sign before it.
pub open spec fn port_of_text(text: Seq<char>) -> Option<u16> {
    match integer_value(text) {
        Some(n) => if 0 <= n <= u16::MAX {
            Some(n as u16)
        } else {
            None
        },
        None => None,
    }
}

/// What an optional argument that is a text comes to.
pub open spec fn optional_text(values: Values, id: Seq<char>) -> Result<
    Option<Seq<char>>,
    CliErrorView,
> {
    match first_value(values, id) {
        None => Ok(None),
        Some(value) => match text_of_value(value) {
            Some(text) => Ok(Some(text)),
            None => Err(CliErrorView::InvalidArgument(id)),
        },
    }
}

/// What an optional argument that is a port comes to.
pub open spec fn optional_port(values: Values, id: Seq<char>) -> Result<
    Option<u16>,
    CliErrorView,
> {
    match optional_text(values, id) {
        Err(e) => Err(e),
        Ok(None) => Ok(None),
        Ok(Some(text)) => match port_of_text(text) {
            Some(port) => Ok(Some(port)),
            None => Err(CliErrorView::InvalidArgument(id)),
        },
    }
}

/// What an argument that has to be there comes to.
pub open spec fn required<T>(value: Result<Option<T>, CliErrorView>, id: Seq<char>) -> Result<
    T,
    CliErrorView,
> {
    match value {
        Err(e) => Err(e),
        Ok(None) => Err(CliErrorView::MissingArgument(id)),
        Ok(Some(value)) => Ok(value),
    }
}

/// The values of an argument; none where it was not given.
pub open spec fn all_values(values: Values, id: Seq<char>) -> Seq<Seq<u8>> {
    if values.dom().contains(id) {
        values[id]
    } else {
        Seq::empty()
    }
}

/// Whether all values are texts.
pub open spec fn all_texts(list: Seq<Seq<u8>>) -> bool {
    forall|i: int| 0 <= i < list.len() ==> valid_utf8(#[trigger] list[i])
}

/// What an argument that is a list of texts comes to.
pub open spec fn text_list(values: Values, id: Seq<char>) -> Result<Seq<Seq<char>>, CliErrorView> {
    let list = all_values(values, id);
    if all_texts(list) {
        Ok(list.map_values(|value: Seq<u8>| decode_utf8(value)))
    } else {
        Err(CliErrorView::InvalidArgument(id))
    }
}

/// Whether a flag was given.
pub open spec fn flag_given(values: Values, id: Seq<char>) -> bool {
    first_value(values, id) == Some(encode_utf8("true"@))
}

/// What the arguments of a connection come to.
pub open spec fn connection_in(values: Values) -> Result<ConnectionView, CliErrorView> {
    match required(optional_text(values, "secret"@), "secret"@) {
        Err(e) => Err(e),
        Ok(secret) => match required(optional_port(values, "port"@), "port"@) {
            Err(e) => Err(e),
            Ok(port) => match required(optional_text(values, "host"@), "host"@) {
                Err(e) => Err(e),
                Ok(host) => Ok(ConnectionView { secret, port, host }),
            },
        },
    }
}

/// What the arguments of the server come to.
pub open spec fn server_in(values: Values) -> Result<CommandsView, CliErrorView> {
    match connection_in(values) {
        Err(e) => Err(e),
        Ok(connection) => match first_value(values, "pid_file"@) {
            None => Err(CliErrorView::MissingArgument("pid_file"@)),
            Some(pid_file) => match optional_text(values, "ssh_forward"@) {
                Err(e) => Err(e),
                Ok(ssh_forward) => match optional_port(values, "ssh_forward_port"@) {
                    Err(e) => Err(e),
                    Ok(ssh_forward_port) => match text_list(values, "allow"@) {
                        Err(e) => Err(e),
                        Ok(allow) => Ok(
                            CommandsView::Server {
                                connection,
                                log_file: first_value(values, "log_file"@),
                                pid_file,
                                daemon: flag_given(values, "daemon"@),
                                ssh_forward,
                                ssh_forward_port,
                                allow,
                            },
                        ),
                    },
                },
            },
        },
    }
}

/// What the arguments of the stop command come to.
pub open spec fn stop_in(values: Values) -> Result<CommandsView, CliErrorView> {
    match first_value(values, "pid_file"@) {
        None => Err(CliErrorView::MissingArgument("pid_file"@)),
        Some(pid_file) => Ok(CommandsView::Stop { pid_file }),
    }
}

/// What the arguments of the exec command come to.
pub open spec fn exec_in(values: Values) -> Result<CommandsView, CliErrorView> {
    match connection_in(values) {
        Err(e) => Err(e),
        Ok(connection) => match text_list(values, "command"@) {
            Err(e) => Err(e),
            Ok(command) => if command.len() == 0 {
                Err(CliErrorView::MissingArgument("command"@))
            } else {
                Ok(CommandsView::Exec { connection, command })
            },
        },
    }
}

/// What a subcommand with these arguments comes to.
pub open spec fn commands_in(name: Seq<char>, values: Values) -> Result<
    CommandsView,
    CliErrorView,
> {
    if name == "server"@ {
        server_in(values)
    } else if name == "stop"@ {
        stop_in(values)
    } else if name == "exec"@ {
        exec_in(values)
    } else {
        Err(CliErrorView::UnknownSubcommand(name))
    }
}

/// What the chosen subcommand comes to.
pub open spec fn cli_in(chosen: Seq<(Seq<char>, Values)>) -> Result<CommandsView, CliErrorView> {
    if chosen.len() == 0 {
        Err(CliErrorView::MissingSubcommand)
    } else {
        commands_in(chosen[0].0, chosen[0].1)
    }
}

/// What arguments come to, given the values of the environment variables; where the argument parser
/// answers them itself, the text of the answer, its exit code and whether it belongs on stderr.
pub open spec fn cli_outcome(
    environment: Map<(Seq<char>, Seq<char>), Seq<u8>>,
    arguments: Seq<Seq<char>>,
) -> Result<Result<CommandsView, CliErrorView>, (Seq<char>, i32, bool)> {
    match parsed_arguments(program_definition(), environment, arguments) {
        Ok(chosen) => Ok(cli_in(chosen)),
        Err(answer) => Err(answer),
    }
}

/// Gives the first value of an argument.
fn first(matches: &clap::ArgMatches, id: &str) -> (r: Option<Vec<u8>>)
    ensures
        match first_value(values_of(*matches), id@) {
            Some(value) => r is Some && r->Some_0@ == value,
            None => r is None,
        },
{
    match raw_values(matches, id) {
        None => None,
        Some(values) => if values.len() == 0 {
            None
        } else {
            assert(values@[0]@ == bytes_of(values@)[0]);
            Some(vstd::slice::slice_to_vec(values[0].as_slice()))
        },
    }
}

/// Gives an optional argument that is a text.
fn text(matches: &clap::ArgMatches, id: &'static str) -> (r: Result<Option<String>, CliError>)
    ensures
        match optional_text(values_of(*matches), id@) {
            Ok(Some(text)) => r is Ok && r->Ok_0 is Some && r->Ok_0->Some_0@ == text,
            Ok(None) => r is Ok && r->Ok_0 is None,
            Err(e) => r is Err && r->Err_0@ == e,
        },
{
    match first(matches, id) {
        None => Ok(None),
        Some(value) => match string_from_utf8(value) {
            Ok(text) => Ok(Some(text)),
            Err(_) => Err(CliError::InvalidArgument(id)),
        },
    }
}

/// Reads a port.
pub fn parse_port(text: &str) -> (r: Option<u16>)
    ensures
        r == port_of_text(text@),
{
    match parse_integer(text) {
        Ok(n) => if 0 <= n && n <= 65535 {
            Some(n as u16)
        } else {
            None
        },
        Err(_) => None,
    }
}

/// Gives an optional argument that is a port.
fn port(matches: &clap::ArgMatches, id: &'static str) -> (r: Result<Option<u16>, CliError>)
    ensures
        match optional_port(values_of(*matches), id@) {
            Ok(port) => r is Ok && r->Ok_0 == port,
            Err(e) => r is Err && r->Err_0@ == e,
        },
{
    match text(matches, id)? {
        None => Ok(None),
        Some(text) => match parse_port(text.as_str()) {
            Some(port) => Ok(Some(port)),
            None => Err(CliError::InvalidArgument(id)),
        },
    }
}

/// Gives an argument that is a list of texts.
fn texts(matches: &clap::ArgMatches, id: &'static str) -> (r: Result<Vec<String>, CliError>)
    ensures
        match text_list(values_of(*matches), id@) {
            Ok(list) => r is Ok && texts_of(r->Ok_0@) == list,
            Err(e) => r is Err && r->Err_0@ == e,
        },
{
    let values = match raw_values(matches, id) {
        Some(values) => values,
        None => Vec::new(),
    };
    let ghost list = all_values(values_of(*matches), id@);
    assert(bytes_of(values@) =~= list);
    let mut texts: Vec<String> = Vec::new();
    let mut i: usize = 0;
    assert(texts_of(texts@) =~= list.take(0).map_values(|value: Seq<u8>| decode_utf8(value)));
    while i < values.len()
        invariant
            i <= values@.len(),
            list == bytes_of(values@),
            list == all_values(values_of(*matches), id@),
            texts@.len() == i,
            forall|j: int| 0 <= j < i ==> valid_utf8(#[trigger] list[j]),
            texts_of(texts@) == list.take(i as int).map_values(
                |value: Seq<u8>| decode_utf8(value),
            ),
        decreases values@.len() - i,
    {
        let value = vstd::slice::slice_to_vec(values[i].as_slice());
        assert(list[i as int] == value@);
        let text = match string_from_utf8(value) {
            Ok(text) => text,
            Err(_) => return Err(CliError::InvalidArgument(id)),
        };
        let ghost before = texts@;
        texts.push(text);
        assert(texts_of(texts@) =~= texts_of(before).push(text@));
        assert(texts_of(texts@) =~= list.take(i + 1).map_values(
            |value: Seq<u8>| decode_utf8(value),
        ));
        i += 1;
    }
    assert(list.take(list.len() as int) =~= list);
    Ok(texts)
}

/// Says whether a flag was given.
fn flag(matches: &clap::ArgMatches, id: &str) -> (r: bool)
    ensures
        r == flag_given(values_of(*matches), id@),
{
    match first(matches, id) {
        None => false,
        Some(value) => {
            let ghost bytes = value@;
            match string_from_utf8(value) {
                Ok(text) => {
                    proof {
                        vstd::utf8::decode_utf8_encode_utf8(bytes);
                        encode_utf8_decode_utf8("true"@);
                    }
                    same_text(text.as_str(), "true")
                },
                Err(_) => {
                    proof {
                        vstd::utf8::encode_utf8_valid_utf8("true"@);
                    }
                    false
                },
            }
        },
    }
}

impl ConnectionArgs {
    /// Takes the connection settings out of matched arguments.
    pub fn from_arg_matches(matches: &clap::ArgMatches) -> (r: Result<ConnectionArgs, CliError>)
        ensures
            match connection_in(values_of(*matches)) {
                Ok(connection) => r is Ok && r->Ok_0@ == connection,
                Err(e) => r is Err && r->Err_0@ == e,
            },
    {
        let secret = match text(matches, "secret")? {
            Some(secret) => secret,
            None => return Err(CliError::MissingArgument("secret")),
        };
        let port: u16 = match port(matches, "port")? {
            Some(port) => port,
            None => return Err(CliError::MissingArgument("port")),
        };
        let host = match text(matches, "host")? {
            Some(host) => host,
            None => return Err(CliError::MissingArgument("host")),
        };
        Ok(ConnectionArgs { secret, port, host })
    }
}

impl ServerArgs {
    /// Takes the server's arguments out of matched arguments.
    pub fn from_arg_matches(matches: &clap::ArgMatches) -> (r: Result<ServerArgs, CliError>)
        ensures
            match server_in(values_of(*matches)) {
                Ok(args) => r is Ok && Commands::Server(r->Ok_0)@ == args,
                Err(e) => r is Err && r->Err_0@ == e,
            },
    {
        let connection = ConnectionArgs::from_arg_matches(matches)?;
        let log_file: Option<HostPath> = match first(matches, "log_file") {
            Some(bytes) => Some(HostPath { bytes }),
            None => None,
        };
        let pid_file = match first(matches, "pid_file") {
            Some(bytes) => HostPath { bytes },
            None => return Err(CliError::MissingArgument("pid_file")),
        };
        let daemon = flag(matches, "daemon");
        let ssh_forward = text(matches, "ssh_forward")?;
        let ssh_forward_port = port(matches, "ssh_forward_port")?;
        let allow = texts(matches, "allow")?;
        Ok(
            ServerArgs {
                connection,
                log_file,
                pid_file,
                daemon,
                ssh_forward,
                ssh_forward_port,
                allow,
            },
        )
    }
}

impl StopArgs {
    /// Takes the stop command's arguments out of matched arguments.
    pub fn from_arg_matches(matches: &clap::ArgMatches) -> (r: Result<StopArgs, CliError>)
        ensures
            match stop_in(values_of(*matches)) {
                Ok(args) => r is Ok && Commands::Stop(r->Ok_0)@ == args,
                Err(e) => r is Err && r->Err_0@ == e,
            },
    {
        match first(matches, "pid_file") {
            Some(bytes) => Ok(StopArgs { pid_file: HostPath { bytes } }),
            None => Err(CliError::MissingArgument("pid_file")),
        }
    }
}

impl ExecArgs {
    /// Takes the exec command's arguments out of matched arguments.
    pub fn from_arg_matches(matches: &clap::ArgMatches) -> (r: Result<ExecArgs, CliError>)
        ensures
            match exec_in(values_of(*matches)) {
                Ok(args) => r is Ok && Commands::Exec(r->Ok_0)@ == args,
                Err(e) => r is Err && r->Err_0@ == e,
            },
    {
        let connection = ConnectionArgs::from_arg_matches(matches)?;
        let command = texts(matches, "command")?;
        if command.len() == 0 {
            return Err(CliError::MissingArgument("command"));
        }
        Ok(ExecArgs { connection, command })
    }
}

impl Commands {
    /// Takes the subcommand of this name, with its arguments, out of matched arguments.
    pub fn from_arg_matches(name: &str, matches: &clap::ArgMatches) -> (r: Result<
        Commands,
        CliError,
    >)
        ensures
            match commands_in(name@, values_of(*matches)) {
                Ok(commands) => r is Ok && r->Ok_0@ == commands,
                Err(e) => r is Err && r->Err_0@ == e,
            },
    {
        if same_text(name, "server") {
            Ok(Commands::Server(ServerArgs::from_arg_matches(matches)?))
        } else if same_text(name, "stop") {
            Ok(Commands::Stop(StopArgs::from_arg_matches(matches)?))
        } else if same_text(name, "exec") {
            Ok(Commands::Exec(ExecArgs::from_arg_matches(matches)?))
        } else {
            Err(CliError::UnknownSubcommand(name.to_owned()))
        }
    }
}

/// Why there is no command line to act on.
#[derive(Debug)]
pub enum CliStop {
    /// The argument parser refused the arguments, or answered them itself.
    Parser(ParserAnswer),
    /// The matched arguments are no command line of this program.
    Matched(CliError),
}

impl Cli {
    /// Takes the command line out of matched arguments.
    pub fn from_arg_matches(matches: &clap::ArgMatches) -> (r: Result<Cli, CliError>)
        ensures
            match cli_in(chosen_in(*matches)) {
                Ok(command) => r is Ok && r->Ok_0.command@ == command,
                Err(e) => r is Err && r->Err_0@ == e,
            },
    {
        match chosen_subcommand(matches) {
            None => Err(CliError::MissingSubcommand),
            Some((name, inner)) => Ok(
                Cli { command: Commands::from_arg_matches(name.as_str(), &inner)? },
            ),
        }
    }

    /// Parses arguments, the first of which is the name of the program. Environment variables stand
    /// in for options that are not given; whatever their values are, the command line is what the
    /// parsed arguments come to, and a command to execute has at least one word.
    pub fn try_parse_from(arguments: Vec<String>) -> (r: Result<Cli, CliStop>)
        ensures
            exists|environment: Map<(Seq<char>, Seq<char>), Seq<u8>>| #[trigger]
                cli_outcome(environment, texts_of(arguments@)) == match r {
                    Ok(cli) => Ok::<_, (Seq<char>, i32, bool)>(
                        Ok::<CommandsView, CliErrorView>(cli.command@),
                    ),
                    Err(CliStop::Matched(e)) => Ok(Err(e@)),
                    Err(CliStop::Parser(answer)) => Err(answer@),
                },
            r matches Err(CliStop::Parser(answer)) ==> answer.code == answer_code(
                answer.on_stderr,
            ),
            r matches Ok(cli) ==> (cli.command matches Commands::Exec(args)
                ==> args.command@.len() > 0),
    {
        let command = command();
        let ghost outcome = cli_outcome(environment_of(command), texts_of(arguments@));
        match match_arguments(command, arguments) {
            Err(e) => {
                assert(outcome == Err::<Result<CommandsView, CliErrorView>, _>(e@));
                Err(CliStop::Parser(e))
            },
            Ok(matches) => {
                assert(outcome == Ok::<_, (Seq<char>, i32, bool)>(cli_in(chosen_in(matches))));
                match Cli::from_arg_matches(&matches) {
                    Ok(cli) => {
                        assert(outcome == Ok::<_, (Seq<char>, i32, bool)>(
                            Ok::<CommandsView, CliErrorView>(cli.command@),
                        ));
                        Ok(cli)
                    },
                    Err(e) => {
                        assert(outcome == Ok::<_, (Seq<char>, i32, bool)>(
                            Err::<CommandsView, CliErrorView>(e@),
                        ));
                        Err(CliStop::Matched(e))
                    },
                }
            },
        }
    }
}

} // verus!
