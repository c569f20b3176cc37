//! The laws of the command line: what each argument comes to, and how the options are named.

use crate::cli::{
    all_texts, all_values, answer_code, cli_error_text, cli_in, commands_in, exec_in, port_of_text,
    server_in, stop_in, CliErrorView, CommandsView, Values,
};
use crate::cli_rules::{
    connection_options, exec_options, program_definition, server_options, stop_options,
    OccurrenceRule, OptionRule, ValueKind,
};
use crate::text::{decimal, integer_value, lemma_decimal_value};
use vstd::prelude::*;
use vstd::utf8::{
    decode_utf8, encode_utf8, encode_utf8_decode_utf8, encode_utf8_valid_utf8, valid_utf8,
};

verus! {

/// Whether an argument has a value.
pub open spec fn has_value(values: Values, id: Seq<char>) -> bool {
    values.dom().contains(id) && values[id].len() > 0
}

/// The text of the first value of an argument.
pub open spec fn text_at(values: Values, id: Seq<char>) -> Seq<char> {
    decode_utf8(values[id][0])
}

/// Whether the first value of an argument is a text.
pub open spec fn is_text(values: Values, id: Seq<char>) -> bool {
    has_value(values, id) && valid_utf8(values[id][0])
}

/// Whether the first value of an argument writes a number from 0 to 65535.
pub open spec fn is_port(values: Values, id: Seq<char>) -> bool {
    is_text(values, id) && (integer_value(text_at(values, id)) matches Some(n) && 0 <= n <= 65535)
}

/// Whether every value of an argument is a text.
pub open spec fn are_texts(values: Values, id: Seq<char>) -> bool {
    values.dom().contains(id) ==> forall|i: int|
        0 <= i < values[id].len() ==> valid_utf8(#[trigger] values[id][i])
}

/// Whether these are the texts of all values of an argument, in their order; none where it was not
/// given.
pub open spec fn lists(texts: Seq<Seq<char>>, values: Values, id: Seq<char>) -> bool {
    if values.dom().contains(id) {
        &&& texts.len() == values[id].len()
        &&& forall|i: int| 0 <= i < texts.len() ==> #[trigger] texts[i] == decode_utf8(values[id][i])
    } else {
        texts.len() == 0
    }
}

/// Whether the arguments of a connection are all there, and are what they have to be.
pub open spec fn connection_given(values: Values) -> bool {
    is_text(values, "secret"@) && is_port(values, "port"@) && is_text(values, "host"@)
}

/// A port is the number that its text writes, and only a number from 0 to 65535 is one.
pub proof fn law_port_is_the_number(text: Seq<char>, port: u16)
    ensures
        port_of_text(text) == Some(port) <==> integer_value(text) == Some(port as int),
        port_of_text(text) is None <==> !(integer_value(text) matches Some(n) && 0 <= n <= 65535),
        port_of_text(decimal(port as nat)) == Some(port),
{
    lemma_decimal_value(port as nat);
}

/// The server's arguments are the values that were given: its secret, its port, its host, its
/// files, its flag, its forward and its allow list, each of them whatever the others are. The allow
/// list is the list of all values of its argument, in their order, with the flag or without it.
pub proof fn law_server_arguments(values: Values)
    ensures
        server_in(values) is Ok <==> {
            &&& connection_given(values)
            &&& has_value(values, "pid_file"@)
            &&& has_value(values, "ssh_forward"@) ==> is_text(values, "ssh_forward"@)
            &&& has_value(values, "ssh_forward_port"@) ==> is_port(values, "ssh_forward_port"@)
            &&& are_texts(values, "allow"@)
        },
        server_in(values) matches Ok(command) ==> (command matches CommandsView::Server {
            connection,
            log_file,
            pid_file,
            daemon,
            ssh_forward,
            ssh_forward_port,
            allow,
        } && {
            &&& connection.secret == text_at(values, "secret"@)
            &&& integer_value(text_at(values, "port"@)) == Some(connection.port as int)
            &&& connection.host == text_at(values, "host"@)
            &&& has_value(values, "log_file"@) ==> log_file == Some(values["log_file"@][0])
            &&& !has_value(values, "log_file"@) ==> log_file is None
            &&& pid_file == values["pid_file"@][0]
            &&& daemon == (has_value(values, "daemon"@) && values["daemon"@][0] == encode_utf8(
                "true"@,
            ))
            &&& has_value(values, "ssh_forward"@) ==> ssh_forward == Some(
                text_at(values, "ssh_forward"@),
            )
            &&& !has_value(values, "ssh_forward"@) ==> ssh_forward is None
            &&& has_value(values, "ssh_forward_port"@) ==> (ssh_forward_port matches Some(port)
                && integer_value(text_at(values, "ssh_forward_port"@)) == Some(port as int))
            &&& !has_value(values, "ssh_forward_port"@) ==> ssh_forward_port is None
            &&& lists(allow, values, "allow"@)
        }),
{
    let list = all_values(values, "allow"@);
    assert(all_texts(list) <==> are_texts(values, "allow"@));
}

/// Every name that is given with `--allow` is in the server's allow list, and no other.
pub proof fn law_allow_list_is_what_was_given(values: Values, name: Seq<char>)
    requires
        server_in(values) is Ok,
    ensures
        server_in(values)->Ok_0->Server_allow.contains(name) <==> (values.dom().contains("allow"@)
            && exists|i: int|
            0 <= i < values["allow"@].len() && decode_utf8(#[trigger] values["allow"@][i]) == name),
{
    law_server_arguments(values);
    let allow = server_in(values)->Ok_0->Server_allow;
    if values.dom().contains("allow"@) {
        let given = values["allow"@];
        if allow.contains(name) {
            let i = choose|i: int| 0 <= i < allow.len() && allow[i] == name;
            assert(decode_utf8(given[i]) == name);
        }
        if exists|i: int| 0 <= i < given.len() && decode_utf8(#[trigger] given[i]) == name {
            let i = choose|i: int| 0 <= i < given.len() && decode_utf8(#[trigger] given[i]) == name;
            assert(allow[i] == name);
        }
    }
}

/// Whether a server runs in the background changes nothing else of its arguments.
pub proof fn law_daemon_flag_changes_nothing_else(values: Values, flag: Seq<Seq<u8>>)
    requires
        server_in(values) is Ok,
    ensures
        server_in(values.insert("daemon"@, flag)) matches Ok(other) && (other
            matches CommandsView::Server {
            connection,
            log_file,
            pid_file,
            ssh_forward,
            ssh_forward_port,
            allow,
            ..
        } && server_in(values) == Ok::<CommandsView, CliErrorView>(
            CommandsView::Server {
                connection,
                log_file,
                pid_file,
                daemon: server_in(values)->Ok_0->Server_daemon,
                ssh_forward,
                ssh_forward_port,
                allow,
            },
        )),
{
    lemma_server_ids_differ();
    let changed = values.insert("daemon"@, flag);
    law_server_arguments(values);
    law_server_arguments(changed);
    let a = server_in(values)->Ok_0->Server_allow;
    let b = server_in(changed)->Ok_0->Server_allow;
    assert(a =~= b);
}

/// The names of the server's arguments differ from that of its flag.
proof fn lemma_server_ids_differ()
    ensures
        "secret"@ != "daemon"@,
        "port"@ != "daemon"@,
        "host"@ != "daemon"@,
        "log_file"@ != "daemon"@,
        "pid_file"@ != "daemon"@,
        "ssh_forward"@ != "daemon"@,
        "ssh_forward_port"@ != "daemon"@,
        "allow"@ != "daemon"@,
{
    reveal_strlit("secret");
    reveal_strlit("port");
    reveal_strlit("host");
    reveal_strlit("log_file");
    reveal_strlit("pid_file");
    reveal_strlit("daemon");
    reveal_strlit("ssh_forward");
    reveal_strlit("ssh_forward_port");
    reveal_strlit("allow");
    assert("daemon"@[0] == 'd');
    assert("secret"@[0] == 's');
    assert("daemon"@.len() == 6);
}

/// The arguments of `exec` are the values that were given, and its command is all of its words in
/// their order, at least one of them.
pub proof fn law_exec_arguments(values: Values)
    ensures
        exec_in(values) is Ok <==> connection_given(values) && are_texts(values, "command"@)
            && has_value(values, "command"@),
        exec_in(values) matches Ok(chosen) ==> (chosen matches CommandsView::Exec {
            connection,
            command,
        } && {
            &&& connection.secret == text_at(values, "secret"@)
            &&& integer_value(text_at(values, "port"@)) == Some(connection.port as int)
            &&& connection.host == text_at(values, "host"@)
            &&& lists(command, values, "command"@)
            &&& command.len() > 0
        }),
{
    let list = all_values(values, "command"@);
    assert(all_texts(list) <==> are_texts(values, "command"@));
}

/// A client and a server that are given the same connection use the same secret, port and host.
pub proof fn law_client_and_server_agree(client: Values, server: Values)
    requires
        exec_in(client) is Ok,
        server_in(server) is Ok,
        client["secret"@] == server["secret"@],
        client["port"@] == server["port"@],
        client["host"@] == server["host"@],
    ensures
        exec_in(client)->Ok_0->Exec_connection == server_in(server)->Ok_0->Server_connection,
{
    law_exec_arguments(client);
    law_server_arguments(server);
}

/// The argument of `stop` is the value that was given.
pub proof fn law_stop_arguments(values: Values)
    ensures
        stop_in(values) is Ok <==> has_value(values, "pid_file"@),
        has_value(values, "pid_file"@) ==> stop_in(values) == Ok::<CommandsView, CliErrorView>(
            CommandsView::Stop { pid_file: values["pid_file"@][0] },
        ),
{
}

/// An argument that is wrong is named: one that is missing has no value, and one that is invalid
/// has a value that it cannot have.
pub proof fn law_wrong_argument_is_named(name: Seq<char>, values: Values)
    requires
        name == "server"@ || name == "stop"@ || name == "exec"@,
    ensures
        commands_in(name, values) matches Err(error) ==> match error {
            CliErrorView::MissingArgument(id) => !has_value(values, id),
            CliErrorView::InvalidArgument(id) => if id == "port"@ || id == "ssh_forward_port"@ {
                has_value(values, id) && !is_port(values, id)
            } else if id == "allow"@ || id == "command"@ {
                !are_texts(values, id)
            } else {
                has_value(values, id) && !is_text(values, id)
            },
            _ => false,
        },
{
    reveal_strlit("secret");
    reveal_strlit("port");
    reveal_strlit("host");
    reveal_strlit("pid_file");
    reveal_strlit("ssh_forward");
    reveal_strlit("ssh_forward_port");
    reveal_strlit("allow");
    reveal_strlit("command");
    lemma_subcommands_differ();
    assert("port"@[0] == 'p' && "host"@[0] == 'h');
    assert("secret"@.len() == 6 && "port"@.len() == 4 && "host"@.len() == 4);
    assert("ssh_forward"@.len() == 11 && "ssh_forward_port"@.len() == 16);
    assert("allow"@.len() == 5 && "command"@.len() == 7);
    let allow = all_values(values, "allow"@);
    let command = all_values(values, "command"@);
    assert(all_texts(allow) <==> are_texts(values, "allow"@));
    assert(all_texts(command) <==> are_texts(values, "command"@));
}

/// The names of the subcommands differ.
proof fn lemma_subcommands_differ()
    ensures
        "server"@ != "stop"@,
        "server"@ != "exec"@,
        "stop"@ != "exec"@,
{
    reveal_strlit("server");
    reveal_strlit("stop");
    reveal_strlit("exec");
    assert("server"@.len() == 6);
    assert("stop"@[0] == 's');
    assert("exec"@[0] == 'e');
}

/// Each subcommand does what it is called: `server` runs a server, `stop` stops one, `exec`
/// executes a command, and nothing else does. Without a subcommand there is nothing to do.
pub proof fn law_subcommands_do_what_they_say(name: Seq<char>, values: Values)
    ensures
        commands_in(name, values) matches Ok(command) ==> match command {
            CommandsView::Server { .. } => name == "server"@,
            CommandsView::Stop { .. } => name == "stop"@,
            CommandsView::Exec { .. } => name == "exec"@,
        },
        commands_in("server"@, values) == server_in(values),
        commands_in("stop"@, values) == stop_in(values),
        commands_in("exec"@, values) == exec_in(values),
        name != "server"@ && name != "stop"@ && name != "exec"@ ==> commands_in(name, values)
            == Err::<CommandsView, CliErrorView>(CliErrorView::UnknownSubcommand(name)),
        cli_in(seq![(name, values)]) == commands_in(name, values),
        cli_in(Seq::empty()) == Err::<CommandsView, CliErrorView>(CliErrorView::MissingSubcommand),
{
    lemma_subcommands_differ();
}

/// The values of arguments that were given as texts.
pub proof fn law_text_is_kept(values: Values, id: Seq<char>, text: Seq<char>)
    requires
        has_value(values, id),
        values[id][0] == encode_utf8(text),
    ensures
        is_text(values, id),
        text_at(values, id) == text,
{
    encode_utf8_decode_utf8(text);
    encode_utf8_valid_utf8(text);
}

/// An answer of the argument parser that belongs on stderr is a failure, and any other one is not.
pub proof fn law_answer_codes(on_stderr: bool)
    ensures
        answer_code(on_stderr) == 0 <==> !on_stderr,
        on_stderr ==> answer_code(on_stderr) == 2,
{
}

/// A lower-case letter as an upper-case one.
pub open spec fn upper(c: char) -> char {
    if 'a' <= c <= 'z' {
        (c as u32 - 32) as char
    } else {
        c
    }
}

/// An underscore as a dash.
pub open spec fn dashed(c: char) -> char {
    if c == '_' {
        '-'
    } else {
        c
    }
}

/// Whether an option is named after its argument: `--some-name`, and `HOSTCMD_SOME_NAME` in the
/// environment. The words of a command have no name before them, and a flag is not taken from the
/// environment.
pub open spec fn named_alike(rule: OptionRule) -> bool {
    &&& rule.long matches Some(long) ==> long@ == rule.id@.map_values(|c: char| dashed(c))
    &&& rule.long is None <==> rule.trailing
    &&& rule.env matches Some(env) ==> env@ == "HOSTCMD_"@ + rule.id@.map_values(
        |c: char| upper(c),
    )
    &&& rule.env is None <==> rule.occurrence == OccurrenceRule::Flag
}

/// Reveals the names of options and variables.
proof fn lemma_reveal_names()
    ensures
        "HOSTCMD_"@ + "secret"@.map_values(|c: char| upper(c)) == "HOSTCMD_SECRET"@,
        "HOSTCMD_"@ + "port"@.map_values(|c: char| upper(c)) == "HOSTCMD_PORT"@,
        "HOSTCMD_"@ + "host"@.map_values(|c: char| upper(c)) == "HOSTCMD_HOST"@,
        "HOSTCMD_"@ + "log_file"@.map_values(|c: char| upper(c)) == "HOSTCMD_LOG_FILE"@,
        "HOSTCMD_"@ + "pid_file"@.map_values(|c: char| upper(c)) == "HOSTCMD_PID_FILE"@,
        "HOSTCMD_"@ + "ssh_forward"@.map_values(|c: char| upper(c)) == "HOSTCMD_SSH_FORWARD"@,
        "HOSTCMD_"@ + "ssh_forward_port"@.map_values(|c: char| upper(c))
            == "HOSTCMD_SSH_FORWARD_PORT"@,
        "HOSTCMD_"@ + "allow"@.map_values(|c: char| upper(c)) == "HOSTCMD_ALLOW"@,
        "HOSTCMD_"@ + "command"@.map_values(|c: char| upper(c)) == "HOSTCMD_COMMAND"@,
        "secret"@.map_values(|c: char| dashed(c)) == "secret"@,
        "port"@.map_values(|c: char| dashed(c)) == "port"@,
        "host"@.map_values(|c: char| dashed(c)) == "host"@,
        "log_file"@.map_values(|c: char| dashed(c)) == "log-file"@,
        "pid_file"@.map_values(|c: char| dashed(c)) == "pid-file"@,
        "daemon"@.map_values(|c: char| dashed(c)) == "daemon"@,
        "ssh_forward"@.map_values(|c: char| dashed(c)) == "ssh-forward"@,
        "ssh_forward_port"@.map_values(|c: char| dashed(c)) == "ssh-forward-port"@,
        "allow"@.map_values(|c: char| dashed(c)) == "allow"@,
{
    reveal_strlit("HOSTCMD_");
    reveal_strlit("HOSTCMD_SECRET");
    reveal_strlit("HOSTCMD_PORT");
    reveal_strlit("HOSTCMD_HOST");
    reveal_strlit("HOSTCMD_LOG_FILE");
    reveal_strlit("HOSTCMD_PID_FILE");
    reveal_strlit("HOSTCMD_SSH_FORWARD");
    reveal_strlit("HOSTCMD_SSH_FORWARD_PORT");
    reveal_strlit("HOSTCMD_ALLOW");
    reveal_strlit("HOSTCMD_COMMAND");
    reveal_strlit("secret");
    reveal_strlit("port");
    reveal_strlit("host");
    reveal_strlit("log_file");
    reveal_strlit("pid_file");
    reveal_strlit("daemon");
    reveal_strlit("ssh_forward");
    reveal_strlit("ssh_forward_port");
    reveal_strlit("allow");
    reveal_strlit("command");
    reveal_strlit("log-file");
    reveal_strlit("pid-file");
    reveal_strlit("ssh-forward");
    reveal_strlit("ssh-forward-port");
}

/// Every option goes by the name of its argument, on the command line and in the environment.
pub proof fn law_options_are_named_after_their_arguments(subcommand: int, i: int)
    requires
        0 <= subcommand < program_definition().len(),
        0 <= i < program_definition()[subcommand].options.len(),
    ensures
        named_alike(program_definition()[subcommand].options[i]),
{
    lemma_reveal_names();
}

/// The names of the arguments of options.
pub open spec fn ids(options: Seq<OptionRule>) -> Seq<Seq<char>> {
    options.map_values(|rule: OptionRule| rule.id@)
}

/// The subcommands and their arguments: a server and a client share those of the connection.
pub proof fn law_each_subcommand_has_its_arguments()
    ensures
        program_definition().len() == 4,
        program_definition()[0].rule.name@ == "hostcmd"@,
        program_definition()[0].rule.chooses,
        program_definition()[0].options.len() == 0,
        program_definition()[1].rule.name@ == "server"@,
        ids(program_definition()[1].options) == seq![
            "secret"@,
            "port"@,
            "host"@,
            "log_file"@,
            "pid_file"@,
            "daemon"@,
            "ssh_forward"@,
            "ssh_forward_port"@,
            "allow"@,
        ],
        program_definition()[2].rule.name@ == "stop"@,
        ids(program_definition()[2].options) == seq!["pid_file"@],
        program_definition()[3].rule.name@ == "exec"@,
        ids(program_definition()[3].options) == seq!["secret"@, "port"@, "host"@, "command"@],
        program_definition()[1].options.take(3) == program_definition()[3].options.take(3),
{
    assert(ids(server_options()) =~= seq![
        "secret"@,
        "port"@,
        "host"@,
        "log_file"@,
        "pid_file"@,
        "daemon"@,
        "ssh_forward"@,
        "ssh_forward_port"@,
        "allow"@,
    ]);
    assert(ids(stop_options()) =~= seq!["pid_file"@]);
    assert(ids(exec_options()) =~= seq!["secret"@, "port"@, "host"@, "command"@]);
    assert(server_options().take(3) =~= connection_options());
    assert(exec_options().take(3) =~= connection_options());
}

/// How an option behaves follows from the argument that it stands for: the connection and the
/// command have to be given; only the pid file has a default; only the allow list is taken apart,
/// at commas; the allow list and the command have several values, the flag has none, and every
/// other option one.
pub open spec fn behaves_as_named(rule: OptionRule) -> bool {
    let id = rule.id@;
    &&& rule.required <==> id == "secret"@ || id == "port"@ || id == "host"@ || id == "command"@
    &&& rule.default is Some <==> id == "pid_file"@
    &&& rule.default matches Some(path) ==> path@ == "~/.local/share/hostcmd/server.pid"@
    &&& rule.delimiter == if id == "allow"@ {
        Some(',')
    } else {
        None
    }
    &&& rule.trailing <==> id == "command"@
    &&& rule.occurrence == if id == "daemon"@ {
        OccurrenceRule::Flag
    } else if id == "allow"@ || id == "command"@ {
        OccurrenceRule::Collect
    } else {
        OccurrenceRule::Once
    }
    &&& rule.kind == if id == "port"@ || id == "ssh_forward_port"@ {
        ValueKind::Port
    } else if id == "pid_file"@ || id == "log_file"@ {
        ValueKind::Path
    } else if id == "daemon"@ {
        ValueKind::Truth
    } else {
        ValueKind::Text
    }
    &&& rule.min_values == if id == "daemon"@ {
        0
    } else {
        1usize
    }
    &&& rule.max_values == if id == "daemon"@ {
        0
    } else if id == "command"@ {
        usize::MAX
    } else {
        1
    }
}

/// Every option behaves as its argument asks.
pub proof fn law_options_behave_as_named(subcommand: int, i: int)
    requires
        0 <= subcommand < program_definition().len(),
        0 <= i < program_definition()[subcommand].options.len(),
    ensures
        behaves_as_named(program_definition()[subcommand].options[i]),
{
    reveal_strlit("secret");
    reveal_strlit("port");
    reveal_strlit("host");
    reveal_strlit("log_file");
    reveal_strlit("pid_file");
    reveal_strlit("daemon");
    reveal_strlit("ssh_forward");
    reveal_strlit("ssh_forward_port");
    reveal_strlit("allow");
    reveal_strlit("command");
    assert("secret"@.len() == 6 && "secret"@[0] == 's');
    assert("daemon"@.len() == 6 && "daemon"@[0] == 'd');
    assert("port"@.len() == 4 && "port"@[0] == 'p');
    assert("host"@.len() == 4 && "host"@[0] == 'h');
    assert("log_file"@.len() == 8 && "log_file"@[0] == 'l');
    assert("pid_file"@.len() == 8 && "pid_file"@[0] == 'p');
    assert("ssh_forward"@.len() == 11);
    assert("ssh_forward_port"@.len() == 16);
    assert("allow"@.len() == 5);
    assert("command"@.len() == 7);
}

/// What is wrong with a command line is said with the name of what is wrong.
pub proof fn law_command_line_errors_are_described(name: Seq<char>)
    ensures
        cli_error_text(CliErrorView::MissingSubcommand)
            == "A subcommand is required but one was not provided."@,
        cli_error_text(CliErrorView::UnknownSubcommand(name)) == "The subcommand "@ + seq!['\'']
            + name + seq!['\''] + " wasn't recognized"@,
        cli_error_text(CliErrorView::MissingArgument(name))
            == "The following required argument was not provided: "@ + name,
        cli_error_text(CliErrorView::InvalidArgument(name))
            == "The following argument has an invalid value: "@ + name,
{
    reveal_strlit("The subcommand '");
    reveal_strlit("The subcommand ");
    reveal_strlit("' wasn't recognized");
    reveal_strlit(" wasn't recognized");
    assert(cli_error_text(CliErrorView::UnknownSubcommand(name)) =~= "The subcommand "@ + seq![
        '\'',
    ] + name + seq!['\''] + " wasn't recognized"@);
}

} // verus!
