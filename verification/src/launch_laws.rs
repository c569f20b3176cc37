//! The laws of the launch of the daemon: the child runs with the configuration that its launcher
//! resolved.

use crate::cli::{
    all_texts, commands_in, port_of_text, text_list, CliErrorView, CommandsView, ServerArgs, Values,
};
use crate::cli_rules::{program_definition, server_options, OccurrenceRule, OptionRule};
use crate::config::HostPath;
use crate::daemon::{
    launch_begin, launch_settings, launch_step, launch_words, launches, ready_file_in,
    ready_file_name, ready_file_path, LaunchActionView, LaunchEventView, LaunchPhase,
    LaunchSettingView, ReadyFileView, DAEMON_READY_OK, DAEMON_READY_POLL_MILLIS,
};
use crate::server_laws::law_joining_paths;
use crate::text::{
    decimal, is_digit, joined, lemma_decimal_value, lossy_text, starts_with, texts_of, trimmed_end,
};
use vstd::prelude::*;
use vstd::utf8::{
    decode_utf8, encode_utf8, encode_utf8_decode_utf8, encode_utf8_valid_utf8, valid_utf8,
};

verus! {

/// The pieces of a text between the occurrences of a separator.
pub open spec fn pieces(text: Seq<char>, separator: char) -> Seq<Seq<char>>
    decreases text.len(),
{
    if text.len() == 0 {
        seq![Seq::empty()]
    } else {
        let rest = pieces(text.skip(1), separator);
        if text[0] == separator {
            seq![Seq::empty()] + rest
        } else {
            seq![seq![text[0]] + rest[0]] + rest.skip(1)
        }
    }
}

/// A text without the separator is one piece, and with the separator behind it it is the first one.
proof fn lemma_first_piece(text: Seq<char>, separator: char, more: Seq<char>)
    requires
        !text.contains(separator),
    ensures
        pieces(text, separator) == seq![text],
        pieces(text + seq![separator] + more, separator) == seq![text] + pieces(more, separator),
    decreases text.len(),
{
    let whole = text + seq![separator] + more;
    if text.len() == 0 {
        assert(text =~= Seq::empty());
        assert(whole.skip(1) =~= more);
        assert(whole[0] == separator);
    } else {
        let rest = text.skip(1);
        assert(text[0] != separator) by {
            assert(text.contains(text[0]));
        }
        assert(!rest.contains(separator)) by {
            if rest.contains(separator) {
                let i = choose|i: int| 0 <= i < rest.len() && rest[i] == separator;
                assert(text[i + 1] == separator);
            }
        }
        lemma_first_piece(rest, separator, more);
        assert(whole.skip(1) =~= rest + seq![separator] + more);
        assert(seq![text[0]] + rest =~= text);
        assert(pieces(text, separator) =~= seq![text]);
        assert((seq![rest] + pieces(more, separator)).skip(1) =~= pieces(more, separator));
    }
}

/// The allow list survives the launch: what the daemon child is handed, taken apart at the commas,
/// is the launcher's list, where no name in it holds a comma.
pub proof fn law_allow_list_survives_launch(allow: Seq<Seq<char>>)
    requires
        allow.len() > 0,
        forall|i: int| 0 <= i < allow.len() ==> !(#[trigger] allow[i]).contains(','),
    ensures
        pieces(joined(allow, ","@), ',') == allow,
    decreases allow.len(),
{
    reveal_strlit(",");
    assert(","@ =~= seq![',']);
    assert(!allow[0].contains(','));
    if allow.len() == 1 {
        lemma_first_piece(allow[0], ',', Seq::empty());
        assert(seq![allow[0]] =~= allow);
    } else {
        let rest = allow.skip(1);
        assert forall|i: int| 0 <= i < rest.len() implies !(#[trigger] rest[i]).contains(',') by {
            assert(rest[i] == allow[i + 1]);
        }
        law_allow_list_survives_launch(rest);
        lemma_first_piece(allow[0], ',', joined(rest, ","@));
        assert(seq![allow[0]] + rest =~= allow);
    }
}

/// A port survives the launch: what the daemon child is handed writes the launcher's port.
pub proof fn law_port_survives_launch(port: u16)
    ensures
        port_of_text(decimal(port as nat)) == Some(port),
{
    lemma_decimal_value(port as nat);
}

/// The values that an option takes from its environment variable: what the variable holds, taken
/// apart at the option's delimiter where it has one.
pub open spec fn values_from(rule: OptionRule, value: Seq<u8>) -> Seq<Seq<u8>> {
    match rule.delimiter {
        Some(delimiter) => pieces(decode_utf8(value), delimiter).map_values(
            |piece: Seq<char>| encode_utf8(piece),
        ),
        None => seq![value],
    }
}

/// Whether an option has the values that its environment variable gives it; none where the variable
/// was removed and the option has no default.
pub open spec fn takes(values: Values, rule: OptionRule, value: Option<Seq<u8>>) -> bool {
    match value {
        Some(value) => values.dom().contains(rule.id@) && values[rule.id@] == values_from(
            rule,
            value,
        ),
        None => rule.default is None ==> !values.dom().contains(rule.id@),
    }
}

/// Whether these are the values of a server's arguments that are its flag alone, so that every
/// other option has what its environment variable gives it.
pub open spec fn flag_and_settings(values: Values, settings: Seq<LaunchSettingView>) -> bool {
    &&& forall|i: int|
        0 <= i < server_options().len() && (#[trigger] server_options()[i]).occurrence
            == OccurrenceRule::Flag ==> values.dom().contains(server_options()[i].id@)
            && values[server_options()[i].id@] == seq![encode_utf8("true"@)]
    &&& forall|i: int, j: int|
        0 <= i < server_options().len() && 0 <= j < settings.len() && ((
        #[trigger] server_options()[i]).env matches Some(name) && name@ == (
        #[trigger] settings[j]).name) ==> takes(values, server_options()[i], settings[j].value)
}

/// A text survives the launch.
proof fn lemma_text_survives_launch(text: Seq<char>)
    ensures
        decode_utf8(encode_utf8(text)) == text,
        valid_utf8(encode_utf8(text)),
{
    encode_utf8_decode_utf8(text);
    encode_utf8_valid_utf8(text);
}

/// The allow list that the daemon child takes from its environment variable is the launcher's.
proof fn lemma_allow_values(rule: OptionRule, allow: Seq<Seq<char>>)
    requires
        rule.delimiter == Some(','),
        allow.len() > 0,
        forall|i: int| 0 <= i < allow.len() ==> !(#[trigger] allow[i]).contains(','),
    ensures
        ({
            let list = values_from(rule, encode_utf8(joined(allow, ","@)));
            &&& all_texts(list)
            &&& list.map_values(|value: Seq<u8>| decode_utf8(value)) == allow
        }),
{
    let list = values_from(rule, encode_utf8(joined(allow, ","@)));
    lemma_text_survives_launch(joined(allow, ","@));
    law_allow_list_survives_launch(allow);
    assert forall|i: int| 0 <= i < list.len() implies valid_utf8(#[trigger] list[i])
        && decode_utf8(list[i]) == allow[i] by {
        lemma_text_survives_launch(allow[i]);
    }
    assert(list.map_values(|value: Seq<u8>| decode_utf8(value)) =~= allow);
}

/// The configuration survives the launch: where no allowed name holds a comma, the daemon child,
/// which is given its flag and the variables that its launcher sets, comes to the launcher's
/// arguments with the files that the launcher resolved.
pub proof fn law_configuration_survives_launch(
    args: ServerArgs,
    log_file: Seq<u8>,
    pid_file: Seq<u8>,
    ready_file: Seq<u8>,
    values: Values,
)
    requires
        forall|i: int|
            0 <= i < args.allow@.len() ==> !(#[trigger] texts_of(args.allow@)[i]).contains(','),
        flag_and_settings(values, launch_settings(&args, log_file, pid_file, ready_file)),
    ensures
        commands_in("server"@, values) == Ok::<CommandsView, CliErrorView>(
            CommandsView::Server {
                connection: args.connection@,
                log_file: Some(log_file),
                pid_file,
                daemon: true,
                ssh_forward: match args.ssh_forward {
                    Some(hostname) => Some(hostname@),
                    None => None,
                },
                ssh_forward_port: args.ssh_forward_port,
                allow: texts_of(args.allow@),
            },
        ),
{
    let settings = launch_settings(&args, log_file, pid_file, ready_file);
    let options = server_options();
    let allow = texts_of(args.allow@);
    lemma_text_survives_launch(args.connection.secret@);
    lemma_text_survives_launch(args.connection.host@);
    lemma_text_survives_launch(decimal(args.connection.port as nat));
    law_port_survives_launch(args.connection.port);
    if let Some(hostname) = args.ssh_forward {
        lemma_text_survives_launch(hostname@);
    }
    if let Some(port) = args.ssh_forward_port {
        lemma_text_survives_launch(decimal(port as nat));
        law_port_survives_launch(port);
    }
    assert(options[5].occurrence == OccurrenceRule::Flag);
    assert(takes(values, options[0], settings[0].value));
    assert(takes(values, options[1], settings[1].value));
    assert(takes(values, options[2], settings[2].value));
    assert(takes(values, options[3], settings[3].value));
    assert(takes(values, options[4], settings[4].value));
    assert(takes(values, options[6], settings[6].value));
    assert(takes(values, options[7], settings[7].value));
    assert(takes(values, options[8], settings[8].value));
    if allow.len() > 0 {
        lemma_allow_values(options[8], allow);
    } else {
        assert(text_list(values, "allow"@)->Ok_0 =~= allow);
    }
}

/// A launcher creates the directories of the pid file and of the log file, names the readiness file,
/// locates the program, spawns the child and then looks at it, in this order and one after the
/// other.
pub proof fn law_launch_goes_step_by_step(
    pid_file: Seq<u8>,
    log_file: Seq<u8>,
    ready_file: Seq<u8>,
)
    ensures
        launch_step(
            LaunchPhase::CreatingPidDirectory,
            pid_file,
            log_file,
            ready_file,
            LaunchEventView::Succeeded,
        ) == (LaunchPhase::CreatingLogDirectory, LaunchActionView::CreateLogDirectory),
        launch_step(
            LaunchPhase::CreatingLogDirectory,
            pid_file,
            log_file,
            ready_file,
            LaunchEventView::Succeeded,
        ) == (LaunchPhase::NamingReadyFile, LaunchActionView::NameReadyFile),
        launch_step(
            LaunchPhase::NamingReadyFile,
            pid_file,
            log_file,
            ready_file,
            LaunchEventView::Succeeded,
        ) == (LaunchPhase::Locating, LaunchActionView::Locate),
        launch_step(
            LaunchPhase::Locating,
            pid_file,
            log_file,
            ready_file,
            LaunchEventView::Succeeded,
        ) == (LaunchPhase::Spawning, LaunchActionView::Spawn),
        launch_step(
            LaunchPhase::Spawning,
            pid_file,
            log_file,
            ready_file,
            LaunchEventView::Succeeded,
        ) == (LaunchPhase::Watching, LaunchActionView::Look { pause: false }),
{
}

/// A step of the launch that fails ends it with a failure that says what was being done, and leaves
/// the readiness file alone.
pub proof fn law_failed_launch_is_named(
    phase: LaunchPhase,
    pid_file: Seq<u8>,
    log_file: Seq<u8>,
    ready_file: Seq<u8>,
    cause: Seq<Seq<char>>,
)
    requires
        phase != LaunchPhase::Done,
    ensures
        launch_step(phase, pid_file, log_file, ready_file, LaunchEventView::Failed(cause)) == (
            LaunchPhase::Done,
            LaunchActionView::Fail {
                failure: seq![
                    match phase {
                        LaunchPhase::CreatingPidDirectory => "failed to create pid file directory "@
                            + lossy_text(pid_file),
                        LaunchPhase::CreatingLogDirectory => "failed to create log file directory "@
                            + lossy_text(log_file),
                        LaunchPhase::NamingReadyFile => "system clock is before Unix epoch"@,
                        LaunchPhase::Locating => "failed to locate current executable"@,
                        LaunchPhase::Spawning => "failed to start daemon child"@,
                        _ => "failed to poll daemon child"@,
                    },
                ] + cause,
                remove: false,
            },
        ),
{
}

/// Whether an event belongs to a phase.
pub open spec fn launch_in_turn(phase: LaunchPhase, event: LaunchEventView) -> bool {
    match phase {
        LaunchPhase::Done => false,
        LaunchPhase::Watching => event is Failed || event is Looked,
        _ => event is Failed || event is Succeeded,
    }
}

/// An event out of turn changes nothing.
pub proof fn law_launch_events_out_of_turn(
    phase: LaunchPhase,
    pid_file: Seq<u8>,
    log_file: Seq<u8>,
    ready_file: Seq<u8>,
    event: LaunchEventView,
)
    requires
        !launch_in_turn(phase, event),
    ensures
        launch_step(phase, pid_file, log_file, ready_file, event) == (
            phase,
            LaunchActionView::Rest,
        ),
{
}

/// A launcher that looks at its child reports success where a running child has written exactly that
/// it is up. It fails with the child's words where the child has written an error, and with the
/// child's status where the child exited without one; the readiness file is then removed. It fails
/// where the file cannot be read. In every other case it looks again after a pause.
pub proof fn law_look_at_the_child(
    pid_file: Seq<u8>,
    log_file: Seq<u8>,
    ready_file: Seq<u8>,
    exited: Option<Seq<char>>,
    file: ReadyFileView,
)
    ensures
        ({
            let after = launch_step(
                LaunchPhase::Watching,
                pid_file,
                log_file,
                ready_file,
                LaunchEventView::Looked { exited, file },
            );
            let error = match file {
                ReadyFileView::Contents(contents) => starts_with(contents, "ERR "@),
                _ => false,
            };
            &&& error ==> after == (
                LaunchPhase::Done,
                LaunchActionView::Fail {
                    failure: seq![trimmed_end(file->Contents_0.skip(4))],
                    remove: true,
                },
            )
            &&& !error && exited is Some ==> after == (
                LaunchPhase::Done,
                LaunchActionView::Fail {
                    failure: seq![
                        "daemon child exited before startup completed: "@ + exited->Some_0,
                    ],
                    remove: true,
                },
            )
            &&& exited is None && file == ReadyFileView::Contents("OK\n"@) ==> after == (
                LaunchPhase::Done,
                LaunchActionView::Finish,
            )
            &&& exited is None ==> (file matches ReadyFileView::Unreadable(cause) ==> after == (
                LaunchPhase::Done,
                LaunchActionView::Fail {
                    failure: seq![
                        "failed to read daemon readiness file "@ + lossy_text(ready_file),
                    ] + cause,
                    remove: false,
                },
            ))
            &&& exited is None && !error && file != ReadyFileView::Contents("OK\n"@) && !(
            file is Unreadable) ==> after == (
                LaunchPhase::Watching,
                LaunchActionView::Look { pause: true },
            )
        }),
        DAEMON_READY_OK@ == "OK\n"@,
        DAEMON_READY_POLL_MILLIS == 50,
{
    reveal_strlit("ERR ");
    reveal_strlit("OK\n");
    assert("OK\n"@[0] == 'O');
    assert("ERR "@.len() == 4 && "ERR "@[0] == 'E');
    if let ReadyFileView::Contents(contents) = file {
        if starts_with(contents, "ERR "@) {
            assert(contents[0] == contents.take(4)[0]);
        }
    }
}

/// Launchers do not share readiness files: the name of one tells the launcher's process id and the
/// time.
pub proof fn law_ready_files_differ(pid: u32, nanos: u128, other_pid: u32, other_nanos: u128)
    ensures
        ready_file_name(pid, nanos) == joined(
            seq!["server"@, "ready"@, decimal(pid as nat), decimal(nanos as nat)],
            seq!['.'],
        ),
        ready_file_name(pid, nanos) == ready_file_name(other_pid, other_nanos) ==> pid == other_pid
            && nanos == other_nanos,
{
    reveal_strlit("server.ready.");
    reveal_strlit("server");
    reveal_strlit("ready");
    reveal_strlit(".");
    let w = seq!["server"@, "ready"@, decimal(pid as nat), decimal(nanos as nat)];
    assert(w.skip(2).skip(1) =~= w.skip(3));
    assert(w.skip(1).skip(1) =~= w.skip(2));
    assert(joined(w.skip(3), seq!['.']) == w[3]);
    assert(joined(w.skip(2), seq!['.']) == w[2] + seq!['.'] + joined(w.skip(3), seq!['.']));
    assert(joined(w.skip(1), seq!['.']) == w[1] + seq!['.'] + joined(w.skip(2), seq!['.']));
    assert(joined(w, seq!['.']) == w[0] + seq!['.'] + joined(w.skip(1), seq!['.']));
    assert(ready_file_name(pid, nanos) =~= joined(w, seq!['.']));
    let a = ready_file_name(pid, nanos);
    let b = ready_file_name(other_pid, other_nanos);
    if a == b {
        let p = decimal(pid as nat);
        let q = decimal(other_pid as nat);
        let n = decimal(nanos as nat);
        let m = decimal(other_nanos as nat);
        lemma_decimal_value(pid as nat);
        lemma_decimal_value(other_pid as nat);
        lemma_decimal_value(nanos as nat);
        lemma_decimal_value(other_nanos as nat);
        assert(a[13int + p.len()] == '.');
        assert(b[13int + q.len()] == '.');
        if p.len() < q.len() {
            assert(b[13int + p.len()] == q[p.len() as int]);
            assert(is_digit(q[p.len() as int]));
        }
        if q.len() < p.len() {
            assert(a[13int + q.len()] == p[q.len() as int]);
            assert(is_digit(p[q.len() as int]));
        }
        assert(p =~= a.subrange(13, 13int + p.len()));
        assert(q =~= b.subrange(13, 13int + q.len()));
        assert(n =~= a.skip(14int + p.len()));
        assert(m =~= b.skip(14int + q.len()));
    }
}

/// The allow list is handed on as its names with commas between them, whatever the names are, and an
/// empty one not at all; what is not set for the launcher is removed for the child.
pub proof fn law_unset_is_removed(
    args: &ServerArgs,
    log_file: Seq<u8>,
    pid_file: Seq<u8>,
    ready_file: Seq<u8>,
)
    ensures
        ({
            let settings = launch_settings(args, log_file, pid_file, ready_file);
            &&& settings.len() == 9
            &&& settings[0].name == "HOSTCMD_SECRET"@
            &&& settings[1].name == "HOSTCMD_PORT"@
            &&& settings[2].name == "HOSTCMD_HOST"@
            &&& settings[3].name == "HOSTCMD_LOG_FILE"@
            &&& settings[4].name == "HOSTCMD_PID_FILE"@
            &&& settings[5].name == "HOSTCMD_DAEMON_READY_FILE"@
            &&& settings[5].value == Some(ready_file)
            &&& settings[6].name == "HOSTCMD_SSH_FORWARD"@
            &&& settings[6].value is None <==> args.ssh_forward is None
            &&& settings[7].name == "HOSTCMD_SSH_FORWARD_PORT"@
            &&& settings[7].value is None <==> args.ssh_forward_port is None
            &&& settings[8].name == "HOSTCMD_ALLOW"@
            &&& args.allow@.len() == 0 ==> settings[8].value is None
            &&& args.allow@.len() > 0 ==> settings[8].value == Some(
                encode_utf8(joined(texts_of(args.allow@), seq![','])),
            )
            &&& forall|i: int| 0 <= i < 6 ==> (#[trigger] settings[i]).value is Some
        }),
{
    reveal_strlit(",");
    assert(","@ =~= seq![',']);
}

/// A process launches a daemon exactly where it is to run one and is told no readiness file. So the
/// child, which is told one, never launches another, and a server in the foreground never does.
pub proof fn law_only_the_first_process_launches(daemon: bool, told_ready_file: bool)
    ensures
        launches(true, false),
        !launches(daemon, true),
        !launches(false, told_ready_file),
{
}

/// The words that the child is given are the name of the server's subcommand and its flag, as the
/// command line knows them.
pub proof fn law_child_is_given_words_that_it_knows()
    ensures
        launch_words().len() == 2,
        launch_words()[0] == program_definition()[1].rule.name@,
        server_options()[5].occurrence == OccurrenceRule::Flag,
        launch_words()[1] == seq!['-', '-'] + server_options()[5].long->Some_0@,
{
    reveal_strlit("--daemon");
    reveal_strlit("daemon");
    assert("--daemon"@ =~= seq!['-', '-'] + "daemon"@);
}

/// A readiness file lies beside the pid file, where that has a directory, and otherwise among the
/// temporary files, under its own name.
pub proof fn law_ready_file_lies_beside_the_pid_file(
    directory: Seq<u8>,
    temporary: Seq<u8>,
    pid: u32,
    nanos: u128,
)
    requires
        directory.len() > 0,
        directory.last() != 0x2f,
        temporary.len() > 0,
        temporary.last() != 0x2f,
    ensures
        ready_file_path(Some(directory), temporary, pid, nanos) == directory + seq![0x2fu8]
            + encode_utf8(ready_file_name(pid, nanos)),
        ready_file_path(Some(Seq::empty()), temporary, pid, nanos) == temporary + seq![0x2fu8]
            + encode_utf8(ready_file_name(pid, nanos)),
        ready_file_path(None, temporary, pid, nanos) == temporary + seq![0x2fu8] + encode_utf8(
            ready_file_name(pid, nanos),
        ),
{
    reveal_strlit("server.ready.");
    assert(ready_file_name(pid, nanos)[0] == 's');
    assert((115u32 & 0x7f) as u8 != 0x2f) by (bit_vector);
    law_joining_paths(directory, encode_utf8(ready_file_name(pid, nanos)));
    law_joining_paths(temporary, encode_utf8(ready_file_name(pid, nanos)));
}

/// A launch begins with the directory of the pid file.
pub proof fn law_launch_begins()
    ensures
        launch_begin() == (LaunchPhase::CreatingPidDirectory, LaunchActionView::CreatePidDirectory),
{
}

/// The file that a daemon is told comes before the one for tests, which counts only without it.
pub proof fn law_daemon_file_comes_first(daemon: HostPath, test: Option<HostPath>)
    ensures
        ready_file_in(Some(daemon), test) == Some(daemon),
        ready_file_in(None, test) == test,
{
}

} // verus!
