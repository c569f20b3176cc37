//! The laws of what the server derives from its arguments: whom its allow list lets run, which files
//! it uses, and what it says of itself.

use crate::auth::{authorized, visible_byte, visible_bytes};
use crate::cli::ServerArgs;
use crate::config::{expanded_path, joined_path, without_leading_slashes, HomeNotSet};
use crate::logging::{log_line, Level};
use crate::server::{
    address_text, allow_text, command_allowed, daemon_log_file_of, log_file_of, pid_file_of,
    server_args_text, try_line,
};
use crate::text::{decimal, joined, lossy_text, texts_of};
use crate::text_laws::law_joining;
use vstd::prelude::*;
use vstd::utf8::{encode_utf8, valid_utf8};

verus! {

/// Without an allow list every command may run. With one, exactly those may whose program is one of
/// its names: no other command may, and neither may nothing at all.
pub proof fn law_allow_list_decides(
    allowed: Seq<Seq<char>>,
    program: Seq<char>,
    arguments: Seq<Seq<char>>,
)
    ensures
        allowed.len() == 0 ==> command_allowed(allowed, seq![program] + arguments),
        allowed.len() == 0 ==> command_allowed(allowed, Seq::empty()),
        allowed.len() > 0 ==> !command_allowed(allowed, Seq::empty()),
        allowed.len() > 0 && (exists|i: int| 0 <= i < allowed.len() && #[trigger] allowed[i]
            == program) ==> command_allowed(allowed, seq![program] + arguments),
        allowed.len() > 0 && (forall|i: int|
            0 <= i < allowed.len() ==> #[trigger] allowed[i] != program) ==> !command_allowed(
            allowed,
            seq![program] + arguments,
        ),
{
    assert((seq![program] + arguments)[0] == program);
}

/// Only the program of a command decides whether it may run, not its arguments.
pub proof fn law_arguments_do_not_matter(
    allowed: Seq<Seq<char>>,
    program: Seq<char>,
    a: Seq<Seq<char>>,
    b: Seq<Seq<char>>,
)
    ensures
        command_allowed(allowed, seq![program] + a) == command_allowed(
            allowed,
            seq![program] + b,
        ),
{
    assert((seq![program] + a)[0] == (seq![program] + b)[0]);
}

/// A longer allow list lets at least the same commands run, and the new name besides; the first name
/// on it shuts every other program out.
pub proof fn law_longer_list_allows_more(
    allowed: Seq<Seq<char>>,
    name: Seq<char>,
    command: Seq<Seq<char>>,
)
    requires
        command.len() > 0,
    ensures
        allowed.len() > 0 && command_allowed(allowed, command) ==> command_allowed(
            allowed.push(name),
            command,
        ),
        command_allowed(allowed.push(name), command) ==> command_allowed(allowed, command)
            || command[0] == name,
        command[0] == name ==> command_allowed(allowed.push(name), command),
        command_allowed(seq![name], command) <==> command[0] == name,
{
    let longer = allowed.push(name);
    assert(longer.last() == name);
    if allowed.contains(command[0]) {
        let i = choose|i: int| 0 <= i < allowed.len() && allowed[i] == command[0];
        assert(longer[i] == command[0]);
    }
    if longer.contains(command[0]) {
        let i = choose|i: int| 0 <= i < longer.len() && longer[i] == command[0];
        if i < allowed.len() {
            assert(allowed[i] == command[0]);
        }
    }
    assert(seq![name][0] == name);
}

/// Where the home directory matters: for `~` and for what begins with `~/`. There it has to be
/// known, and stands in place of the `~`; every other path stays as it is.
pub proof fn law_home_is_expanded(path: Seq<u8>, home: Seq<u8>)
    requires
        valid_utf8(path),
    ensures
        path == seq![0x7eu8] ==> expanded_path(path, Some(home)) == Ok::<Seq<u8>, HomeNotSet>(home),
        path == seq![0x7eu8] ==> expanded_path(path, None) == Err::<Seq<u8>, HomeNotSet>(
            HomeNotSet,
        ),
        path.len() >= 2 && path[0] == 0x7e && path[1] == 0x2f ==> {
            &&& expanded_path(path, None) == Err::<Seq<u8>, HomeNotSet>(HomeNotSet)
            &&& expanded_path(path, Some(home)) matches Ok(expanded) && {
                &&& expanded.len() >= home.len()
                &&& expanded.take(home.len() as int) == home
            }
        },
        path.len() == 0 || path[0] != 0x7e || (path.len() >= 2 && path[1] != 0x2f) ==> {
            &&& expanded_path(path, None) == Ok::<Seq<u8>, HomeNotSet>(path)
            &&& expanded_path(path, Some(home)) == Ok::<Seq<u8>, HomeNotSet>(path)
        },
{
    if path.len() >= 2 && path[0] == 0x7e && path[1] == 0x2f {
        let rest = without_leading_slashes(path.skip(2));
        lemma_slashes_go(path.skip(2));
        assert(rest.len() == 0 || rest[0] != 0x2f);
        let expanded = joined_path(home, rest);
        assert(expanded.take(home.len() as int) =~= home);
    }
}

/// A path that is no UTF-8 stays as it is.
pub proof fn law_unreadable_path_is_kept(path: Seq<u8>, home: Option<Seq<u8>>)
    requires
        !valid_utf8(path),
    ensures
        expanded_path(path, home) == Ok::<Seq<u8>, HomeNotSet>(path),
{
}

/// A path below the home directory: what follows `~/` and a slash or two more.
pub proof fn law_rest_follows_home(rest: Seq<u8>, slashes: nat, home: Seq<u8>)
    requires
        slashes > 0,
        rest.len() == 0 || rest[0] != 0x2f,
        home.len() > 0,
        home.last() != 0x2f,
        valid_utf8(seq![0x7eu8] + Seq::new(slashes, |i: int| 0x2fu8) + rest),
    ensures
        expanded_path(seq![0x7eu8] + Seq::new(slashes, |i: int| 0x2fu8) + rest, Some(home)) == Ok::<
            Seq<u8>,
            HomeNotSet,
        >(home + seq![0x2fu8] + rest),
{
    let path = seq![0x7eu8] + Seq::new(slashes, |i: int| 0x2fu8) + rest;
    let more = Seq::new((slashes - 1) as nat, |i: int| 0x2fu8) + rest;
    assert(path.skip(2) =~= more);
    lemma_slashes_are_dropped((slashes - 1) as nat, rest);
    assert(home.push(0x2fu8) + rest =~= home + seq![0x2fu8] + rest);
}

/// Slashes in front are dropped, and nothing else.
proof fn lemma_slashes_are_dropped(slashes: nat, rest: Seq<u8>)
    requires
        rest.len() == 0 || rest[0] != 0x2f,
    ensures
        without_leading_slashes(Seq::new(slashes, |i: int| 0x2fu8) + rest) == rest,
    decreases slashes,
{
    let all = Seq::new(slashes, |i: int| 0x2fu8) + rest;
    if slashes > 0 {
        lemma_slashes_are_dropped((slashes - 1) as nat, rest);
        assert(all.skip(1) =~= Seq::new((slashes - 1) as nat, |i: int| 0x2fu8) + rest);
    } else {
        assert(all =~= rest);
    }
}

/// No slash is left in front.
proof fn lemma_slashes_go(rest: Seq<u8>)
    ensures
        without_leading_slashes(rest).len() == 0
            || without_leading_slashes(rest)[0] != 0x2f,
    decreases rest.len(),
{
    if rest.len() > 0 && rest[0] == 0x2f {
        lemma_slashes_go(rest.skip(1));
    }
}

/// A path below a directory is the directory, one slash, and the rest; an absolute path stands for
/// itself, and a directory that ends in a slash needs no other one.
pub proof fn law_joining_paths(base: Seq<u8>, rest: Seq<u8>)
    ensures
        rest.len() > 0 && rest[0] == 0x2f ==> joined_path(base, rest) == rest,
        !(rest.len() > 0 && rest[0] == 0x2f) && base.len() > 0 && base.last() != 0x2f
            ==> joined_path(base, rest) == base + seq![0x2fu8] + rest,
        !(rest.len() > 0 && rest[0] == 0x2f) && (base.len() == 0 || base.last() == 0x2f)
            ==> joined_path(base, rest) == base + rest,
{
    assert(base.push(0x2fu8) + rest =~= base + seq![0x2fu8] + rest);
}

/// The server's files are those that it was given, with the home directory in place of `~`. A daemon
/// always has a log file; in the foreground a log file is used only where one was given, as it was
/// given.
pub proof fn law_files_are_those_given(args: &ServerArgs, home: Option<Seq<u8>>)
    ensures
        pid_file_of(args, home) == expanded_path(args.pid_file@, home),
        args.log_file matches Some(path) ==> daemon_log_file_of(args, home) == expanded_path(
            path@,
            home,
        ),
        args.log_file is None ==> daemon_log_file_of(args, home) == expanded_path(
            encode_utf8("~/.local/share/hostcmd/server.log"@),
            home,
        ),
        args.daemon ==> match daemon_log_file_of(args, home) {
            Ok(path) => log_file_of(args, home) == Ok::<Option<Seq<u8>>, HomeNotSet>(Some(path)),
            Err(e) => log_file_of(args, home) == Err::<Option<Seq<u8>>, HomeNotSet>(e),
        },
        !args.daemon && args.log_file is None ==> log_file_of(args, home) == Ok::<
            Option<Seq<u8>>,
            HomeNotSet,
        >(None),
        !args.daemon ==> (args.log_file matches Some(path) ==> log_file_of(args, home) == Ok::<
            Option<Seq<u8>>,
            HomeNotSet,
        >(Some(path@))),
{
}

/// The address is the host and the port with a colon between them.
pub proof fn law_address(host: Seq<char>, port: u16)
    ensures
        address_text(host, port) == host + seq![':'] + decimal(port as nat),
{
    reveal_strlit(":");
    assert(":"@ =~= seq![':']);
}

/// A request may go on exactly where its authorization header is the word `Bearer`, a space and the
/// server's secret, all of it visible ASCII, spaces and tabs.
pub proof fn law_only_the_secret_opens(value: Seq<u8>, secret: Seq<char>)
    ensures
        authorized(Some(value), secret) <==> value == encode_utf8("Bearer "@ + secret) && (forall|
            i: int,
        |
            0 <= i < value.len() ==> #[trigger] value[i] == 9 || 32 <= value[i] < 127),
        !authorized(None, secret),
{
    if forall|i: int| 0 <= i < value.len() ==> #[trigger] value[i] == 9 || 32 <= value[i] < 127 {
        assert(visible_bytes(value));
    }
    if visible_bytes(value) {
        assert forall|i: int| 0 <= i < value.len() implies #[trigger] value[i] == 9 || 32
            <= value[i] < 127 by {
            assert(visible_byte(value[i]));
        }
    }
}

/// A log line is its level, a colon and a space, its message, and the end of the line.
pub proof fn law_log_lines(message: Seq<char>)
    ensures
        log_line(Level::Info, message) == seq!['I', 'N', 'F', 'O', ':', ' '] + message + seq!['\n'],
        log_line(Level::Error, message) == seq!['E', 'R', 'R', 'O', 'R', ':', ' '] + message + seq![
            '\n',
        ],
{
    reveal_strlit("INFO");
    reveal_strlit("ERROR");
    reveal_strlit(": ");
    reveal_strlit("\n");
    assert(log_line(Level::Info, message) =~= seq!['I', 'N', 'F', 'O', ':', ' '] + message + seq![
        '\n',
    ]);
    assert(log_line(Level::Error, message) =~= seq!['E', 'R', 'R', 'O', 'R', ':', ' '] + message
        + seq!['\n']);
}

/// An allow list is logged as its names with commas between them, and as a star where it is empty.
pub proof fn law_logged_allow_list(allow: Seq<Seq<char>>)
    ensures
        allow.len() == 0 ==> allow_text(allow) == seq!['*'],
        allow.len() > 0 ==> allow_text(allow) == joined(allow, seq![',']),
{
    reveal_strlit("*");
    reveal_strlit(",");
    assert("*"@ =~= seq!['*']);
    assert(","@ =~= seq![',']);
}

/// A name and its value in the log.
pub open spec fn setting_text(name: Seq<char>, value: Seq<char>) -> Seq<char> {
    name + seq!['='] + value
}

/// The texts of the settings of a server in the log.
pub open spec fn logged_settings(args: &ServerArgs) -> Seq<Seq<char>> {
    seq![
        setting_text("host"@, args.connection.host@),
        setting_text("port"@, decimal(args.connection.port as nat)),
        setting_text("secret"@, args.connection.secret@),
        setting_text(
            "log_file"@,
            match args.log_file {
                Some(path) => lossy_text(path@),
                None => seq!['-'],
            },
        ),
        setting_text("pid_file"@, lossy_text(args.pid_file@)),
        setting_text(
            "daemon"@,
            if args.daemon {
                "true"@
            } else {
                "false"@
            },
        ),
        setting_text(
            "ssh_forward"@,
            match args.ssh_forward {
                Some(hostname) => hostname@,
                None => seq!['-'],
            },
        ),
        setting_text(
            "ssh_forward_port"@,
            match args.ssh_forward_port {
                Some(port) => decimal(port as nat),
                None => seq!['-'],
            },
        ),
        setting_text("allow"@, allow_text(texts_of(args.allow@))),
    ]
}

/// One more setting behind a text.
proof fn lemma_one_more_setting(
    list: Seq<Seq<char>>,
    k: int,
    text: Seq<char>,
    label: Seq<char>,
    name: Seq<char>,
    value: Seq<char>,
)
    requires
        0 < k < list.len(),
        text == joined(list.take(k), seq![' ']),
        list[k] == setting_text(name, value),
        label == seq![' '] + name + seq!['='],
    ensures
        text + label + value == joined(list.take(k + 1), seq![' ']),
{
    law_joining(list.take(k), seq![list[k]], seq![' ']);
    law_joining(seq![list[k]], Seq::empty(), seq![' ']);
    assert(list.take(k + 1) =~= list.take(k) + seq![list[k]]);
    assert(text + label + value =~= text + seq![' '] + setting_text(name, value));
}

/// The labels of the logged settings.
proof fn lemma_labels()
    ensures
        "host="@ == "host"@ + seq!['='],
        " port="@ == seq![' '] + "port"@ + seq!['='],
        " secret="@ == seq![' '] + "secret"@ + seq!['='],
        " log_file="@ == seq![' '] + "log_file"@ + seq!['='],
        " pid_file="@ == seq![' '] + "pid_file"@ + seq!['='],
        " daemon="@ == seq![' '] + "daemon"@ + seq!['='],
        " ssh_forward="@ == seq![' '] + "ssh_forward"@ + seq!['='],
        " ssh_forward_port="@ == seq![' '] + "ssh_forward_port"@ + seq!['='],
        " allow="@ == seq![' '] + "allow"@ + seq!['='],
        "-"@ == seq!['-'],
{
    reveal_strlit("host=");
    reveal_strlit("host");
    reveal_strlit(" port=");
    reveal_strlit("port");
    reveal_strlit(" secret=");
    reveal_strlit("secret");
    reveal_strlit(" log_file=");
    reveal_strlit("log_file");
    reveal_strlit(" pid_file=");
    reveal_strlit("pid_file");
    reveal_strlit(" daemon=");
    reveal_strlit("daemon");
    reveal_strlit(" ssh_forward=");
    reveal_strlit("ssh_forward");
    reveal_strlit(" ssh_forward_port=");
    reveal_strlit("ssh_forward_port");
    reveal_strlit(" allow=");
    reveal_strlit("allow");
    reveal_strlit("-");
}

/// The arguments of a server are logged as their names and values, one after the other.
pub proof fn law_logged_arguments(args: &ServerArgs)
    ensures
        server_args_text(args) == joined(logged_settings(args), seq![' ']),
{
    lemma_labels();
    let w = logged_settings(args);
    let host = args.connection.host@;
    let port = decimal(args.connection.port as nat);
    let secret = args.connection.secret@;
    let log_file = match args.log_file {
        Some(path) => lossy_text(path@),
        None => seq!['-'],
    };
    let pid_file = lossy_text(args.pid_file@);
    let daemon = if args.daemon {
        "true"@
    } else {
        "false"@
    };
    let ssh_forward = match args.ssh_forward {
        Some(hostname) => hostname@,
        None => seq!['-'],
    };
    let ssh_forward_port = match args.ssh_forward_port {
        Some(port) => decimal(port as nat),
        None => seq!['-'],
    };
    let allow = allow_text(texts_of(args.allow@));
    let t1 = "host="@ + host;
    assert(joined(w.take(1), seq![' ']) == w[0]);
    let t2 = t1 + " port="@ + port;
    lemma_one_more_setting(w, 1, t1, " port="@, "port"@, port);
    let t3 = t2 + " secret="@ + secret;
    lemma_one_more_setting(w, 2, t2, " secret="@, "secret"@, secret);
    let t4 = t3 + " log_file="@ + log_file;
    lemma_one_more_setting(w, 3, t3, " log_file="@, "log_file"@, log_file);
    let t5 = t4 + " pid_file="@ + pid_file;
    lemma_one_more_setting(w, 4, t4, " pid_file="@, "pid_file"@, pid_file);
    let t6 = t5 + " daemon="@ + daemon;
    lemma_one_more_setting(w, 5, t5, " daemon="@, "daemon"@, daemon);
    let t7 = t6 + " ssh_forward="@ + ssh_forward;
    lemma_one_more_setting(w, 6, t6, " ssh_forward="@, "ssh_forward"@, ssh_forward);
    let t8 = t7 + " ssh_forward_port="@ + ssh_forward_port;
    lemma_one_more_setting(w, 7, t7, " ssh_forward_port="@, "ssh_forward_port"@, ssh_forward_port);
    let t9 = t8 + " allow="@ + allow;
    lemma_one_more_setting(w, 8, t8, " allow="@, "allow"@, allow);
    assert(w.take(9) =~= w);
    assert(server_args_text(args) == t9);
}

/// The hint in the log is a command line that reaches the server: its secret, its port and its host,
/// each behind the option that it belongs to.
pub proof fn law_hint_reaches_the_server(host: Seq<char>, port: u16, secret: Seq<char>)
    ensures
        try_line(host, port, secret) == "Try with: "@ + joined(
            seq![
                "hostcmd"@,
                "exec"@,
                "--secret"@,
                secret,
                "--port"@,
                decimal(port as nat),
                "--host"@,
                host,
                "-- uname -a"@,
            ],
            seq![' '],
        ),
{
    reveal_strlit("Try with: ");
    reveal_strlit("Try with: hostcmd exec --secret ");
    reveal_strlit("hostcmd");
    reveal_strlit("exec");
    reveal_strlit("--secret");
    reveal_strlit("--port");
    reveal_strlit(" --port ");
    reveal_strlit("--host");
    reveal_strlit(" --host ");
    reveal_strlit("-- uname -a");
    reveal_strlit(" -- uname -a");
    let sp = seq![' '];
    let w = seq![
        "hostcmd"@,
        "exec"@,
        "--secret"@,
        secret,
        "--port"@,
        decimal(port as nat),
        "--host"@,
        host,
        "-- uname -a"@,
    ];
    assert(joined(w.skip(8), sp) == w[8]);
    assert(w.skip(7).skip(1) =~= w.skip(8));
    assert(w.skip(6).skip(1) =~= w.skip(7));
    assert(w.skip(5).skip(1) =~= w.skip(6));
    assert(w.skip(4).skip(1) =~= w.skip(5));
    assert(w.skip(3).skip(1) =~= w.skip(4));
    assert(w.skip(2).skip(1) =~= w.skip(3));
    assert(w.skip(1).skip(1) =~= w.skip(2));
    assert(joined(w.skip(7), sp) == w[7] + sp + joined(w.skip(8), sp));
    assert(joined(w.skip(6), sp) == w[6] + sp + joined(w.skip(7), sp));
    assert(joined(w.skip(5), sp) == w[5] + sp + joined(w.skip(6), sp));
    assert(joined(w.skip(4), sp) == w[4] + sp + joined(w.skip(5), sp));
    assert(joined(w.skip(3), sp) == w[3] + sp + joined(w.skip(4), sp));
    assert(joined(w.skip(2), sp) == w[2] + sp + joined(w.skip(3), sp));
    assert(joined(w.skip(1), sp) == w[1] + sp + joined(w.skip(2), sp));
    assert(joined(w, sp) == w[0] + sp + joined(w.skip(1), sp));
    assert(try_line(host, port, secret) =~= "Try with: "@ + joined(w, sp));
}

} // verus!
