//! The reverse port forward: how `ssh` is called, and what its end means for the server.

use crate::failure::{within, Failure};
use crate::text::{
    concat2, decimal, decimal_text, joined, lossy_text, quote, quoted_text, signed_decimal,
    signed_decimal_text, texts_of, utf8_lossy,
};
use vstd::prelude::*;

verus! {

/// The forward that makes the server reachable under its own port.
pub open spec fn remote_text(host: Seq<char>, port: u16) -> Seq<char> {
    decimal(port as nat) + ":"@ + host + ":"@ + decimal(port as nat)
}

/// The command line of the forward as it is shown.
pub open spec fn ssh_command_line(
    hostname: Seq<char>,
    ssh_port: Option<u16>,
    host: Seq<char>,
    port: u16,
) -> Seq<char> {
    "ssh"@ + match ssh_port {
        Some(ssh_port) => " -p "@ + decimal(ssh_port as nat),
        None => ""@,
    } + " "@ + hostname + " -R "@ + remote_text(host, port)
        + " -N -o ExitOnForwardFailure=yes"@
}

/// The arguments that come before the host name.
pub open spec fn ssh_port_args(ssh_port: Option<u16>) -> Seq<Seq<char>> {
    match ssh_port {
        Some(ssh_port) => seq!["-p"@, decimal(ssh_port as nat)],
        None => Seq::empty(),
    }
}

/// The arguments that `ssh` is called with.
pub open spec fn ssh_args(
    hostname: Seq<char>,
    ssh_port: Option<u16>,
    host: Seq<char>,
    port: u16,
) -> Seq<Seq<char>> {
    ssh_port_args(ssh_port) + seq![
        hostname,
        "-R"@,
        remote_text(host, port),
        "-N"@,
        "-o"@,
        "ExitOnForwardFailure=yes"@,
    ]
}

/// How `ssh` is called.
#[derive(Debug, PartialEq, Eq)]
pub struct SshPlan {
    /// The arguments of `ssh`.
    pub args: Vec<String>,
    /// The command line as it is shown.
    pub command_line: String,
}

/// Plans the SSH reverse-forward process.
pub fn plan_ssh_forward(hostname: &str, ssh_port: Option<u16>, host: &str, port: u16) -> (plan:
    SshPlan)
    ensures
        texts_of(plan.args@) == ssh_args(hostname@, ssh_port, host@, port),
        plan.command_line@ == ssh_command_line(hostname@, ssh_port, host@, port),
{
    let port_text = decimal_text(port as u128);
    let mut remote = concat2(port_text.as_str(), ":");
    remote.append(host);
    remote.append(":");
    remote.append(port_text.as_str());

    let mut args: Vec<String> = Vec::new();
    let mut line = "ssh".to_owned();
    match ssh_port {
        Some(ssh_port) => {
            let text = decimal_text(ssh_port as u128);
            line.append(concat2(" -p ", text.as_str()).as_str());
            args.push("-p".to_owned());
            args.push(text);
        },
        None => {
            line.append("");
        },
    }
    line.append(" ");
    line.append(hostname);
    line.append(" -R ");
    line.append(remote.as_str());
    line.append(" -N -o ExitOnForwardFailure=yes");

    args.push(hostname.to_owned());
    args.push("-R".to_owned());
    args.push(remote);
    args.push("-N".to_owned());
    args.push("-o".to_owned());
    args.push("ExitOnForwardFailure=yes".to_owned());
    assert(texts_of(args@) =~= ssh_args(hostname@, ssh_port, host@, port));
    SshPlan { args, command_line: line }
}

/// The command line that is shown is the call: `ssh` and its arguments with a space between them.
pub proof fn law_shown_command_line_is_the_call(
    hostname: Seq<char>,
    ssh_port: Option<u16>,
    host: Seq<char>,
    port: u16,
)
    ensures
        ssh_command_line(hostname, ssh_port, host, port) == joined(
            seq!["ssh"@] + ssh_args(hostname, ssh_port, host, port),
            " "@,
        ),
{
    lemma_tail_words(hostname, host, port);
    let words = tail_words(hostname, host, port);
    let tail = tail_text(hostname, host, port);
    reveal_strlit("ssh");
    reveal_strlit("");
    reveal_strlit(" ");
    reveal_strlit("-p");
    reveal_strlit(" -p ");
    match ssh_port {
        Some(p) => {
            let two = seq!["-p"@, decimal(p as nat)] + words;
            let one = seq![decimal(p as nat)] + words;
            assert(seq!["ssh"@] + ssh_args(hostname, ssh_port, host, port) =~= seq!["ssh"@] + two);
            assert((seq!["ssh"@] + two).skip(1) =~= two);
            assert(two.skip(1) =~= one);
            assert(one.skip(1) =~= words);
            assert(joined(one, " "@) == decimal(p as nat) + " "@ + tail);
            assert(two[0] == "-p"@);
            assert(joined(two, " "@) == "-p"@ + " "@ + joined(one, " "@));
            assert((seq!["ssh"@] + two)[0] == "ssh"@);
            assert(joined(seq!["ssh"@] + two, " "@) == "ssh"@ + " "@ + joined(two, " "@));
            assert(ssh_command_line(hostname, ssh_port, host, port) =~= "ssh"@ + " "@ + ("-p"@
                + " "@ + (decimal(p as nat) + " "@ + tail)));
        },
        None => {
            assert(seq!["ssh"@] + ssh_args(hostname, ssh_port, host, port) =~= seq!["ssh"@]
                + words);
            assert((seq!["ssh"@] + words).skip(1) =~= words);
            assert(ssh_command_line(hostname, ssh_port, host, port) =~= "ssh"@ + " "@ + tail);
        },
    }
}

/// The words from the host name on.
spec fn tail_words(hostname: Seq<char>, host: Seq<char>, port: u16) -> Seq<Seq<char>> {
    seq![hostname, "-R"@, remote_text(host, port), "-N"@, "-o"@, "ExitOnForwardFailure=yes"@]
}

/// The shown command line from the host name on.
spec fn tail_text(hostname: Seq<char>, host: Seq<char>, port: u16) -> Seq<char> {
    hostname + " -R "@ + remote_text(host, port) + " -N -o ExitOnForwardFailure=yes"@
}

/// The words from the host name on are shown with a space between them.
proof fn lemma_tail_words(hostname: Seq<char>, host: Seq<char>, port: u16)
    ensures
        joined(tail_words(hostname, host, port), " "@) == tail_text(hostname, host, port),
{
    reveal_strlit(" ");
    reveal_strlit("-R");
    reveal_strlit(" -R ");
    reveal_strlit("-N");
    reveal_strlit("-o");
    reveal_strlit("ExitOnForwardFailure=yes");
    reveal_strlit(" -N -o ExitOnForwardFailure=yes");
    let words = tail_words(hostname, host, port);
    let w1 = words.skip(1);
    let w2 = w1.skip(1);
    let w3 = w2.skip(1);
    let w4 = w3.skip(1);
    let w5 = w4.skip(1);
    assert(joined(w5, " "@) == "ExitOnForwardFailure=yes"@);
    assert(joined(w4, " "@) == "-o"@ + " "@ + joined(w5, " "@));
    assert(joined(w3, " "@) == "-N"@ + " "@ + joined(w4, " "@));
    assert(" "@ + joined(w3, " "@) =~= " -N -o ExitOnForwardFailure=yes"@);
    assert(joined(w2, " "@) == remote_text(host, port) + " "@ + joined(w3, " "@));
    assert(joined(w1, " "@) == "-R"@ + " "@ + joined(w2, " "@));
    assert(joined(words, " "@) == hostname + " "@ + joined(w1, " "@));
    assert(joined(words, " "@) =~= tail_text(hostname, host, port));
}

/// An optional exit code as it is shown.
pub open spec fn code_text(code: Option<i32>) -> Seq<char> {
    match code {
        Some(code) => "Some("@ + signed_decimal(code as int) + ")"@,
        None => "None"@,
    }
}

/// What is said of an `ssh` that exited.
pub open spec fn ssh_exit_text(
    command_line: Seq<char>,
    status: Seq<char>,
    code: Option<i32>,
    stdout: Seq<u8>,
    stderr: Seq<u8>,
) -> Seq<char> {
    "ssh forward process exited: command="@ + quoted_text(command_line) + ", status="@ + status
        + ", code="@ + code_text(code) + ", stdout="@ + quoted_text(lossy_text(stdout))
        + ", stderr="@ + quoted_text(lossy_text(stderr))
}

/// Says how `ssh` exited and what it printed.
pub fn format_ssh_exit(
    command_line: &str,
    status: &str,
    code: Option<i32>,
    stdout: &[u8],
    stderr: &[u8],
) -> (r: String)
    ensures
        r@ == ssh_exit_text(command_line@, status@, code, stdout@, stderr@),
{
    let code: String = match code {
        Some(code) => {
            let mut text = concat2("Some(", signed_decimal_text(code as i64).as_str());
            text.append(")");
            text
        },
        None => "None".to_owned(),
    };
    let mut text = concat2("ssh forward process exited: command=", quote(command_line).as_str());
    text.append(", status=");
    text.append(status);
    text.append(", code=");
    text.append(code.as_str());
    text.append(", stdout=");
    text.append(quote(utf8_lossy(stdout).as_str()).as_str());
    text.append(", stderr=");
    text.append(quote(utf8_lossy(stderr).as_str()).as_str());
    text
}

/// Says that `ssh` could not be waited for, for this reason.
pub fn ssh_wait_failure(command_line: &str, cause: Failure) -> (r: Failure)
    ensures
        r@ == within("failed to wait for ssh forward: "@ + command_line@, cause@),
{
    cause.within(concat2("failed to wait for ssh forward: ", command_line))
}

/// How serving came to an end.
#[derive(Debug, PartialEq, Eq)]
pub enum ServeEnd {
    /// The listener stopped.
    Server,
    /// The listener failed, for this reason.
    ServerFailed(Failure),
    /// The `ssh` process exited, and this is what is said of it.
    ForwardExited(Failure),
    /// The task that watched `ssh` panicked, for this reason.
    ForwardPanicked(Failure),
}

/// How serving came to an end, over texts.
pub enum ServeEndView {
    Server,
    ServerFailed(Seq<Seq<char>>),
    ForwardExited(Seq<Seq<char>>),
    ForwardPanicked(Seq<Seq<char>>),
}

impl View for ServeEnd {
    type V = ServeEndView;

    open spec fn view(&self) -> ServeEndView {
        match *self {
            ServeEnd::Server => ServeEndView::Server,
            ServeEnd::ServerFailed(cause) => ServeEndView::ServerFailed(cause@),
            ServeEnd::ForwardExited(cause) => ServeEndView::ForwardExited(cause@),
            ServeEnd::ForwardPanicked(cause) => ServeEndView::ForwardPanicked(cause@),
        }
    }
}

/// What the end of serving means for the server process: the end of the forward is the end of the
/// server, and a failure.
pub open spec fn serve_end_of(end: ServeEndView) -> Result<(), Seq<Seq<char>>> {
    match end {
        ServeEndView::Server => Ok(()),
        ServeEndView::ServerFailed(cause) => Err(within("server failed"@, cause)),
        ServeEndView::ForwardExited(cause) => Err(within("ssh forward exited"@, cause)),
        ServeEndView::ForwardPanicked(cause) => Err(
            within("ssh forward monitor task panicked"@, cause),
        ),
    }
}

/// Says what the end of serving means for the server process.
pub fn serve_outcome(end: ServeEnd) -> (r: Result<(), Failure>)
    ensures
        match serve_end_of(end@) {
            Ok(_) => r is Ok,
            Err(failure) => r is Err && r->Err_0@ == failure,
        },
{
    match end {
        ServeEnd::Server => Ok(()),
        ServeEnd::ServerFailed(cause) => Err(cause.within("server failed".to_owned())),
        ServeEnd::ForwardExited(cause) => Err(
            cause.within("ssh forward exited".to_owned()),
        ),
        ServeEnd::ForwardPanicked(cause) => Err(
            cause.within("ssh forward monitor task panicked".to_owned()),
        ),
    }
}

/// `ssh` is called with its own port where one was given, with the name of the host to forward from,
/// with a forward of the server's port there to the server's host and port here, without a command,
/// and so that it ends where the forward cannot be had.
pub proof fn law_forward_call(hostname: Seq<char>, ssh_port: Option<u16>, host: Seq<char>, port: u16)
    ensures
        ({
            let args = ssh_args(hostname, ssh_port, host, port);
            let behind = seq![
                hostname,
                "-R"@,
                decimal(port as nat) + seq![':'] + host + seq![':'] + decimal(port as nat),
                "-N"@,
                "-o"@,
                "ExitOnForwardFailure=yes"@,
            ];
            &&& ssh_port is None ==> args == behind
            &&& ssh_port matches Some(p) ==> args == seq!["-p"@, decimal(p as nat)] + behind
        }),
{
    reveal_strlit(":");
    assert(":"@ =~= seq![':']);
    assert(Seq::<Seq<char>>::empty() + tail_words(hostname, host, port) =~= tail_words(
        hostname,
        host,
        port,
    ));
}

/// What is said of an `ssh` that exited: its command line, how it ended, and what it printed.
pub proof fn law_forward_exit_is_described(
    command_line: Seq<char>,
    status: Seq<char>,
    code: Option<i32>,
    stdout: Seq<u8>,
    stderr: Seq<u8>,
)
    ensures
        ({
            let shown_code = match code {
                Some(code) => "Some("@ + signed_decimal(code as int) + ")"@,
                None => "None"@,
            };
            ssh_exit_text(command_line, status, code, stdout, stderr)
                == "ssh forward process exited: "@ + joined(
                seq![
                    "command="@ + quoted_text(command_line),
                    "status="@ + status,
                    "code="@ + shown_code,
                    "stdout="@ + quoted_text(lossy_text(stdout)),
                    "stderr="@ + quoted_text(lossy_text(stderr)),
                ],
                seq![',', ' '],
            )
        }),
{
    reveal_strlit("ssh forward process exited: ");
    reveal_strlit("ssh forward process exited: command=");
    reveal_strlit("command=");
    reveal_strlit(", status=");
    reveal_strlit("status=");
    reveal_strlit(", code=");
    reveal_strlit("code=");
    reveal_strlit(", stdout=");
    reveal_strlit("stdout=");
    reveal_strlit(", stderr=");
    reveal_strlit("stderr=");
    let sep = seq![',', ' '];
    let out = quoted_text(lossy_text(stdout));
    let err = quoted_text(lossy_text(stderr));
    let w = seq![
        "command="@ + quoted_text(command_line),
        "status="@ + status,
        "code="@ + code_text(code),
        "stdout="@ + out,
        "stderr="@ + err,
    ];
    assert(w.skip(3).skip(1) =~= w.skip(4));
    assert(w.skip(2).skip(1) =~= w.skip(3));
    assert(w.skip(1).skip(1) =~= w.skip(2));
    assert(joined(w.skip(4), sep) == w[4]);
    assert(joined(w.skip(3), sep) == w[3] + sep + joined(w.skip(4), sep));
    assert(joined(w.skip(2), sep) == w[2] + sep + joined(w.skip(3), sep));
    assert(joined(w.skip(1), sep) == w[1] + sep + joined(w.skip(2), sep));
    assert(joined(w, sep) == w[0] + sep + joined(w.skip(1), sep));
    assert(ssh_exit_text(command_line, status, code, stdout, stderr)
        =~= "ssh forward process exited: "@ + joined(w, sep));
}

} // verus!
