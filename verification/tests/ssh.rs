//! The reverse port forward.

use hostcmd::failure::Failure;
use hostcmd::ssh::{
    format_ssh_exit, plan_ssh_forward, serve_outcome, ssh_wait_failure, ServeEnd,
};

fn x() -> Failure {
    Failure::plain("x".into())
}

fn links(failure: Failure) -> Vec<String> {
    failure.links
}

#[test]
fn forward_is_planned() {
    let plan = plan_ssh_forward("jump", None, "127.0.0.1", 8080);
    assert_eq!(
        plan.args,
        [
            "jump",
            "-R",
            "8080:127.0.0.1:8080",
            "-N",
            "-o",
            "ExitOnForwardFailure=yes",
        ]
    );
    assert_eq!(
        plan.command_line,
        "ssh jump -R 8080:127.0.0.1:8080 -N -o ExitOnForwardFailure=yes"
    );
}

#[test]
fn shown_command_line_is_the_call() {
    for ssh_port in [None, Some(2222)] {
        let plan = plan_ssh_forward("jump", ssh_port, "h", 1);
        assert_eq!(plan.command_line, format!("ssh {}", plan.args.join(" ")));
    }
}

#[test]
fn forward_takes_a_port() {
    let plan = plan_ssh_forward("jump", Some(2222), "h", 1);
    assert_eq!(plan.args[..3], ["-p", "2222", "jump"]);
    assert_eq!(
        plan.command_line,
        "ssh -p 2222 jump -R 1:h:1 -N -o ExitOnForwardFailure=yes"
    );
}

#[test]
fn exit_is_described() {
    assert_eq!(
        format_ssh_exit("ssh \"x\"", "exit status: 255", Some(255), b"a\n", &[0xff]),
        "ssh forward process exited: command=\"ssh \\\"x\\\"\", status=exit status: 255, code=Some(255), stdout=\"a\\n\", stderr=\"\u{fffd}\""
    );
    assert_eq!(
        format_ssh_exit("ssh", "signal: 9 (SIGKILL)", None, b"", b""),
        "ssh forward process exited: command=\"ssh\", status=signal: 9 (SIGKILL), code=None, stdout=\"\", stderr=\"\""
    );
    assert!(format_ssh_exit("ssh", "s", Some(-1), b"", b"").contains("code=Some(-1),"));
}

#[test]
fn end_of_the_forward_ends_the_server() {
    assert_eq!(serve_outcome(ServeEnd::Server), Ok(()));
    for (end, context) in [
        (ServeEnd::ServerFailed(x()), "server failed"),
        (ServeEnd::ForwardExited(x()), "ssh forward exited"),
        (
            ServeEnd::ForwardPanicked(x()),
            "ssh forward monitor task panicked",
        ),
    ] {
        let failure = serve_outcome(end).expect_err("the server failed");
        assert_eq!(failure.text(), format!("{context}: x"));
        assert_eq!(links(failure), [context, "x"]);
    }
    let failure = ssh_wait_failure("ssh jump", x());
    let failure =
        serve_outcome(ServeEnd::ForwardExited(failure)).expect_err("the server failed");
    assert_eq!(
        links(failure),
        [
            "ssh forward exited",
            "failed to wait for ssh forward: ssh jump",
            "x"
        ]
    );
}
