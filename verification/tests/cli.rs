//! The command line.

use hostcmd::cli::{parse_port, Cli, CliError, CliStop, Commands, ServerArgs};
use hostcmd::config::{HostPath, DEFAULT_PID_FILE};

fn words(list: &[&str]) -> Vec<String> {
    list.iter().map(|word| word.to_string()).collect()
}

fn parse(list: &[&str]) -> Result<Cli, CliStop> {
    Cli::try_parse_from(words(list))
}

fn server(list: &[&str]) -> ServerArgs {
    match parse(list).expect("server arguments should parse").command {
        Commands::Server(args) => args,
        _ => panic!("expected the server command"),
    }
}

/// Accepts an `exec` command without `--` when the command follows all flags.
#[test]
fn exec_accepts_command_without_separator() {
    let cli = parse(&[
        "hostcmd",
        "exec",
        "--secret",
        "secret",
        "--port",
        "8080",
        "--host",
        "127.0.0.1",
        "uname",
    ])
    .expect("exec command without separator should parse");

    match cli.command {
        Commands::Exec(args) => assert_eq!(
            args.command,
            ["uname"],
            "exec command should preserve the remote command without a separator"
        ),
        Commands::Server(_) | Commands::Stop(_) => {
            panic!("expected exec command when parsing exec arguments without a separator")
        }
    }
}

/// Preserves remote command arguments without requiring `--`.
#[test]
fn exec_accepts_remote_command_arguments_without_separator() {
    let cli = parse(&[
        "hostcmd",
        "exec",
        "--secret",
        "secret",
        "--port",
        "8080",
        "--host",
        "127.0.0.1",
        "sh",
        "-c",
        "printf test",
    ])
    .expect("exec command arguments without separator should parse");

    match cli.command {
        Commands::Exec(args) => {
            assert_eq!(
                args.command,
                ["sh", "-c", "printf test"],
                "exec command should preserve all remote command arguments without a separator"
            );
        }
        Commands::Server(_) | Commands::Stop(_) => {
            panic!("expected exec command when parsing remote command arguments without a separator")
        }
    }
}

/// Continues accepting `--` as an explicit separator for remote commands.
#[test]
fn exec_still_accepts_explicit_separator() {
    let cli = parse(&[
        "hostcmd",
        "exec",
        "--secret",
        "secret",
        "--port",
        "8080",
        "--host",
        "127.0.0.1",
        "--",
        "uname",
        "-a",
    ])
    .expect("exec command with separator should parse");

    match cli.command {
        Commands::Exec(args) => assert_eq!(
            args.command,
            ["uname", "-a"],
            "exec command should preserve the remote command when using an explicit separator"
        ),
        Commands::Server(_) | Commands::Stop(_) => {
            panic!("expected exec command when parsing exec arguments with an explicit separator")
        }
    }
}

#[test]
fn exec_keeps_the_connection() {
    let cli = parse(&[
        "hostcmd", "exec", "--secret", "s3", "--port", "1", "--host", "::1", "true",
    ])
    .expect("exec should parse");
    match cli.command {
        Commands::Exec(args) => {
            assert_eq!(args.connection.secret, "s3");
            assert_eq!(args.connection.port, 1);
            assert_eq!(args.connection.host, "::1");
        }
        _ => panic!("expected the exec command"),
    }
}

#[test]
fn server_has_defaults() {
    let args = server(&[
        "hostcmd", "server", "--secret", "s", "--port", "65535", "--host", "h",
    ]);
    assert_eq!(args.connection.port, 65535);
    assert_eq!(args.log_file, None);
    assert_eq!(args.pid_file, HostPath::from_text(DEFAULT_PID_FILE));
    assert!(!args.daemon);
    assert_eq!(args.ssh_forward, None);
    assert_eq!(args.ssh_forward_port, None);
    assert!(args.allow.is_empty());
}

#[test]
fn server_takes_every_option() {
    let args = server(&[
        "hostcmd",
        "server",
        "--secret=s",
        "--port=80",
        "--host=h",
        "--log-file",
        "/var/log/x",
        "--pid-file",
        "~/x.pid",
        "--daemon",
        "--ssh-forward",
        "jump",
        "--ssh-forward-port",
        "2222",
        "--allow",
        "pbcopy,uname",
        "--allow",
        "true",
    ]);
    assert_eq!(args.log_file, Some(HostPath::from_text("/var/log/x")));
    assert_eq!(args.pid_file, HostPath::from_text("~/x.pid"));
    assert!(args.daemon);
    assert_eq!(args.ssh_forward, Some("jump".to_string()));
    assert_eq!(args.ssh_forward_port, Some(2222));
    assert_eq!(args.allow, ["pbcopy", "uname", "true"]);
}

#[test]
fn zero_may_have_a_minus_sign() {
    let args = server(&[
        "hostcmd", "server", "--secret", "s", "--port=-0", "--host", "h",
    ]);
    assert_eq!(args.connection.port, 0);
}

#[test]
fn refused_port_is_answered_with_its_range() {
    match parse(&[
        "hostcmd", "server", "--secret", "s", "--port", "65536", "--host", "h",
    ]) {
        Err(CliStop::Parser(answer)) => assert_eq!(
            answer.text,
            "error: invalid value '65536' for '--port <PORT>': 65536 is not in 0..=65535\n\nFor more information, try '--help'.\n"
        ),
        other => panic!("expected a refusal, got {other:?}"),
    }
}

#[test]
fn stop_takes_a_pid_file() {
    let stop = |list: &[&str]| match parse(list).expect("stop should parse").command {
        Commands::Stop(args) => args.pid_file,
        _ => panic!("expected the stop command"),
    };
    assert_eq!(
        stop(&["hostcmd", "stop"]),
        HostPath::from_text("~/.local/share/hostcmd/server.pid")
    );
    assert_eq!(
        stop(&["hostcmd", "stop", "--pid-file", "p"]),
        HostPath::from_text("p")
    );
}

#[test]
fn refused_arguments_are_answered_by_the_parser() {
    for list in [
        &["hostcmd", "exec", "--port", "1", "--host", "h", "--secret", "s"][..],
        &["hostcmd", "server", "--secret", "s", "--port", "65536", "--host", "h"][..],
        &["hostcmd", "server", "--secret", "s", "--port", "-1", "--host", "h"][..],
        &["hostcmd", "server", "--secret", "s", "--host", "h"][..],
        &["hostcmd", "restart"][..],
    ] {
        match parse(list) {
            Err(CliStop::Parser(answer)) => {
                assert_eq!(answer.code, 2);
                assert!(answer.on_stderr);
                assert!(answer.text.starts_with("error: "), "{}", answer.text);
            }
            other => panic!("expected a refusal, got {other:?}"),
        }
    }
}

#[test]
fn help_and_version_are_answered_on_stdout() {
    match parse(&["hostcmd", "--version"]) {
        Err(CliStop::Parser(answer)) => {
            assert_eq!(answer.text, "hostcmd 0.1.0\n");
            assert_eq!(answer.code, 0);
            assert!(!answer.on_stderr);
        }
        other => panic!("expected the version, got {other:?}"),
    }
    match parse(&["hostcmd", "server", "--help"]) {
        Err(CliStop::Parser(answer)) => {
            assert_eq!(answer.code, 0);
            assert!(answer.text.starts_with("Start a websocket command execution server"));
            assert!(answer.text.contains("[env: HOSTCMD_SECRET="));
            assert!(answer.text.contains("[default: ~/.local/share/hostcmd/server.pid]"));
            assert!(answer.text.contains("  --allow pbcopy --allow uname"));
        }
        other => panic!("expected the help, got {other:?}"),
    }
}

#[test]
fn short_help_keeps_the_words_of_each_option() {
    match parse(&["hostcmd", "server", "-h"]) {
        Err(CliStop::Parser(answer)) => {
            for line in [
                "Host address to bind or connect to [env: HOSTCMD_HOST=",
                "SSH hostname used to expose the server through a reverse port forward. [env: ",
                "SSH port used when connecting to the reverse port forward host [env: ",
                "Command names allowed for remote execution. [env: HOSTCMD_ALLOW=",
            ] {
                assert!(answer.text.contains(line), "{line}: {}", answer.text);
            }
        }
        other => panic!("expected the help, got {other:?}"),
    }
}

#[test]
fn definition_is_consistent() {
    hostcmd::cli_rules::command().debug_assert();
}

#[test]
fn matches_of_another_definition_are_refused() {
    let none = clap::Command::new("x").get_matches_from(["x"]);
    assert!(matches!(
        Cli::from_arg_matches(&none),
        Err(CliError::MissingSubcommand)
    ));
    let other = clap::Command::new("x")
        .subcommand(clap::Command::new("other"))
        .get_matches_from(["x", "other"]);
    match Cli::from_arg_matches(&other) {
        Err(error) => assert_eq!(error.message(), "The subcommand 'other' wasn't recognized"),
        Ok(_) => panic!("expected a refusal"),
    }
    let bare = clap::Command::new("x")
        .subcommand(clap::Command::new("exec"))
        .get_matches_from(["x", "exec"]);
    match Cli::from_arg_matches(&bare) {
        Err(error) => assert_eq!(
            error.message(),
            "The following required argument was not provided: secret"
        ),
        Ok(_) => panic!("expected a refusal"),
    }
    let text_port = clap::Command::new("x")
        .subcommand(
            clap::Command::new("exec")
                .arg(clap::Arg::new("secret").long("secret"))
                .arg(clap::Arg::new("port").long("port")),
        )
        .get_matches_from(["x", "exec", "--secret", "s", "--port", "many"]);
    match Cli::from_arg_matches(&text_port) {
        Err(error) => assert_eq!(
            error.message(),
            "The following argument has an invalid value: port"
        ),
        Ok(_) => panic!("expected a refusal"),
    }
    assert_eq!(
        CliError::MissingSubcommand.message(),
        "A subcommand is required but one was not provided."
    );
}

#[test]
fn ports_are_read() {
    assert_eq!(parse_port("0"), Some(0));
    assert_eq!(parse_port("65535"), Some(65535));
    assert_eq!(parse_port("+8080"), Some(8080));
    assert_eq!(parse_port("00080"), Some(80));
    assert_eq!(parse_port("65536"), None);
    assert_eq!(parse_port("99999999999999999999"), None);
    assert_eq!(parse_port(""), None);
    assert_eq!(parse_port("+"), None);
    assert_eq!(parse_port("-0"), Some(0));
    assert_eq!(parse_port("-1"), None);
    assert_eq!(parse_port("-"), None);
    assert_eq!(parse_port("8 0"), None);
}
