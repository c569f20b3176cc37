//! What the server derives from its arguments.

use hostcmd::cli::{ConnectionArgs, ServerArgs};
use hostcmd::config::{expand_home_path, HomeNotSet, HostPath};
use hostcmd::server::{
    effective_daemon_log_file, effective_log_file, effective_pid_file, format_address,
    format_server_args, is_command_allowed, plan_foreground,
};

fn path(text: &str) -> HostPath {
    HostPath::from_text(text)
}

fn args() -> ServerArgs {
    ServerArgs {
        connection: ConnectionArgs {
            secret: "s".into(),
            port: 8080,
            host: "127.0.0.1".into(),
        },
        log_file: None,
        pid_file: path("~/x.pid"),
        daemon: false,
        ssh_forward: None,
        ssh_forward_port: None,
        allow: vec![],
    }
}

/// Verifies that an empty allow list permits any requested command.
#[test]
fn empty_allow_list_permits_all_commands() {
    assert!(
        is_command_allowed(&[], &["false".to_string()]),
        "an empty allow list should permit commands when allow-list mode is disabled"
    );
}

/// Verifies that commands outside the allow list are rejected.
#[test]
fn allow_list_rejects_unknown_command() {
    assert!(
        !is_command_allowed(&["true".to_string()], &["false".to_string()]),
        "commands missing from the allow list should be rejected"
    );
}

#[test]
fn allow_list_looks_at_the_program_alone() {
    let allowed = ["true".to_string(), "uname".to_string()];
    assert!(is_command_allowed(
        &allowed,
        &["uname".to_string(), "-a".to_string()]
    ));
    assert!(!is_command_allowed(
        &allowed,
        &["env".to_string(), "uname".to_string()]
    ));
    assert!(!is_command_allowed(&allowed, &["/bin/uname".to_string()]));
    assert!(!is_command_allowed(&allowed, &[]));
    assert!(is_command_allowed(&[], &[]));
}

#[test]
fn home_is_expanded() {
    let home = path("/home/me");
    let expand = |text: &str| expand_home_path(&path(text), Some(&home));
    assert_eq!(expand("~"), Ok(path("/home/me")));
    assert_eq!(expand("~/a/b"), Ok(path("/home/me/a/b")));
    assert_eq!(expand("~/"), Ok(path("/home/me/")));
    assert_eq!(expand("~you/a"), Ok(path("~you/a")));
    assert_eq!(expand("a/~/b"), Ok(path("a/~/b")));
    assert_eq!(expand(""), Ok(path("")));
    assert_eq!(expand("~//etc"), Ok(path("/home/me/etc")));
    assert_eq!(expand("~///a//b"), Ok(path("/home/me/a//b")));
    assert_eq!(expand("~//"), Ok(path("/home/me/")));
    assert_eq!(
        expand_home_path(&path("~/a"), Some(&path("/home/me/"))),
        Ok(path("/home/me/a"))
    );
    assert_eq!(
        expand_home_path(&path("~/a"), Some(&path(""))),
        Ok(path("a"))
    );
}

#[test]
fn home_is_needed_only_where_it_is_named() {
    assert_eq!(expand_home_path(&path("~"), None), Err(HomeNotSet));
    assert_eq!(expand_home_path(&path("~/a"), None), Err(HomeNotSet));
    assert_eq!(expand_home_path(&path("/a"), None), Ok(path("/a")));
    assert_eq!(HomeNotSet.message(), "HOME is not set");
}

#[test]
fn path_that_is_no_text_is_kept() {
    let odd = HostPath {
        bytes: vec![b'~', b'/', 0xff],
    };
    assert_eq!(expand_home_path(&odd, None), Ok(odd.copy()));
}

#[test]
fn expansion_is_idempotent() {
    let home = path("/home/me");
    let once = expand_home_path(&path("~/a"), Some(&home)).expect("home is known");
    assert_eq!(expand_home_path(&once, Some(&home)), Ok(once.copy()));
}

#[test]
fn daemon_has_a_default_log_file() {
    let home = path("/h");
    let mut args = args();
    assert_eq!(effective_log_file(&args, Some(&home)), Ok(None));
    args.daemon = true;
    assert_eq!(
        effective_log_file(&args, Some(&home)),
        Ok(Some(path("/h/.local/share/hostcmd/server.log")))
    );
    assert_eq!(
        effective_daemon_log_file(&args, Some(&home)),
        Ok(path("/h/.local/share/hostcmd/server.log"))
    );
    args.log_file = Some(path("~/my.log"));
    assert_eq!(
        effective_log_file(&args, Some(&home)),
        Ok(Some(path("/h/my.log")))
    );
    assert_eq!(effective_log_file(&args, None), Err(HomeNotSet));
    args.daemon = false;
    assert_eq!(
        effective_log_file(&args, Some(&home)),
        Ok(Some(path("~/my.log")))
    );
    assert_eq!(effective_pid_file(&args, Some(&home)), Ok(path("/h/x.pid")));
}

#[test]
fn arguments_are_logged() {
    let mut args = args();
    assert_eq!(
        format_server_args(&args),
        "host=127.0.0.1 port=8080 secret=s log_file=- pid_file=~/x.pid daemon=false ssh_forward=- ssh_forward_port=- allow=*"
    );
    args.log_file = Some(HostPath {
        bytes: vec![b'l', 0xff],
    });
    args.daemon = true;
    args.ssh_forward = Some("jump".into());
    args.ssh_forward_port = Some(22);
    args.allow = vec!["a".into(), "b".into(), "c".into()];
    assert_eq!(
        format_server_args(&args),
        "host=127.0.0.1 port=8080 secret=s log_file=l\u{fffd} pid_file=~/x.pid daemon=true ssh_forward=jump ssh_forward_port=22 allow=a,b,c"
    );
}

#[test]
fn foreground_server_is_planned() {
    assert_eq!(plan_foreground(&args(), None), Err(HomeNotSet));
    let plan = plan_foreground(&args(), Some(&path("/h"))).expect("home is known");
    assert_eq!(plan.pid_file, path("/h/x.pid"));
    assert_eq!(plan.log_file, None);
    assert_eq!(plan.address, "127.0.0.1:8080");
    assert_eq!(plan.startup_args, format_server_args(&args()));
    assert_eq!(
        plan.try_line,
        "Try with: hostcmd exec --secret s --port 8080 --host 127.0.0.1 -- uname -a"
    );
    assert_eq!(format_address("h", 0), "h:0");
}
