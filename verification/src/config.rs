//! Names of environment variables, default files, and paths below the home directory.

use crate::wire::string_from_utf8;
use vstd::prelude::*;
use vstd::utf8::valid_utf8;

verus! {

/// Environment variable exposed to executed commands with the client hostname.
pub const CLIENT_HOSTNAME_ENV_VAR: &'static str = "HOSTCMD_CLIENT_HOSTNAME";

/// Environment variable exposed to executed commands with the client username.
pub const CLIENT_USERNAME_ENV_VAR: &'static str = "HOSTCMD_CLIENT_USERNAME";

/// Environment variable exposed to executed commands with the client working directory.
pub const CLIENT_CWD_ENV_VAR: &'static str = "HOSTCMD_CLIENT_CWD";

/// Environment variable marking that a command was launched through hostcmd.
pub const CLIENT_EXEC_ENV_VAR: &'static str = "HOSTCMD_CLIENT_EXEC";

/// Environment variable value used to mark hostcmd-launched commands.
pub const CLIENT_EXEC_ENV_VALUE: &'static str = "true";

/// Internal environment variable carrying the daemon startup readiness file path.
pub const DAEMON_READY_FILE_ENV_VAR: &'static str = "HOSTCMD_DAEMON_READY_FILE";

/// Test-only environment variable carrying a foreground server readiness file path.
pub const TEST_READY_FILE_ENV_VAR: &'static str = "HOSTCMD_TEST_READY_FILE";

/// Environment variable used to configure the server and client shared secret.
pub const SECRET_ENV_VAR: &'static str = "HOSTCMD_SECRET";

/// Environment variable used to configure the server and client port.
pub const PORT_ENV_VAR: &'static str = "HOSTCMD_PORT";

/// Environment variable used to configure the server and client host.
pub const HOST_ENV_VAR: &'static str = "HOSTCMD_HOST";

/// Environment variable used to configure the server log file.
pub const LOG_FILE_ENV_VAR: &'static str = "HOSTCMD_LOG_FILE";

/// Environment variable used to configure the server pid file.
pub const PID_FILE_ENV_VAR: &'static str = "HOSTCMD_PID_FILE";

/// Environment variable used to configure SSH forwarding.
pub const SSH_FORWARD_ENV_VAR: &'static str = "HOSTCMD_SSH_FORWARD";

/// Environment variable used to configure the SSH port for reverse forwarding.
pub const SSH_FORWARD_PORT_ENV_VAR: &'static str = "HOSTCMD_SSH_FORWARD_PORT";

/// Environment variable used to configure allowed server commands.
pub const ALLOW_ENV_VAR: &'static str = "HOSTCMD_ALLOW";

/// Environment variable used to configure the client command.
pub const COMMAND_ENV_VAR: &'static str = "HOSTCMD_COMMAND";

/// Default server pid file path shown in CLI help and expanded at runtime.
pub const DEFAULT_PID_FILE: &'static str = "~/.local/share/hostcmd/server.pid";

/// Default server log file path shown in documentation and expanded at runtime.
pub const DEFAULT_LOG_FILE: &'static str = "~/.local/share/hostcmd/server.log";

/// A file path as the bytes that a Unix system knows it by.
#[derive(Debug, PartialEq, Eq)]
pub struct HostPath {
    pub bytes: Vec<u8>,
}

impl View for HostPath {
    type V = Seq<u8>;

    open spec fn view(&self) -> Seq<u8> {
        self.bytes@
    }
}

/// A path is given relative to a home directory that is not known.
#[derive(Clone, Copy, Debug, PartialEq, Eq, Structural)]
pub struct HomeNotSet;

/// The byte `~`.
pub const TILDE: u8 = 0x7e;

/// The byte `/`.
pub const SLASH: u8 = 0x2f;

/// The path of `rest` below the directory `base`; an absolute `rest` stands for itself.
pub open spec fn joined_path(base: Seq<u8>, rest: Seq<u8>) -> Seq<u8> {
    if rest.len() > 0 && rest[0] == SLASH {
        rest
    } else if base.len() > 0 && base.last() != SLASH {
        base.push(SLASH) + rest
    } else {
        base + rest
    }
}

/// Whether `path` begins with the component `~` and something follows it.
pub open spec fn is_below_home(path: Seq<u8>) -> bool {
    path.len() >= 2 && path[0] == TILDE && path[1] == SLASH
}

/// `rest` without the slashes at its front.
pub open spec fn without_leading_slashes(rest: Seq<u8>) -> Seq<u8>
    decreases rest.len(),
{
    if rest.len() > 0 && rest[0] == SLASH {
        without_leading_slashes(rest.skip(1))
    } else {
        rest
    }
}

/// `path` with a leading `~` replaced by the home directory; what follows it lies below that
/// directory, however many slashes stand between them. A path that is no UTF-8 stays as it
/// is.
pub open spec fn expanded_path(path: Seq<u8>, home: Option<Seq<u8>>) -> Result<
    Seq<u8>,
    HomeNotSet,
> {
    if valid_utf8(path) && path == seq![TILDE] {
        match home {
            Some(home) => Ok(home),
            None => Err(HomeNotSet),
        }
    } else if valid_utf8(path) && is_below_home(path) {
        match home {
            Some(home) => Ok(joined_path(home, without_leading_slashes(path.skip(2)))),
            None => Err(HomeNotSet),
        }
    } else {
        Ok(path)
    }
}

/// The bytes of an optional path.
pub open spec fn path_option(path: Option<&HostPath>) -> Option<Seq<u8>> {
    match path {
        Some(path) => Some(path@),
        None => None,
    }
}

/// Whether an executable result is the one that the model gives.
pub open spec fn same_path_result(
    got: Result<HostPath, HomeNotSet>,
    want: Result<Seq<u8>, HomeNotSet>,
) -> bool {
    match want {
        Ok(path) => got is Ok && got->Ok_0@ == path,
        Err(e) => got == Err::<HostPath, HomeNotSet>(e),
    }
}

impl HostPath {
    /// The path that a text writes.
    pub fn from_text(text: &str) -> (path: HostPath)
        ensures
            path@ == vstd::utf8::encode_utf8(text@),
    {
        HostPath { bytes: vstd::slice::slice_to_vec(text.as_bytes()) }
    }

    /// Another copy of this path.
    pub fn copy(&self) -> (path: HostPath)
        ensures
            path@ == self@,
    {
        HostPath { bytes: vstd::slice::slice_to_vec(self.bytes.as_slice()) }
    }

    /// The path of `rest` below this one.
    pub fn join(&self, rest: &[u8]) -> (path: HostPath)
        ensures
            path@ == joined_path(self@, rest@),
    {
        if rest.len() > 0 && rest[0] == SLASH {
            return HostPath { bytes: vstd::slice::slice_to_vec(rest) };
        }
        let mut bytes = vstd::slice::slice_to_vec(self.bytes.as_slice());
        if bytes.len() > 0 && bytes[bytes.len() - 1] != SLASH {
            bytes.push(SLASH);
        }
        bytes.extend_from_slice(rest);
        assert(bytes@ =~= joined_path(self@, rest@));
        HostPath { bytes }
    }
}

/// Expands a leading `~/` path component against the caller's home directory.
pub fn expand_home_path(path: &HostPath, home: Option<&HostPath>) -> (r: Result<
    HostPath,
    HomeNotSet,
>)
    ensures
        same_path_result(r, expanded_path(path@, path_option(home))),
{
    let bytes = path.bytes.as_slice();
    if string_from_utf8(vstd::slice::slice_to_vec(bytes)).is_err() {
        return Ok(path.copy());
    }
    if bytes.len() == 1 && bytes[0] == TILDE {
        assert(path@ =~= seq![TILDE]);
        return match home {
            Some(home) => Ok(home.copy()),
            None => Err(HomeNotSet),
        };
    }
    if bytes.len() >= 2 && bytes[0] == TILDE && bytes[1] == SLASH {
        return match home {
            Some(home) => {
                let mut start: usize = 2;
                while start < bytes.len() && bytes[start] == SLASH
                    invariant
                        2 <= start <= bytes@.len(),
                        without_leading_slashes(bytes@.skip(2)) == without_leading_slashes(
                            bytes@.skip(start as int),
                        ),
                    decreases bytes@.len() - start,
                {
                    assert(bytes@.skip(start as int).skip(1) =~= bytes@.skip(start + 1));
                    start += 1;
                }
                let rest = vstd::slice::slice_subrange(bytes, start, bytes.len());
                assert(rest@ =~= bytes@.skip(start as int));
                Ok(home.join(rest))
            },
            None => Err(HomeNotSet),
        };
    }
    Ok(path.copy())
}

impl HomeNotSet {
    /// Says what is missing.
    pub fn message(&self) -> (r: String)
        ensures
            r@ == "HOME is not set"@,
    {
        "HOME is not set".to_owned()
    }
}

} // verus!
