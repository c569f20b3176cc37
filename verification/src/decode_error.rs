//! What a refused frame is reported as: where decoding stopped, and why.

use crate::text::{concat2, concat3, decimal, decimal_text};
use crate::wire::FrameError;
use vstd::prelude::*;

verus! {

/// The value that was being read when a frame turned out unreadable.
#[derive(Clone, Copy, Debug, PartialEq, Eq, Structural)]
pub enum DecodeStep {
    /// The tag byte of a client frame.
    ClientTag,
    /// The meaning of a client frame's tag byte.
    ClientTagValue,
    /// The number of command arguments of an exec frame.
    ExecCommandCount,
    /// The command argument of this index.
    ExecCommandArgument(u32),
    /// The number of forwarded variables of an exec frame.
    ExecEnvCount,
    /// The name of the forwarded variable of this index.
    ExecEnvName(u32),
    /// The value of the forwarded variable of this index.
    ExecEnvValue(u32),
    /// The client hostname of an exec frame.
    ExecHostname,
    /// The client username of an exec frame.
    ExecUsername,
    /// The client working directory of an exec frame.
    ExecCwd,
    /// The end of an exec frame.
    ExecEnd,
    /// The end of a cancel frame.
    CancelEnd,
    /// The payload of a stdin frame.
    StdinBytes,
    /// The end of a stdin frame.
    StdinEnd,
    /// The end of a stdin-eof frame.
    StdinEofEnd,
    /// The tag byte of a server frame.
    ServerTag,
    /// The meaning of a server frame's tag byte.
    ServerTagValue,
    /// The payload of a stdout frame.
    StdoutBytes,
    /// The end of a stdout frame.
    StdoutEnd,
    /// The payload of a stderr frame.
    StderrBytes,
    /// The end of a stderr frame.
    StderrEnd,
    /// The code of an exit frame.
    ExitCode,
    /// The end of an exit frame.
    ExitEnd,
    /// The message of an error frame.
    ErrorMessage,
    /// The end of an error frame.
    ErrorEnd,
}

/// Why a frame was refused, and at which of its values.
#[derive(Clone, Copy, Debug, PartialEq, Eq, Structural)]
pub struct DecodeError {
    /// The value that was being read.
    pub step: DecodeStep,
    /// What was wrong with its bytes.
    pub cause: FrameError,
}

/// The description of a step.
pub open spec fn step_text(step: DecodeStep) -> Seq<char> {
    match step {
        DecodeStep::ClientTag => "reading client frame tag"@,
        DecodeStep::ClientTagValue => "decoding client frame tag"@,
        DecodeStep::ExecCommandCount => "client exec: reading command argument count"@,
        DecodeStep::ExecCommandArgument(index) => "client exec: reading command argument "@
            + decimal(index as nat),
        DecodeStep::ExecEnvCount => "client exec: reading forwarded env count"@,
        DecodeStep::ExecEnvName(index) => "client exec: reading forwarded env "@ + decimal(
            index as nat,
        ) + " name"@,
        DecodeStep::ExecEnvValue(index) => "client exec: reading forwarded env "@ + decimal(
            index as nat,
        ) + " value"@,
        DecodeStep::ExecHostname => "client exec: reading hostname"@,
        DecodeStep::ExecUsername => "client exec: reading username"@,
        DecodeStep::ExecCwd => "client exec: reading cwd"@,
        DecodeStep::ExecEnd => "client exec: validating trailing bytes"@,
        DecodeStep::CancelEnd => "client cancel: validating trailing bytes"@,
        DecodeStep::StdinBytes => "client stdin: reading bytes"@,
        DecodeStep::StdinEnd => "client stdin: validating trailing bytes"@,
        DecodeStep::StdinEofEnd => "client stdin_eof: validating trailing bytes"@,
        DecodeStep::ServerTag => "reading server frame tag"@,
        DecodeStep::ServerTagValue => "decoding server frame tag"@,
        DecodeStep::StdoutBytes => "server stdout: reading bytes"@,
        DecodeStep::StdoutEnd => "server stdout: validating trailing bytes"@,
        DecodeStep::StderrBytes => "server stderr: reading bytes"@,
        DecodeStep::StderrEnd => "server stderr: validating trailing bytes"@,
        DecodeStep::ExitCode => "server exit: reading exit code"@,
        DecodeStep::ExitEnd => "server exit: validating trailing bytes"@,
        DecodeStep::ErrorMessage => "server error: reading message"@,
        DecodeStep::ErrorEnd => "server error: validating trailing bytes"@,
    }
}

/// The description of a cause, down to its root.
pub open spec fn cause_text(cause: FrameError) -> Seq<char> {
    match cause {
        FrameError::Truncated => "truncated frame"@,
        FrameError::TrailingBytes => "trailing frame bytes"@,
        FrameError::InvalidUtf8 { valid_up_to, error_len: Some(len) } =>
            "invalid utf-8 string: invalid utf-8 sequence of "@ + decimal(len as nat)
            + " bytes from index "@ + decimal(valid_up_to as nat),
        FrameError::InvalidUtf8 { valid_up_to, error_len: None } =>
            "invalid utf-8 string: incomplete utf-8 byte sequence from index "@ + decimal(
            valid_up_to as nat,
        ),
        FrameError::UnknownClientFrame(tag) => "unknown client frame "@ + decimal(tag as nat),
        FrameError::UnknownServerFrame(tag) => "unknown server frame "@ + decimal(tag as nat),
    }
}

/// Describes the forwarded variable of this index, `part` being its name or its value.
fn env_step_text(index: u32, part: &str) -> (r: String)
    ensures
        r@ == "client exec: reading forwarded env "@ + decimal(index as nat) + part@,
{
    concat3("client exec: reading forwarded env ", decimal_text(index as u128).as_str(), part)
}

impl DecodeStep {
    /// Describes the value that was being read.
    pub fn text(&self) -> (r: String)
        ensures
            r@ == step_text(*self),
    {
        let fixed: &str = match *self {
            DecodeStep::ExecCommandArgument(index) => return concat2(
                "client exec: reading command argument ",
                decimal_text(index as u128).as_str(),
            ),
            DecodeStep::ExecEnvName(index) => return env_step_text(index, " name"),
            DecodeStep::ExecEnvValue(index) => return env_step_text(index, " value"),
            DecodeStep::ClientTag => "reading client frame tag",
            DecodeStep::ClientTagValue => "decoding client frame tag",
            DecodeStep::ExecCommandCount => "client exec: reading command argument count",
            DecodeStep::ExecEnvCount => "client exec: reading forwarded env count",
            DecodeStep::ExecHostname => "client exec: reading hostname",
            DecodeStep::ExecUsername => "client exec: reading username",
            DecodeStep::ExecCwd => "client exec: reading cwd",
            DecodeStep::ExecEnd => "client exec: validating trailing bytes",
            DecodeStep::CancelEnd => "client cancel: validating trailing bytes",
            DecodeStep::StdinBytes => "client stdin: reading bytes",
            DecodeStep::StdinEnd => "client stdin: validating trailing bytes",
            DecodeStep::StdinEofEnd => "client stdin_eof: validating trailing bytes",
            DecodeStep::ServerTag => "reading server frame tag",
            DecodeStep::ServerTagValue => "decoding server frame tag",
            DecodeStep::StdoutBytes => "server stdout: reading bytes",
            DecodeStep::StdoutEnd => "server stdout: validating trailing bytes",
            DecodeStep::StderrBytes => "server stderr: reading bytes",
            DecodeStep::StderrEnd => "server stderr: validating trailing bytes",
            DecodeStep::ExitCode => "server exit: reading exit code",
            DecodeStep::ExitEnd => "server exit: validating trailing bytes",
            DecodeStep::ErrorMessage => "server error: reading message",
            DecodeStep::ErrorEnd => "server error: validating trailing bytes",
        };
        fixed.to_owned()
    }
}

impl FrameError {
    /// Describes what was wrong with the bytes.
    pub fn text(&self) -> (r: String)
        ensures
            r@ == cause_text(*self),
    {
        match *self {
            FrameError::Truncated => "truncated frame".to_owned(),
            FrameError::TrailingBytes => "trailing frame bytes".to_owned(),
            FrameError::InvalidUtf8 { valid_up_to, error_len } => {
                let index = decimal_text(valid_up_to as u128);
                match error_len {
                    Some(len) => concat3(
                        concat2(
                            "invalid utf-8 string: invalid utf-8 sequence of ",
                            decimal_text(len as u128).as_str(),
                        ).as_str(),
                        " bytes from index ",
                        index.as_str(),
                    ),
                    None => concat2(
                        "invalid utf-8 string: incomplete utf-8 byte sequence from index ",
                        index.as_str(),
                    ),
                }
            },
            FrameError::UnknownClientFrame(tag) => concat2(
                "unknown client frame ",
                decimal_text(tag as u128).as_str(),
            ),
            FrameError::UnknownServerFrame(tag) => concat2(
                "unknown server frame ",
                decimal_text(tag as u128).as_str(),
            ),
        }
    }
}

impl DecodeError {
    /// Says where decoding stopped: the outermost line of the report.
    pub fn message(&self) -> (r: String)
        ensures
            r@ == step_text(self.step),
    {
        self.step.text()
    }

    /// Says where decoding stopped and, down to the root cause, why.
    pub fn chain(&self) -> (r: String)
        ensures
            r@ == step_text(self.step) + ": "@ + cause_text(self.cause),
    {
        concat3(self.step.text().as_str(), ": ", self.cause.text().as_str())
    }
}

} // verus!
