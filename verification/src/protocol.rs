//! The binary protocol between client and server: its frames, their encoding and their decoding.

use crate::decode_error::{DecodeError, DecodeStep};
use crate::text::texts_of;
use crate::wire::{
    be32, lemma_concat_assoc, length_field, length_prefix, prefixed, prefixed_text, put_bytes,
    put_i32, put_string, put_u32, put_u8, read_bytes, read_i32, read_text, read_u32, read_u8,
    twos_complement, Decoder, FrameError,
};
use vstd::prelude::*;

verus! {

/// Maximum number of streamed bytes sent in one websocket frame.
pub const CHUNK_SIZE: usize = 16384;

/// Number of bytes used by a tagged length-prefixed byte frame header.
pub const BYTE_FRAME_HEADER_SIZE: usize = 5;

/// Wire-level tag values used for `ClientFrame` payloads.
#[derive(Clone, Copy, Debug, PartialEq, Eq, Structural)]
pub enum ClientFrameTag {
    /// Tag byte for `ClientFrame::Exec`.
    Exec,
    /// Tag byte for `ClientFrame::Cancel`.
    Cancel,
    /// Tag byte for `ClientFrame::Stdin`.
    Stdin,
    /// Tag byte for `ClientFrame::StdinEof`.
    StdinEof,
}

/// Wire-level tag values used for server-to-client payloads.
#[derive(Clone, Copy, Debug, PartialEq, Eq, Structural)]
pub enum ServerFrameTag {
    /// Tag byte for a stdout payload frame.
    Stdout,
    /// Tag byte for a stderr payload frame.
    Stderr,
    /// Tag byte for a command exit frame.
    Exit,
    /// Tag byte for an execution error frame.
    Error,
}

/// The tag byte of a client frame.
pub open spec fn client_tag_byte(tag: ClientFrameTag) -> u8 {
    match tag {
        ClientFrameTag::Exec => 1,
        ClientFrameTag::Cancel => 2,
        ClientFrameTag::Stdin => 3,
        ClientFrameTag::StdinEof => 4,
    }
}

/// The tag byte of a server frame.
pub open spec fn server_tag_byte(tag: ServerFrameTag) -> u8 {
    match tag {
        ServerFrameTag::Stdout => 1,
        ServerFrameTag::Stderr => 2,
        ServerFrameTag::Exit => 3,
        ServerFrameTag::Error => 4,
    }
}

impl ClientFrameTag {
    /// Returns the wire tag byte for this client frame tag.
    pub fn as_u8(self) -> (byte: u8)
        ensures
            byte == client_tag_byte(self),
    {
        match self {
            ClientFrameTag::Exec => 1,
            ClientFrameTag::Cancel => 2,
            ClientFrameTag::Stdin => 3,
            ClientFrameTag::StdinEof => 4,
        }
    }

    /// Converts a raw client frame tag byte into its typed representation.
    pub fn try_from(value: u8) -> (r: Result<Self, FrameError>)
        ensures
            r matches Ok(tag) ==> client_tag_byte(tag) == value,
            r matches Err(e) ==> e == FrameError::UnknownClientFrame(value),
            r is Ok == (1 <= value <= 4),
    {
        match value {
            1 => Ok(ClientFrameTag::Exec),
            2 => Ok(ClientFrameTag::Cancel),
            3 => Ok(ClientFrameTag::Stdin),
            4 => Ok(ClientFrameTag::StdinEof),
            tag => Err(FrameError::UnknownClientFrame(tag)),
        }
    }
}

impl ServerFrameTag {
    /// Returns the wire tag byte for this server frame tag.
    pub fn as_u8(self) -> (byte: u8)
        ensures
            byte == server_tag_byte(self),
    {
        match self {
            ServerFrameTag::Stdout => 1,
            ServerFrameTag::Stderr => 2,
            ServerFrameTag::Exit => 3,
            ServerFrameTag::Error => 4,
        }
    }

    /// Converts a raw server frame tag byte into its typed representation.
    pub fn try_from(value: u8) -> (r: Result<Self, FrameError>)
        ensures
            r matches Ok(tag) ==> server_tag_byte(tag) == value,
            r matches Err(e) ==> e == FrameError::UnknownServerFrame(value),
            r is Ok == (1 <= value <= 4),
    {
        match value {
            1 => Ok(ServerFrameTag::Stdout),
            2 => Ok(ServerFrameTag::Stderr),
            3 => Ok(ServerFrameTag::Exit),
            4 => Ok(ServerFrameTag::Error),
            tag => Err(FrameError::UnknownServerFrame(tag)),
        }
    }
}

/// One local environment variable forwarded from the client to the server.
#[derive(Debug, PartialEq, Eq)]
pub struct ForwardedEnvVar {
    /// Name of the environment variable to expose to the spawned command.
    pub name: String,
    /// Value copied from the client environment for this variable.
    pub value: String,
}

/// A forwarded environment variable as a pair of texts.
pub struct EnvVarView {
    pub name: Seq<char>,
    pub value: Seq<char>,
}

impl View for ForwardedEnvVar {
    type V = EnvVarView;

    open spec fn view(&self) -> EnvVarView {
        EnvVarView { name: self.name@, value: self.value@ }
    }
}

/// The texts of a list of forwarded variables.
pub open spec fn vars_of(list: Seq<ForwardedEnvVar>) -> Seq<EnvVarView> {
    Seq::new(list.len(), |i: int| list[i]@)
}

/// Binary protocol frames sent from client to server.
#[derive(Debug, PartialEq, Eq)]
pub enum ClientFrame {
    /// Execute a command after websocket upgrade authentication has succeeded.
    Exec {
        /// Program and arguments to run on the server.
        command: Vec<String>,
        /// Local environment variables forwarded from the client.
        forward_env: Vec<ForwardedEnvVar>,
        /// Hostname of the client machine initiating the command.
        client_hostname: String,
        /// Username of the client user initiating the command.
        client_username: String,
        /// Current working directory of the client process initiating the command.
        client_cwd: String,
    },
    /// Request graceful cancellation of the running command.
    Cancel,
    /// A bounded chunk of bytes to write to the running command's stdin.
    Stdin(Vec<u8>),
    /// Signal that no more stdin bytes will be sent for the running command.
    StdinEof,
}

/// A client frame over texts and byte sequences.
pub enum ClientFrameView {
    Exec {
        command: Seq<Seq<char>>,
        forward_env: Seq<EnvVarView>,
        client_hostname: Seq<char>,
        client_username: Seq<char>,
        client_cwd: Seq<char>,
    },
    Cancel,
    Stdin(Seq<u8>),
    StdinEof,
}

impl View for ClientFrame {
    type V = ClientFrameView;

    open spec fn view(&self) -> ClientFrameView {
        match *self {
            ClientFrame::Exec {
                command,
                forward_env,
                client_hostname,
                client_username,
                client_cwd,
            } => ClientFrameView::Exec {
                command: texts_of(command@),
                forward_env: vars_of(forward_env@),
                client_hostname: client_hostname@,
                client_username: client_username@,
                client_cwd: client_cwd@,
            },
            ClientFrame::Cancel => ClientFrameView::Cancel,
            ClientFrame::Stdin(bytes) => ClientFrameView::Stdin(bytes@),
            ClientFrame::StdinEof => ClientFrameView::StdinEof,
        }
    }
}

/// Length-prefixed texts in a row.
pub open spec fn texts_bytes(list: Seq<Seq<char>>) -> Seq<u8>
    decreases list.len(),
{
    if list.len() == 0 {
        Seq::empty()
    } else {
        prefixed_text(list[0]) + texts_bytes(list.skip(1))
    }
}

/// Length-prefixed names and values in a row.
pub open spec fn vars_bytes(list: Seq<EnvVarView>) -> Seq<u8>
    decreases list.len(),
{
    if list.len() == 0 {
        Seq::empty()
    } else {
        prefixed_text(list[0].name) + prefixed_text(list[0].value) + vars_bytes(list.skip(1))
    }
}

/// The wire form of a client frame.
pub open spec fn client_bytes(frame: ClientFrameView) -> Seq<u8> {
    match frame {
        ClientFrameView::Exec {
            command,
            forward_env,
            client_hostname,
            client_username,
            client_cwd,
        } => seq![client_tag_byte(ClientFrameTag::Exec)] + be32(length_field(command.len()))
            + texts_bytes(command) + be32(length_field(forward_env.len())) + vars_bytes(forward_env)
            + prefixed_text(client_hostname) + prefixed_text(client_username) + prefixed_text(
            client_cwd,
        ),
        ClientFrameView::Cancel => seq![client_tag_byte(ClientFrameTag::Cancel)],
        ClientFrameView::Stdin(bytes) => seq![client_tag_byte(ClientFrameTag::Stdin)] + prefixed(
            bytes,
        ),
        ClientFrameView::StdinEof => seq![client_tag_byte(ClientFrameTag::StdinEof)],
    }
}

/// One more text goes to the end of the bytes.
proof fn lemma_texts_bytes_push(list: Seq<Seq<char>>, text: Seq<char>)
    ensures
        texts_bytes(list.push(text)) == texts_bytes(list) + prefixed_text(text),
    decreases list.len(),
{
    let last = prefixed_text(text);
    if list.len() == 0 {
        assert(list.push(text).skip(1) =~= Seq::empty());
        assert(texts_bytes(list.push(text).skip(1)) == Seq::<u8>::empty());
        assert(last + Seq::<u8>::empty() =~= Seq::<u8>::empty() + last);
    } else {
        lemma_texts_bytes_push(list.skip(1), text);
        assert(list.push(text).skip(1) =~= list.skip(1).push(text));
        lemma_concat_assoc(prefixed_text(list[0]), texts_bytes(list.skip(1)), last);
    }
}

/// One more variable goes to the end of the bytes.
proof fn lemma_vars_bytes_push(list: Seq<EnvVarView>, var: EnvVarView)
    ensures
        vars_bytes(list.push(var)) == vars_bytes(list) + (prefixed_text(var.name) + prefixed_text(
            var.value,
        )),
    decreases list.len(),
{
    let last = prefixed_text(var.name) + prefixed_text(var.value);
    if list.len() == 0 {
        assert(list.push(var).skip(1) =~= Seq::empty());
        assert(vars_bytes(list.push(var).skip(1)) == Seq::<u8>::empty());
        assert(last + Seq::<u8>::empty() =~= Seq::<u8>::empty() + last);
    } else {
        lemma_vars_bytes_push(list.skip(1), var);
        assert(list.push(var).skip(1) =~= list.skip(1).push(var));
        lemma_concat_assoc(
            prefixed_text(list[0].name) + prefixed_text(list[0].value),
            vars_bytes(list.skip(1)),
            last,
        );
    }
}

/// Appends a counted list of texts.
fn put_texts(out: &mut Vec<u8>, list: &Vec<String>)
    ensures
        final(out)@ == old(out)@ + be32(length_field(list@.len())) + texts_bytes(texts_of(list@)),
{
    put_u32(out, length_prefix(list.len()));
    let ghost start = out@;
    let mut i: usize = 0;
    assert(texts_of(list@).take(0) =~= Seq::empty());
    while i < list.len()
        invariant
            i <= list@.len(),
            out@ =~= start + texts_bytes(texts_of(list@).take(i as int)),
        decreases list@.len() - i,
    {
        proof {
            lemma_texts_bytes_push(texts_of(list@).take(i as int), list@[i as int]@);
            assert(texts_of(list@).take(i + 1) =~= texts_of(list@).take(i as int).push(
                list@[i as int]@,
            ));
        }
        put_string(out, list[i].as_str());
        i += 1;
    }
    assert(texts_of(list@).take(i as int) =~= texts_of(list@));
}

/// Appends a counted list of variables.
fn put_vars(out: &mut Vec<u8>, list: &Vec<ForwardedEnvVar>)
    ensures
        final(out)@ == old(out)@ + be32(length_field(list@.len())) + vars_bytes(vars_of(list@)),
{
    put_u32(out, length_prefix(list.len()));
    let ghost start = out@;
    let mut i: usize = 0;
    assert(vars_of(list@).take(0) =~= Seq::empty());
    while i < list.len()
        invariant
            i <= list@.len(),
            out@ =~= start + vars_bytes(vars_of(list@).take(i as int)),
        decreases list@.len() - i,
    {
        proof {
            lemma_vars_bytes_push(vars_of(list@).take(i as int), list@[i as int]@);
            assert(vars_of(list@).take(i + 1) =~= vars_of(list@).take(i as int).push(
                list@[i as int]@,
            ));
        }
        put_string(out, list[i].name.as_str());
        put_string(out, list[i].value.as_str());
        i += 1;
    }
    assert(vars_of(list@).take(i as int) =~= vars_of(list@));
}

impl ClientFrame {
    /// Encodes this client protocol frame as binary websocket payload bytes.
    pub fn encode(&self) -> (out: Vec<u8>)
        ensures
            out@ == client_bytes(self@),
    {
        let mut out: Vec<u8> = Vec::new();
        match self {
            ClientFrame::Exec {
                command,
                forward_env,
                client_hostname,
                client_username,
                client_cwd,
            } => {
                put_u8(&mut out, ClientFrameTag::Exec.as_u8());
                put_texts(&mut out, command);
                put_vars(&mut out, forward_env);
                put_string(&mut out, client_hostname.as_str());
                put_string(&mut out, client_username.as_str());
                put_string(&mut out, client_cwd.as_str());
            },
            ClientFrame::Cancel => put_u8(&mut out, ClientFrameTag::Cancel.as_u8()),
            ClientFrame::Stdin(bytes) => {
                put_u8(&mut out, ClientFrameTag::Stdin.as_u8());
                put_bytes(&mut out, bytes.as_slice());
            },
            ClientFrame::StdinEof => put_u8(&mut out, ClientFrameTag::StdinEof.as_u8()),
        }
        assert(out@ =~= client_bytes(self@));
        out
    }
}

/// A refusal at `step`.
pub open spec fn refused(step: DecodeStep, cause: FrameError) -> DecodeError {
    DecodeError { step, cause }
}

/// `value`, where the frame ends here.
pub open spec fn ended<T>(value: T, rest: Seq<u8>, step: DecodeStep) -> Result<T, DecodeError> {
    if rest.len() == 0 {
        Ok(value)
    } else {
        Err(refused(step, FrameError::TrailingBytes))
    }
}

/// `n` texts at the front of `s`, the first being the command argument `index`, and what is left
/// behind them.
pub open spec fn read_arguments(s: Seq<u8>, index: u32, n: nat) -> Result<
    (Seq<Seq<char>>, Seq<u8>),
    DecodeError,
>
    decreases n,
{
    if n == 0 {
        Ok((Seq::empty(), s))
    } else {
        match read_text(s) {
            Err(e) => Err(refused(DecodeStep::ExecCommandArgument(index), e)),
            Ok((text, rest)) => match read_arguments(rest, (index + 1) as u32, (n - 1) as nat) {
                Err(e) => Err(e),
                Ok((texts, end)) => Ok((seq![text] + texts, end)),
            },
        }
    }
}

/// `n` variables at the front of `s`, the first being the forwarded variable `index`, and what is
/// left behind them.
pub open spec fn read_vars(s: Seq<u8>, index: u32, n: nat) -> Result<
    (Seq<EnvVarView>, Seq<u8>),
    DecodeError,
>
    decreases n,
{
    if n == 0 {
        Ok((Seq::empty(), s))
    } else {
        match read_text(s) {
            Err(e) => Err(refused(DecodeStep::ExecEnvName(index), e)),
            Ok((name, after_name)) => match read_text(after_name) {
                Err(e) => Err(refused(DecodeStep::ExecEnvValue(index), e)),
                Ok((value, rest)) => match read_vars(rest, (index + 1) as u32, (n - 1) as nat) {
                    Err(e) => Err(e),
                    Ok((vars, end)) => Ok((seq![EnvVarView { name, value }] + vars, end)),
                },
            },
        }
    }
}

/// A counted list of command arguments at the front of `s`.
pub open spec fn read_command(s: Seq<u8>) -> Result<(Seq<Seq<char>>, Seq<u8>), DecodeError> {
    match read_u32(s) {
        Err(e) => Err(refused(DecodeStep::ExecCommandCount, e)),
        Ok((n, rest)) => read_arguments(rest, 0, n as nat),
    }
}

/// A counted list of forwarded variables at the front of `s`.
pub open spec fn read_forward_env(s: Seq<u8>) -> Result<(Seq<EnvVarView>, Seq<u8>), DecodeError> {
    match read_u32(s) {
        Err(e) => Err(refused(DecodeStep::ExecEnvCount, e)),
        Ok((n, rest)) => read_vars(rest, 0, n as nat),
    }
}

/// A text at the front of `s`, read at `step`.
pub open spec fn read_text_at(s: Seq<u8>, step: DecodeStep) -> Result<
    (Seq<char>, Seq<u8>),
    DecodeError,
> {
    match read_text(s) {
        Err(e) => Err(refused(step, e)),
        Ok((text, rest)) => Ok((text, rest)),
    }
}

/// The exec frame whose bytes behind the tag are `s`.
pub open spec fn exec_decoded(s: Seq<u8>) -> Result<ClientFrameView, DecodeError> {
    match read_command(s) {
        Err(e) => Err(e),
        Ok((command, s1)) => match read_forward_env(s1) {
            Err(e) => Err(e),
            Ok((forward_env, s2)) => match read_text_at(s2, DecodeStep::ExecHostname) {
                Err(e) => Err(e),
                Ok((client_hostname, s3)) => match read_text_at(s3, DecodeStep::ExecUsername) {
                    Err(e) => Err(e),
                    Ok((client_username, s4)) => match read_text_at(s4, DecodeStep::ExecCwd) {
                        Err(e) => Err(e),
                        Ok((client_cwd, s5)) => ended(
                            ClientFrameView::Exec {
                                command,
                                forward_env,
                                client_hostname,
                                client_username,
                                client_cwd,
                            },
                            s5,
                            DecodeStep::ExecEnd,
                        ),
                    },
                },
            },
        },
    }
}

/// What the bytes of a client frame decode to.
pub open spec fn client_decoded(s: Seq<u8>) -> Result<ClientFrameView, DecodeError> {
    match read_u8(s) {
        Err(e) => Err(refused(DecodeStep::ClientTag, e)),
        Ok((tag, rest)) => if tag == client_tag_byte(ClientFrameTag::Exec) {
            exec_decoded(rest)
        } else if tag == client_tag_byte(ClientFrameTag::Cancel) {
            ended(ClientFrameView::Cancel, rest, DecodeStep::CancelEnd)
        } else if tag == client_tag_byte(ClientFrameTag::Stdin) {
            match read_bytes(rest) {
                Err(e) => Err(refused(DecodeStep::StdinBytes, e)),
                Ok((bytes, end)) => ended(
                    ClientFrameView::Stdin(bytes),
                    end,
                    DecodeStep::StdinEnd,
                ),
            }
        } else if tag == client_tag_byte(ClientFrameTag::StdinEof) {
            ended(ClientFrameView::StdinEof, rest, DecodeStep::StdinEofEnd)
        } else {
            Err(refused(DecodeStep::ClientTagValue, FrameError::UnknownClientFrame(tag)))
        },
    }
}

/// Whether an executable result is the one that the model gives.
pub open spec fn same_client_result(
    got: Result<ClientFrame, DecodeError>,
    want: Result<ClientFrameView, DecodeError>,
) -> bool {
    match want {
        Ok(frame) => got is Ok && got->Ok_0@ == frame,
        Err(e) => got == Err::<ClientFrame, DecodeError>(e),
    }
}

/// Reads a text, reporting a failure at `step`.
fn string_at(decoder: &mut Decoder, step: DecodeStep) -> (r: Result<String, DecodeError>)
    ensures
        match read_text_at(old(decoder)@, step) {
            Ok((text, rest)) => r is Ok && r->Ok_0@ == text && final(decoder)@ == rest,
            Err(e) => r == Err::<String, DecodeError>(e),
        },
{
    match decoder.string() {
        Ok(text) => Ok(text),
        Err(cause) => Err(DecodeError { step, cause }),
    }
}

/// Reads the counted command arguments of an exec frame.
fn decode_command(decoder: &mut Decoder) -> (r: Result<Vec<String>, DecodeError>)
    ensures
        match read_command(old(decoder)@) {
            Ok((texts, rest)) => r is Ok && texts_of(r->Ok_0@) == texts && final(decoder)@ == rest,
            Err(e) => r == Err::<Vec<String>, DecodeError>(e),
        },
{
    let len = match decoder.u32() {
        Ok(len) => len,
        Err(cause) => return Err(DecodeError { step: DecodeStep::ExecCommandCount, cause }),
    };
    let ghost start = decoder@;
    let mut command: Vec<String> = Vec::new();
    let mut index: u32 = 0;
    assert(texts_of(command@) =~= Seq::empty());
    assert(read_arguments(start, 0, len as nat) matches Ok((texts, end)) ==> Seq::<
        Seq<char>,
    >::empty() + texts =~= texts);
    while index < len
        invariant
            index <= len,
            match read_arguments(decoder@, index, (len - index) as nat) {
                Ok((texts, end)) => read_arguments(start, 0, len as nat) == Ok::<
                    (Seq<Seq<char>>, Seq<u8>),
                    DecodeError,
                >((texts_of(command@) + texts, end)),
                Err(e) => read_arguments(start, 0, len as nat) == Err::<
                    (Seq<Seq<char>>, Seq<u8>),
                    DecodeError,
                >(e),
            },
            read_command(old(decoder)@) == read_arguments(start, 0, len as nat),
        decreases len - index,
    {
        let ghost before = texts_of(command@);
        let ghost at = decoder@;
        let text = string_at(decoder, DecodeStep::ExecCommandArgument(index))?;
        let ghost added = text@;
        command.push(text);
        proof {
            assert(texts_of(command@) =~= before.push(added));
            if let Ok((texts, end)) = read_arguments(
                decoder@,
                (index + 1) as u32,
                (len - index - 1) as nat,
            ) {
                assert(before + (seq![added] + texts) =~= texts_of(command@) + texts);
            }
        }
        index += 1;
    }
    assert(texts_of(command@) + Seq::<Seq<char>>::empty() =~= texts_of(command@));
    Ok(command)
}

/// Reads the counted forwarded variables of an exec frame.
fn decode_forward_env(decoder: &mut Decoder) -> (r: Result<Vec<ForwardedEnvVar>, DecodeError>)
    ensures
        match read_forward_env(old(decoder)@) {
            Ok((vars, rest)) => r is Ok && vars_of(r->Ok_0@) == vars && final(decoder)@ == rest,
            Err(e) => r == Err::<Vec<ForwardedEnvVar>, DecodeError>(e),
        },
{
    let len = match decoder.u32() {
        Ok(len) => len,
        Err(cause) => return Err(DecodeError { step: DecodeStep::ExecEnvCount, cause }),
    };
    let ghost start = decoder@;
    let mut forward_env: Vec<ForwardedEnvVar> = Vec::new();
    let mut index: u32 = 0;
    assert(vars_of(forward_env@) =~= Seq::empty());
    assert(read_vars(start, 0, len as nat) matches Ok((vars, end)) ==> Seq::<EnvVarView>::empty()
        + vars =~= vars);
    while index < len
        invariant
            index <= len,
            match read_vars(decoder@, index, (len - index) as nat) {
                Ok((vars, end)) => read_vars(start, 0, len as nat) == Ok::<
                    (Seq<EnvVarView>, Seq<u8>),
                    DecodeError,
                >((vars_of(forward_env@) + vars, end)),
                Err(e) => read_vars(start, 0, len as nat) == Err::<
                    (Seq<EnvVarView>, Seq<u8>),
                    DecodeError,
                >(e),
            },
            read_forward_env(old(decoder)@) == read_vars(start, 0, len as nat),
        decreases len - index,
    {
        let ghost before = vars_of(forward_env@);
        let name = string_at(decoder, DecodeStep::ExecEnvName(index))?;
        let value = string_at(decoder, DecodeStep::ExecEnvValue(index))?;
        let var = ForwardedEnvVar { name, value };
        let ghost added = var@;
        forward_env.push(var);
        proof {
            assert(vars_of(forward_env@) =~= before.push(added));
            if let Ok((vars, end)) = read_vars(
                decoder@,
                (index + 1) as u32,
                (len - index - 1) as nat,
            ) {
                assert(before + (seq![added] + vars) =~= vars_of(forward_env@) + vars);
            }
        }
        index += 1;
    }
    assert(vars_of(forward_env@) + Seq::<EnvVarView>::empty() =~= vars_of(forward_env@));
    Ok(forward_env)
}

/// Checks that a frame ends here, reporting a failure at `step`.
fn finish_at(decoder: &Decoder, step: DecodeStep) -> (r: Result<(), DecodeError>)
    ensures
        r == ended((), decoder@, step),
{
    match decoder.finish() {
        Ok(()) => Ok(()),
        Err(cause) => Err(DecodeError { step, cause }),
    }
}

/// Reads an exec frame behind its tag.
fn decode_exec(decoder: &mut Decoder) -> (r: Result<ClientFrame, DecodeError>)
    ensures
        same_client_result(r, exec_decoded(old(decoder)@)),
{
    let command = decode_command(decoder)?;
    let forward_env = decode_forward_env(decoder)?;
    let client_hostname = string_at(decoder, DecodeStep::ExecHostname)?;
    let client_username = string_at(decoder, DecodeStep::ExecUsername)?;
    let client_cwd = string_at(decoder, DecodeStep::ExecCwd)?;
    finish_at(decoder, DecodeStep::ExecEnd)?;
    Ok(
        ClientFrame::Exec {
            command,
            forward_env,
            client_hostname,
            client_username,
            client_cwd,
        },
    )
}

impl ClientFrame {
    /// Decodes a binary websocket payload into a client protocol frame.
    pub fn decode(bytes: &[u8]) -> (r: Result<Self, DecodeError>)
        ensures
            same_client_result(r, client_decoded(bytes@)),
    {
        let mut decoder = Decoder::new(bytes);
        let byte = match decoder.u8() {
            Ok(byte) => byte,
            Err(cause) => return Err(DecodeError { step: DecodeStep::ClientTag, cause }),
        };
        let tag = match ClientFrameTag::try_from(byte) {
            Ok(tag) => tag,
            Err(cause) => return Err(DecodeError { step: DecodeStep::ClientTagValue, cause }),
        };
        match tag {
            ClientFrameTag::Exec => decode_exec(&mut decoder),
            ClientFrameTag::Cancel => {
                finish_at(&decoder, DecodeStep::CancelEnd)?;
                Ok(ClientFrame::Cancel)
            },
            ClientFrameTag::Stdin => {
                let bytes = match decoder.bytes() {
                    Ok(bytes) => vstd::slice::slice_to_vec(bytes),
                    Err(cause) => return Err(
                        DecodeError { step: DecodeStep::StdinBytes, cause },
                    ),
                };
                finish_at(&decoder, DecodeStep::StdinEnd)?;
                Ok(ClientFrame::Stdin(bytes))
            },
            ClientFrameTag::StdinEof => {
                finish_at(&decoder, DecodeStep::StdinEofEnd)?;
                Ok(ClientFrame::StdinEof)
            },
        }
    }
}

/// Server-to-client control frames that are still encoded through structured variants.
#[derive(Debug, PartialEq, Eq)]
pub enum ServerControlFrame {
    /// Final process exit code.
    Exit(i32),
    /// Error that prevented successful execution.
    Error(String),
}

/// Decoded server-to-client frames with borrowed output payloads.
#[derive(Debug, PartialEq, Eq)]
pub enum DecodedServerFrame<'a> {
    /// A borrowed bounded chunk of stdout bytes.
    Stdout(&'a [u8]),
    /// A borrowed bounded chunk of stderr bytes.
    Stderr(&'a [u8]),
    /// Final process exit code.
    Exit(i32),
    /// Error that prevented successful execution.
    Error(String),
}

/// A server frame over texts and byte sequences.
pub enum ServerFrameView {
    Stdout(Seq<u8>),
    Stderr(Seq<u8>),
    Exit(i32),
    Error(Seq<char>),
}

impl View for ServerControlFrame {
    type V = ServerFrameView;

    open spec fn view(&self) -> ServerFrameView {
        match *self {
            ServerControlFrame::Exit(code) => ServerFrameView::Exit(code),
            ServerControlFrame::Error(message) => ServerFrameView::Error(message@),
        }
    }
}

impl<'a> View for DecodedServerFrame<'a> {
    type V = ServerFrameView;

    open spec fn view(&self) -> ServerFrameView {
        match *self {
            DecodedServerFrame::Stdout(bytes) => ServerFrameView::Stdout(bytes@),
            DecodedServerFrame::Stderr(bytes) => ServerFrameView::Stderr(bytes@),
            DecodedServerFrame::Exit(code) => ServerFrameView::Exit(code),
            DecodedServerFrame::Error(message) => ServerFrameView::Error(message@),
        }
    }
}

/// The wire form of a server frame.
pub open spec fn server_bytes(frame: ServerFrameView) -> Seq<u8> {
    match frame {
        ServerFrameView::Stdout(bytes) => seq![server_tag_byte(ServerFrameTag::Stdout)] + prefixed(
            bytes,
        ),
        ServerFrameView::Stderr(bytes) => seq![server_tag_byte(ServerFrameTag::Stderr)] + prefixed(
            bytes,
        ),
        ServerFrameView::Exit(code) => seq![server_tag_byte(ServerFrameTag::Exit)] + be32(
            twos_complement(code),
        ),
        ServerFrameView::Error(message) => seq![server_tag_byte(ServerFrameTag::Error)]
            + prefixed_text(message),
    }
}

/// What the bytes of a server frame decode to.
pub open spec fn server_decoded(s: Seq<u8>) -> Result<ServerFrameView, DecodeError> {
    match read_u8(s) {
        Err(e) => Err(refused(DecodeStep::ServerTag, e)),
        Ok((tag, rest)) => if tag == server_tag_byte(ServerFrameTag::Stdout) {
            match read_bytes(rest) {
                Err(e) => Err(refused(DecodeStep::StdoutBytes, e)),
                Ok((bytes, end)) => ended(
                    ServerFrameView::Stdout(bytes),
                    end,
                    DecodeStep::StdoutEnd,
                ),
            }
        } else if tag == server_tag_byte(ServerFrameTag::Stderr) {
            match read_bytes(rest) {
                Err(e) => Err(refused(DecodeStep::StderrBytes, e)),
                Ok((bytes, end)) => ended(
                    ServerFrameView::Stderr(bytes),
                    end,
                    DecodeStep::StderrEnd,
                ),
            }
        } else if tag == server_tag_byte(ServerFrameTag::Exit) {
            match read_i32(rest) {
                Err(e) => Err(refused(DecodeStep::ExitCode, e)),
                Ok((code, end)) => ended(ServerFrameView::Exit(code), end, DecodeStep::ExitEnd),
            }
        } else if tag == server_tag_byte(ServerFrameTag::Error) {
            match read_text(rest) {
                Err(e) => Err(refused(DecodeStep::ErrorMessage, e)),
                Ok((message, end)) => ended(
                    ServerFrameView::Error(message),
                    end,
                    DecodeStep::ErrorEnd,
                ),
            }
        } else {
            Err(refused(DecodeStep::ServerTagValue, FrameError::UnknownServerFrame(tag)))
        },
    }
}

impl ServerControlFrame {
    /// Encodes this server control frame as binary websocket payload bytes.
    pub fn encode(&self) -> (out: Vec<u8>)
        ensures
            out@ == server_bytes(self@),
    {
        let mut out: Vec<u8> = Vec::new();
        match self {
            ServerControlFrame::Exit(code) => {
                put_u8(&mut out, ServerFrameTag::Exit.as_u8());
                put_i32(&mut out, *code);
            },
            ServerControlFrame::Error(message) => {
                put_u8(&mut out, ServerFrameTag::Error.as_u8());
                put_string(&mut out, message.as_str());
            },
        }
        assert(out@ =~= server_bytes(self@));
        out
    }
}

impl<'a> DecodedServerFrame<'a> {
    /// Decodes a binary websocket payload into a server-to-client protocol frame.
    pub fn decode(bytes: &'a [u8]) -> (r: Result<Self, DecodeError>)
        ensures
            match server_decoded(bytes@) {
                Ok(frame) => r is Ok && r->Ok_0@ == frame,
                Err(e) => r == Err::<Self, DecodeError>(e),
            },
    {
        let mut decoder = Decoder::new(bytes);
        let byte = match decoder.u8() {
            Ok(byte) => byte,
            Err(cause) => return Err(DecodeError { step: DecodeStep::ServerTag, cause }),
        };
        let tag = match ServerFrameTag::try_from(byte) {
            Ok(tag) => tag,
            Err(cause) => return Err(DecodeError { step: DecodeStep::ServerTagValue, cause }),
        };
        match tag {
            ServerFrameTag::Stdout => {
                let bytes = match decoder.bytes() {
                    Ok(bytes) => bytes,
                    Err(cause) => return Err(
                        DecodeError { step: DecodeStep::StdoutBytes, cause },
                    ),
                };
                finish_at(&decoder, DecodeStep::StdoutEnd)?;
                Ok(DecodedServerFrame::Stdout(bytes))
            },
            ServerFrameTag::Stderr => {
                let bytes = match decoder.bytes() {
                    Ok(bytes) => bytes,
                    Err(cause) => return Err(
                        DecodeError { step: DecodeStep::StderrBytes, cause },
                    ),
                };
                finish_at(&decoder, DecodeStep::StderrEnd)?;
                Ok(DecodedServerFrame::Stderr(bytes))
            },
            ServerFrameTag::Exit => {
                let code = match decoder.i32() {
                    Ok(code) => code,
                    Err(cause) => return Err(DecodeError { step: DecodeStep::ExitCode, cause }),
                };
                finish_at(&decoder, DecodeStep::ExitEnd)?;
                Ok(DecodedServerFrame::Exit(code))
            },
            ServerFrameTag::Error => {
                let message = string_at(&mut decoder, DecodeStep::ErrorMessage)?;
                finish_at(&decoder, DecodeStep::ErrorEnd)?;
                Ok(DecodedServerFrame::Error(message))
            },
        }
    }
}

/// The header that stands before `payload_len` bytes of an output frame.
pub open spec fn byte_frame_header(tag: ServerFrameTag, payload_len: u32) -> Seq<u8> {
    seq![server_tag_byte(tag)] + be32(payload_len)
}

/// Writes a stdout byte-frame header into a preallocated output buffer.
pub fn put_stdout_frame_header(out: &mut [u8], payload_len: usize)
    requires
        old(out)@.len() >= BYTE_FRAME_HEADER_SIZE,
        payload_len <= u32::MAX,
    ensures
        final(out)@ == byte_frame_header(ServerFrameTag::Stdout, payload_len as u32) + old(
            out,
        )@.skip(BYTE_FRAME_HEADER_SIZE as int),
{
    put_byte_frame_header(out, ServerFrameTag::Stdout, payload_len);
}

/// Writes a stderr byte-frame header into a preallocated output buffer.
pub fn put_stderr_frame_header(out: &mut [u8], payload_len: usize)
    requires
        old(out)@.len() >= BYTE_FRAME_HEADER_SIZE,
        payload_len <= u32::MAX,
    ensures
        final(out)@ == byte_frame_header(ServerFrameTag::Stderr, payload_len as u32) + old(
            out,
        )@.skip(BYTE_FRAME_HEADER_SIZE as int),
{
    put_byte_frame_header(out, ServerFrameTag::Stderr, payload_len);
}

/// Writes a tagged length-prefixed byte-frame header into an output buffer.
pub fn put_byte_frame_header(out: &mut [u8], tag: ServerFrameTag, payload_len: usize)
    requires
        old(out)@.len() >= BYTE_FRAME_HEADER_SIZE,
        payload_len <= u32::MAX,
    ensures
        final(out)@ == byte_frame_header(tag, payload_len as u32) + old(out)@.skip(
            BYTE_FRAME_HEADER_SIZE as int,
        ),
{
    let n: u32 = payload_len as u32;
    out[0] = tag.as_u8();
    out[1] = (n / 0x100_0000) as u8;
    out[2] = (n / 0x1_0000 % 0x100) as u8;
    out[3] = (n / 0x100 % 0x100) as u8;
    out[4] = (n % 0x100) as u8;
    proof {
        reveal(be32);
    }
    assert(out@ =~= byte_frame_header(tag, payload_len as u32) + old(out)@.skip(
        BYTE_FRAME_HEADER_SIZE as int,
    ));
}

} // verus!
