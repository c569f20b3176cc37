//! The laws of the bytes on the wire: where each value of a frame stands, and which value a refused
//! frame is refused for.

use crate::decode_error::{cause_text, step_text, DecodeError, DecodeStep};
use crate::protocol::{
    client_bytes, client_decoded, read_arguments, read_command, read_vars, server_bytes,
    server_decoded, texts_bytes, vars_bytes, ClientFrameView, EnvVarView, ServerFrameView,
};
use crate::roundtrip::{lemma_be32_value, lemma_read_prefixed_text, text_fits};
use crate::text::decimal;
use crate::wire::{
    be32, be32_value, from_twos_complement, length_field, lemma_concat_assoc, longest_valid_prefix,
    prefixed, prefixed_text, read_text, read_u32, twos_complement, utf8_valid_up_to, FrameError,
};
use vstd::prelude::*;
use vstd::utf8::{encode_utf8, valid_utf8};

verus! {

/// A number takes four bytes, the most significant first.
pub proof fn law_numbers_are_big_endian(n: u32)
    ensures
        be32(n).len() == 4,
        be32(n)[0] * 256 * 256 * 256 + be32(n)[1] * 256 * 256 + be32(n)[2] * 256 + be32(n)[3] == n,
        be32_value(be32(n)) == n,
{
    reveal(be32);
    reveal(be32_value);
}

/// A signed number and its two's complement differ by nothing or by two to the power of 32.
pub proof fn law_signed_numbers_are_twos_complements(n: i32, m: u32)
    ensures
        n >= 0 ==> twos_complement(n) == n,
        n < 0 ==> twos_complement(n) == n + 0x1_0000_0000,
        from_twos_complement(m) == m || from_twos_complement(m) == m - 0x1_0000_0000,
        from_twos_complement(twos_complement(n)) == n,
{
}

/// A length is written as it is where its field can hold it, and otherwise without what the field
/// cannot hold.
pub proof fn law_lengths_are_written(len: nat, more: nat)
    requires
        len <= u32::MAX,
    ensures
        length_field(len) == len,
        length_field((len + more * 0x1_0000_0000) as nat) == len,
{
    assert((len + more * 0x1_0000_0000) % 0x1_0000_0000 == len);
}

/// Bytes stand behind their length.
pub proof fn law_bytes_stand_behind_their_length(bytes: Seq<u8>)
    requires
        bytes.len() <= u32::MAX,
    ensures
        prefixed(bytes) == be32(bytes.len() as u32) + bytes,
{
    assert(length_field(bytes.len()) == bytes.len() as u32);
}

/// A text stands as its UTF-8 bytes behind their number.
pub proof fn law_texts_stand_behind_their_length(text: Seq<char>)
    requires
        encode_utf8(text).len() <= u32::MAX,
    ensures
        prefixed_text(text) == be32(encode_utf8(text).len() as u32) + encode_utf8(text),
{
    law_bytes_stand_behind_their_length(encode_utf8(text));
}

/// Texts stand one behind the other.
pub proof fn law_texts_stand_in_a_row(a: Seq<Seq<char>>, b: Seq<Seq<char>>, text: Seq<char>)
    ensures
        texts_bytes(Seq::empty()).len() == 0,
        texts_bytes(seq![text]) == prefixed_text(text),
        texts_bytes(a + b) == texts_bytes(a) + texts_bytes(b),
    decreases a.len(),
{
    assert(seq![text].skip(1) =~= Seq::empty());
    assert(prefixed_text(text) + Seq::<u8>::empty() =~= prefixed_text(text));
    assert(texts_bytes(seq![text].skip(1)) == Seq::<u8>::empty());
    if a.len() > 0 {
        law_texts_stand_in_a_row(a.skip(1), b, text);
        assert((a + b).skip(1) =~= a.skip(1) + b);
        assert((a + b)[0] == a[0]);
        lemma_concat_assoc(prefixed_text(a[0]), texts_bytes(a.skip(1)), texts_bytes(b));
    } else {
        assert(a + b =~= b);
        assert(texts_bytes(a) + texts_bytes(b) =~= texts_bytes(b));
    }
}

/// Variables stand one behind the other, each as its name and then its value.
pub proof fn law_variables_stand_in_a_row(a: Seq<EnvVarView>, b: Seq<EnvVarView>, var: EnvVarView)
    ensures
        vars_bytes(Seq::empty()).len() == 0,
        vars_bytes(seq![var]) == prefixed_text(var.name) + prefixed_text(var.value),
        vars_bytes(a + b) == vars_bytes(a) + vars_bytes(b),
    decreases a.len(),
{
    assert(seq![var].skip(1) =~= Seq::empty());
    assert(vars_bytes(seq![var].skip(1)) == Seq::<u8>::empty());
    assert(prefixed_text(var.name) + prefixed_text(var.value) + Seq::<u8>::empty()
        =~= prefixed_text(var.name) + prefixed_text(var.value));
    if a.len() > 0 {
        law_variables_stand_in_a_row(a.skip(1), b, var);
        assert((a + b).skip(1) =~= a.skip(1) + b);
        assert((a + b)[0] == a[0]);
        lemma_concat_assoc(
            prefixed_text(a[0].name) + prefixed_text(a[0].value),
            vars_bytes(a.skip(1)),
            vars_bytes(b),
        );
    } else {
        assert(a + b =~= b);
        assert(vars_bytes(a) + vars_bytes(b) =~= vars_bytes(b));
    }
}

/// A client frame is its tag and then its values: a request has the number of its words and the
/// words, the number of its variables and the variables, and then the machine, the user and the
/// directory of the client.
pub proof fn law_client_frames_on_the_wire(
    command: Seq<Seq<char>>,
    forward_env: Seq<EnvVarView>,
    hostname: Seq<char>,
    username: Seq<char>,
    cwd: Seq<char>,
    bytes: Seq<u8>,
)
    requires
        command.len() <= u32::MAX,
        forward_env.len() <= u32::MAX,
    ensures
        client_bytes(
            ClientFrameView::Exec {
                command,
                forward_env,
                client_hostname: hostname,
                client_username: username,
                client_cwd: cwd,
            },
        ) == seq![1u8] + be32(command.len() as u32) + texts_bytes(command) + be32(
            forward_env.len() as u32,
        ) + vars_bytes(forward_env) + prefixed_text(hostname) + prefixed_text(username)
            + prefixed_text(cwd),
        client_bytes(ClientFrameView::Cancel) == seq![2u8],
        client_bytes(ClientFrameView::Stdin(bytes)) == seq![3u8] + prefixed(bytes),
        client_bytes(ClientFrameView::StdinEof) == seq![4u8],
{
    assert(length_field(command.len()) == command.len() as u32);
    assert(length_field(forward_env.len()) == forward_env.len() as u32);
}

/// A server frame is its tag and then its value.
pub proof fn law_server_frames_on_the_wire(bytes: Seq<u8>, code: i32, message: Seq<char>)
    ensures
        server_bytes(ServerFrameView::Stdout(bytes)) == seq![1u8] + prefixed(bytes),
        server_bytes(ServerFrameView::Stderr(bytes)) == seq![2u8] + prefixed(bytes),
        server_bytes(ServerFrameView::Exit(code)) == seq![3u8] + be32(twos_complement(code)),
        server_bytes(ServerFrameView::Error(message)) == seq![4u8] + prefixed_text(message),
{
}

/// A frame without a tag, or with one that no frame has, is refused for it.
pub proof fn law_unknown_tags_are_refused(s: Seq<u8>)
    ensures
        s.len() == 0 ==> client_decoded(s) == Err::<ClientFrameView, DecodeError>(
            DecodeError { step: DecodeStep::ClientTag, cause: FrameError::Truncated },
        ),
        s.len() == 0 ==> server_decoded(s) == Err::<ServerFrameView, DecodeError>(
            DecodeError { step: DecodeStep::ServerTag, cause: FrameError::Truncated },
        ),
        s.len() > 0 && !(1 <= s[0] <= 4) ==> client_decoded(s) == Err::<
            ClientFrameView,
            DecodeError,
        >(
            DecodeError {
                step: DecodeStep::ClientTagValue,
                cause: FrameError::UnknownClientFrame(s[0]),
            },
        ),
        s.len() > 0 && !(1 <= s[0] <= 4) ==> server_decoded(s) == Err::<
            ServerFrameView,
            DecodeError,
        >(
            DecodeError {
                step: DecodeStep::ServerTagValue,
                cause: FrameError::UnknownServerFrame(s[0]),
            },
        ),
{
}

/// Whether a step belongs to the frames with this tag of a client.
pub open spec fn client_step_of(tag: u8, step: DecodeStep) -> bool {
    match step {
        DecodeStep::ExecCommandCount | DecodeStep::ExecEnvCount | DecodeStep::ExecHostname
        | DecodeStep::ExecUsername | DecodeStep::ExecCwd | DecodeStep::ExecEnd => tag == 1,
        DecodeStep::ExecCommandArgument(_) | DecodeStep::ExecEnvName(_)
        | DecodeStep::ExecEnvValue(_) => tag == 1,
        DecodeStep::CancelEnd => tag == 2,
        DecodeStep::StdinBytes | DecodeStep::StdinEnd => tag == 3,
        DecodeStep::StdinEofEnd => tag == 4,
        _ => false,
    }
}

/// Whether a step belongs to the frames with this tag of a server.
pub open spec fn server_step_of(tag: u8, step: DecodeStep) -> bool {
    match step {
        DecodeStep::StdoutBytes | DecodeStep::StdoutEnd => tag == 1,
        DecodeStep::StderrBytes | DecodeStep::StderrEnd => tag == 2,
        DecodeStep::ExitCode | DecodeStep::ExitEnd => tag == 3,
        DecodeStep::ErrorMessage | DecodeStep::ErrorEnd => tag == 4,
        _ => false,
    }
}

/// Whether a step looks for the end of a frame.
pub open spec fn is_end(step: DecodeStep) -> bool {
    match step {
        DecodeStep::ExecEnd | DecodeStep::CancelEnd | DecodeStep::StdinEnd
        | DecodeStep::StdinEofEnd => true,
        DecodeStep::StdoutEnd | DecodeStep::StderrEnd | DecodeStep::ExitEnd
        | DecodeStep::ErrorEnd => true,
        _ => false,
    }
}

/// A refusal among words is about a word.
proof fn lemma_argument_refusals(s: Seq<u8>, index: u32, n: nat)
    ensures
        read_arguments(s, index, n) matches Err(e) ==> e.step is ExecCommandArgument && e.cause
            != FrameError::TrailingBytes,
    decreases n,
{
    if n > 0 {
        if let Ok((_, rest)) = read_text(s) {
            lemma_argument_refusals(rest, (index + 1) as u32, (n - 1) as nat);
        }
    }
}

/// A refusal among variables is about the name or the value of one.
proof fn lemma_var_refusals(s: Seq<u8>, index: u32, n: nat)
    ensures
        read_vars(s, index, n) matches Err(e) ==> (e.step is ExecEnvName
            || e.step is ExecEnvValue) && e.cause != FrameError::TrailingBytes,
    decreases n,
{
    if n > 0 {
        if let Ok((_, after_name)) = read_text(s) {
            if let Ok((_, rest)) = read_text(after_name) {
                lemma_var_refusals(rest, (index + 1) as u32, (n - 1) as nat);
            }
        }
    }
}

/// A frame with a known tag is refused for one of its own values, and for what follows it exactly
/// where its end is looked for.
pub proof fn law_refusals_name_a_value_of_the_frame(s: Seq<u8>)
    requires
        s.len() > 0,
        1 <= s[0] <= 4,
    ensures
        client_decoded(s) matches Err(e) ==> client_step_of(s[0], e.step) && (is_end(e.step)
            <==> e.cause == FrameError::TrailingBytes),
        server_decoded(s) matches Err(e) ==> server_step_of(s[0], e.step) && (is_end(e.step)
            <==> e.cause == FrameError::TrailingBytes),
{
    let rest = s.skip(1);
    if let Ok((n, behind)) = read_u32(rest) {
        lemma_argument_refusals(behind, 0, n as nat);
        if let Ok((_, s1)) = read_command(rest) {
            if let Ok((m, more)) = read_u32(s1) {
                lemma_var_refusals(more, 0, m as nat);
            }
        }
    }
}

/// A word of a request that cannot be read is the one that the refusal names, and the refusal says
/// what is wrong with it.
pub proof fn law_bad_word_is_named(words: Seq<Seq<char>>, count: u32, bad: Seq<u8>)
    requires
        words.len() < count,
        forall|i: int| 0 <= i < words.len() ==> text_fits(#[trigger] words[i]),
        read_text(bad) is Err,
    ensures
        client_decoded(seq![1u8] + (be32(count) + (texts_bytes(words) + bad))) == Err::<
            ClientFrameView,
            DecodeError,
        >(
            DecodeError {
                step: DecodeStep::ExecCommandArgument(words.len() as u32),
                cause: read_text(bad)->Err_0,
            },
        ),
{
    let body = texts_bytes(words) + bad;
    let s = seq![1u8] + (be32(count) + body);
    lemma_be32_value(count, body);
    reveal(be32);
    assert(s.skip(1) =~= be32(count) + body);
    assert((be32(count) + body).skip(4) =~= body);
    lemma_bad_word(words, 0, count as nat, bad);
}

/// The same behind the count.
proof fn lemma_bad_word(words: Seq<Seq<char>>, index: u32, n: nat, bad: Seq<u8>)
    requires
        words.len() < n,
        index + n <= u32::MAX,
        forall|i: int| 0 <= i < words.len() ==> text_fits(#[trigger] words[i]),
        read_text(bad) is Err,
    ensures
        read_arguments(texts_bytes(words) + bad, index, n) == Err::<
            (Seq<Seq<char>>, Seq<u8>),
            DecodeError,
        >(
            DecodeError {
                step: DecodeStep::ExecCommandArgument((index + words.len()) as u32),
                cause: read_text(bad)->Err_0,
            },
        ),
    decreases words.len(),
{
    if words.len() == 0 {
        assert(texts_bytes(words) + bad =~= bad);
    } else {
        let rest = words.skip(1);
        assert forall|i: int| 0 <= i < rest.len() implies text_fits(#[trigger] rest[i]) by {
            assert(rest[i] == words[i + 1]);
        }
        assert(text_fits(words[0]));
        lemma_concat_assoc(prefixed_text(words[0]), texts_bytes(rest), bad);
        lemma_read_prefixed_text(words[0], texts_bytes(rest) + bad);
        lemma_bad_word(rest, (index + 1) as u32, (n - 1) as nat, bad);
    }
}

/// The front of a text that is no UTF-8 is told as far as it is UTF-8, and no less.
pub proof fn law_valid_front_is_the_longest(bytes: Seq<u8>, n: nat)
    ensures
        utf8_valid_up_to(bytes) <= bytes.len(),
        utf8_valid_up_to(bytes) > 0 ==> valid_utf8(bytes.take(utf8_valid_up_to(bytes) as int)),
        utf8_valid_up_to(bytes) < n <= bytes.len() ==> !valid_utf8(bytes.take(n as int)),
{
    lemma_longest(bytes, bytes.len(), n);
}

/// The same up to a limit.
proof fn lemma_longest(bytes: Seq<u8>, limit: nat, n: nat)
    ensures
        longest_valid_prefix(bytes, limit) <= limit,
        longest_valid_prefix(bytes, limit) > 0 ==> valid_utf8(
            bytes.take(longest_valid_prefix(bytes, limit) as int),
        ),
        longest_valid_prefix(bytes, limit) < n <= limit ==> !valid_utf8(bytes.take(n as int)),
    decreases limit,
{
    if limit > 0 && !valid_utf8(bytes.take(limit as int)) {
        lemma_longest(bytes, (limit - 1) as nat, n);
    }
}

/// The frame that a step belongs to, as it is called in its description.
pub open spec fn frame_called(step: DecodeStep) -> Seq<char> {
    match step {
        DecodeStep::CancelEnd => "client cancel"@,
        DecodeStep::StdinBytes | DecodeStep::StdinEnd => "client stdin"@,
        DecodeStep::StdinEofEnd => "client stdin_eof"@,
        DecodeStep::StdoutBytes | DecodeStep::StdoutEnd => "server stdout"@,
        DecodeStep::StderrBytes | DecodeStep::StderrEnd => "server stderr"@,
        DecodeStep::ExitCode | DecodeStep::ExitEnd => "server exit"@,
        DecodeStep::ErrorMessage | DecodeStep::ErrorEnd => "server error"@,
        _ => "client exec"@,
    }
}

/// The value that a step reads, as it is called in its description.
pub open spec fn value_called(step: DecodeStep) -> Seq<char> {
    match step {
        DecodeStep::ExecCommandCount => "command argument count"@,
        DecodeStep::ExecCommandArgument(index) => "command argument "@ + decimal(index as nat),
        DecodeStep::ExecEnvCount => "forwarded env count"@,
        DecodeStep::ExecEnvName(index) => "forwarded env "@ + decimal(index as nat) + " name"@,
        DecodeStep::ExecEnvValue(index) => "forwarded env "@ + decimal(index as nat) + " value"@,
        DecodeStep::ExecHostname => "hostname"@,
        DecodeStep::ExecUsername => "username"@,
        DecodeStep::ExecCwd => "cwd"@,
        DecodeStep::ExitCode => "exit code"@,
        DecodeStep::ErrorMessage => "message"@,
        _ => "bytes"@,
    }
}

/// A step is described by the frame that it belongs to and the value that it reads, and where it
/// looks for the end of the frame, by that; a tag belongs to no frame.
pub proof fn law_steps_are_described(step: DecodeStep)
    ensures
        step == DecodeStep::ClientTag ==> step_text(step) == "reading client frame tag"@,
        step == DecodeStep::ClientTagValue ==> step_text(step) == "decoding client frame tag"@,
        step == DecodeStep::ServerTag ==> step_text(step) == "reading server frame tag"@,
        step == DecodeStep::ServerTagValue ==> step_text(step) == "decoding server frame tag"@,
        is_end(step) ==> step_text(step) == frame_called(step) + ": validating trailing bytes"@,
        !is_end(step) && step != DecodeStep::ClientTag && step != DecodeStep::ClientTagValue && step
            != DecodeStep::ServerTag && step != DecodeStep::ServerTagValue ==> step_text(step)
            == frame_called(step) + ": reading "@ + value_called(step),
{
    reveal_strlit("client exec");
    reveal_strlit("client cancel");
    reveal_strlit("client stdin");
    reveal_strlit("client stdin_eof");
    reveal_strlit("server stdout");
    reveal_strlit("server stderr");
    reveal_strlit("server exit");
    reveal_strlit("server error");
    reveal_strlit(": reading ");
    reveal_strlit(": validating trailing bytes");
    if is_end(step) {
        lemma_end_texts();
    } else {
        lemma_value_texts(step);
    }
}

/// The descriptions of the ends.
proof fn lemma_end_texts()
    ensures
        "client exec"@ + ": validating trailing bytes"@ == "client exec: validating trailing bytes"@,
        "client cancel"@ + ": validating trailing bytes"@
            == "client cancel: validating trailing bytes"@,
        "client stdin"@ + ": validating trailing bytes"@
            == "client stdin: validating trailing bytes"@,
        "client stdin_eof"@ + ": validating trailing bytes"@
            == "client stdin_eof: validating trailing bytes"@,
        "server stdout"@ + ": validating trailing bytes"@
            == "server stdout: validating trailing bytes"@,
        "server stderr"@ + ": validating trailing bytes"@
            == "server stderr: validating trailing bytes"@,
        "server exit"@ + ": validating trailing bytes"@ == "server exit: validating trailing bytes"@,
        "server error"@ + ": validating trailing bytes"@
            == "server error: validating trailing bytes"@,
{
    reveal_strlit("client exec");
    reveal_strlit("client cancel");
    reveal_strlit("client stdin");
    reveal_strlit("client stdin_eof");
    reveal_strlit("server stdout");
    reveal_strlit("server stderr");
    reveal_strlit("server exit");
    reveal_strlit("server error");
    reveal_strlit(": validating trailing bytes");
    reveal_strlit("client exec: validating trailing bytes");
    reveal_strlit("client cancel: validating trailing bytes");
    reveal_strlit("client stdin: validating trailing bytes");
    reveal_strlit("client stdin_eof: validating trailing bytes");
    reveal_strlit("server stdout: validating trailing bytes");
    reveal_strlit("server stderr: validating trailing bytes");
    reveal_strlit("server exit: validating trailing bytes");
    reveal_strlit("server error: validating trailing bytes");
}

/// The descriptions of the values.
proof fn lemma_value_texts(step: DecodeStep)
    requires
        !is_end(step),
    ensures
        step != DecodeStep::ClientTag && step != DecodeStep::ClientTagValue && step
            != DecodeStep::ServerTag && step != DecodeStep::ServerTagValue ==> step_text(step)
            == frame_called(step) + ": reading "@ + value_called(step),
{
    reveal_strlit("client exec");
    reveal_strlit("client stdin");
    reveal_strlit("server stdout");
    reveal_strlit("server stderr");
    reveal_strlit("server exit");
    reveal_strlit("server error");
    reveal_strlit(": reading ");
    reveal_strlit("client exec: reading command argument count");
    reveal_strlit("command argument count");
    reveal_strlit("client exec: reading command argument ");
    reveal_strlit("command argument ");
    reveal_strlit("client exec: reading forwarded env count");
    reveal_strlit("forwarded env count");
    reveal_strlit("client exec: reading forwarded env ");
    reveal_strlit("forwarded env ");
    reveal_strlit("client exec: reading hostname");
    reveal_strlit("hostname");
    reveal_strlit("client exec: reading username");
    reveal_strlit("username");
    reveal_strlit("client exec: reading cwd");
    reveal_strlit("cwd");
    reveal_strlit("client stdin: reading bytes");
    reveal_strlit("server stdout: reading bytes");
    reveal_strlit("server stderr: reading bytes");
    reveal_strlit("bytes");
    reveal_strlit("server exit: reading exit code");
    reveal_strlit("exit code");
    reveal_strlit("server error: reading message");
    reveal_strlit("message");
    match step {
        DecodeStep::ClientTag | DecodeStep::ClientTagValue => {},
        DecodeStep::ServerTag | DecodeStep::ServerTagValue => {},
        _ => {
            assert(step_text(step) =~= frame_called(step) + ": reading "@ + value_called(step));
        },
    }
}

/// What is wrong with a value, in words.
pub proof fn law_causes_are_described(up_to: usize, len: usize, tag: u8)
    ensures
        cause_text(FrameError::Truncated) == "truncated frame"@,
        cause_text(FrameError::TrailingBytes) == "trailing frame bytes"@,
        cause_text(FrameError::UnknownClientFrame(tag)) == "unknown client frame "@ + decimal(
            tag as nat,
        ),
        cause_text(FrameError::UnknownServerFrame(tag)) == "unknown server frame "@ + decimal(
            tag as nat,
        ),
        cause_text(FrameError::InvalidUtf8 { valid_up_to: up_to, error_len: Some(len) })
            == "invalid utf-8 string: invalid utf-8 sequence of "@ + decimal(len as nat)
            + " bytes from index "@ + decimal(up_to as nat),
        cause_text(FrameError::InvalidUtf8 { valid_up_to: up_to, error_len: None })
            == "invalid utf-8 string: incomplete utf-8 byte sequence from index "@ + decimal(
            up_to as nat,
        ),
{
}

} // verus!
