//! The laws of the wire format: encoding and decoding undo each other.

use crate::decode_error::DecodeError;
use crate::protocol::{
    byte_frame_header, client_bytes, client_decoded, client_tag_byte, exec_decoded, read_arguments,
    read_command, read_forward_env, read_vars, server_bytes, server_decoded, server_tag_byte,
    texts_bytes, vars_bytes, ClientFrameTag, ClientFrameView, EnvVarView, ServerFrameTag,
    ServerFrameView,
};
use crate::wire::{
    be32, be32_value, from_twos_complement, lemma_concat_assoc, length_field, prefixed,
    prefixed_text, read_bytes, read_text, twos_complement, FrameError,
};
use vstd::prelude::*;
use vstd::utf8::{
    decode_utf8_encode_utf8, encode_utf8, encode_utf8_decode_utf8, encode_utf8_valid_utf8,
    valid_utf8,
};

verus! {

/// Whether a length field can hold this length.
pub open spec fn length_fits(len: nat) -> bool {
    len <= u32::MAX
}

/// Whether a length field can hold the length of this text.
pub open spec fn text_fits(text: Seq<char>) -> bool {
    length_fits(encode_utf8(text).len())
}

/// Whether length fields can hold every length in this client frame.
pub open spec fn client_frame_fits(frame: ClientFrameView) -> bool {
    match frame {
        ClientFrameView::Exec {
            command,
            forward_env,
            client_hostname,
            client_username,
            client_cwd,
        } => {
            &&& length_fits(command.len())
            &&& forall|i: int| 0 <= i < command.len() ==> text_fits(#[trigger] command[i])
            &&& length_fits(forward_env.len())
            &&& forall|i: int|
                0 <= i < forward_env.len() ==> text_fits((#[trigger] forward_env[i]).name)
                    && text_fits(forward_env[i].value)
            &&& text_fits(client_hostname)
            &&& text_fits(client_username)
            &&& text_fits(client_cwd)
        },
        ClientFrameView::Stdin(bytes) => length_fits(bytes.len()),
        ClientFrameView::Cancel | ClientFrameView::StdinEof => true,
    }
}

/// Whether length fields can hold every length in this server frame.
pub open spec fn server_frame_fits(frame: ServerFrameView) -> bool {
    match frame {
        ServerFrameView::Stdout(bytes) | ServerFrameView::Stderr(bytes) => length_fits(bytes.len()),
        ServerFrameView::Exit(_) => true,
        ServerFrameView::Error(message) => text_fits(message),
    }
}

/// A number is read back from its bytes.
pub proof fn lemma_be32_value(n: u32, rest: Seq<u8>)
    ensures
        be32_value(be32(n) + rest) == n,
        (be32(n) + rest).skip(4) == rest,
        (be32(n) + rest).len() >= 4,
{
    reveal(be32);
    reveal(be32_value);
    let s = be32(n) + rest;
    assert(s[0] == (n / 0x100_0000) as u8);
    assert(s[1] == (n / 0x1_0000 % 0x100) as u8);
    assert(s[2] == (n / 0x100 % 0x100) as u8);
    assert(s[3] == (n % 0x100) as u8);
    assert(s.skip(4) =~= rest);
}

/// Four bytes are the bytes of the number that they hold.
proof fn lemma_be32_of_value(s: Seq<u8>)
    requires
        s.len() >= 4,
    ensures
        be32(be32_value(s)) + s.skip(4) == s,
{
    reveal(be32);
    reveal(be32_value);
    let n = be32_value(s);
    assert(n == s[0] * 0x100_0000 + s[1] * 0x1_0000 + s[2] * 0x100 + s[3]);
    assert(n / 0x100_0000 == s[0]);
    assert(n / 0x1_0000 == s[0] * 0x100 + s[1]);
    assert(n / 0x100 == s[0] * 0x1_0000 + s[1] * 0x100 + s[2]);
    assert(be32(n) + s.skip(4) =~= s);
}

/// Prefixed bytes are read back.
proof fn lemma_read_prefixed(bytes: Seq<u8>, rest: Seq<u8>)
    requires
        length_fits(bytes.len()),
    ensures
        read_bytes(prefixed(bytes) + rest) == Ok::<_, FrameError>((bytes, rest)),
{
    let n = length_field(bytes.len());
    assert(n == bytes.len());
    let s = prefixed(bytes) + rest;
    assert(s =~= be32(n) + (bytes + rest));
    lemma_be32_value(n, bytes + rest);
    assert((bytes + rest).take(bytes.len() as int) =~= bytes);
    assert((bytes + rest).skip(bytes.len() as int) =~= rest);
}

/// Bytes that were read stood there prefixed.
proof fn lemma_prefixed_of_read(s: Seq<u8>)
    ensures
        read_bytes(s) matches Ok((bytes, rest)) ==> length_fits(bytes.len()) && prefixed(bytes)
            + rest == s,
{
    if let Ok((bytes, rest)) = read_bytes(s) {
        let n = be32_value(s);
        lemma_be32_of_value(s);
        let tail = s.skip(4);
        assert(bytes == tail.take(n as int) && rest == tail.skip(n as int));
        assert(bytes + rest =~= tail);
        assert(length_field(bytes.len()) == n);
        assert(prefixed(bytes) + rest =~= be32(n) + (bytes + rest));
    }
}

/// A prefixed text is read back.
pub proof fn lemma_read_prefixed_text(text: Seq<char>, rest: Seq<u8>)
    requires
        text_fits(text),
    ensures
        read_text(prefixed_text(text) + rest) == Ok::<_, FrameError>((text, rest)),
{
    lemma_read_prefixed(encode_utf8(text), rest);
    encode_utf8_valid_utf8(text);
    encode_utf8_decode_utf8(text);
}

/// A text that was read stood there prefixed.
proof fn lemma_prefixed_text_of_read(s: Seq<u8>)
    ensures
        read_text(s) matches Ok((text, rest)) ==> text_fits(text) && prefixed_text(text) + rest
            == s,
{
    lemma_prefixed_of_read(s);
    if let Ok((bytes, rest)) = read_bytes(s) {
        if valid_utf8(bytes) {
            decode_utf8_encode_utf8(bytes);
        }
    }
}

/// Texts in a row are read back.
proof fn lemma_read_arguments(list: Seq<Seq<char>>, index: u32, rest: Seq<u8>)
    requires
        forall|i: int| 0 <= i < list.len() ==> text_fits(#[trigger] list[i]),
    ensures
        read_arguments(texts_bytes(list) + rest, index, list.len()) == Ok::<
            _,
            DecodeError,
        >((list, rest)),
    decreases list.len(),
{
    if list.len() == 0 {
        assert(texts_bytes(list) + rest =~= rest);
        assert(list =~= Seq::empty());
    } else {
        let tail = list.skip(1);
        let behind = texts_bytes(tail) + rest;
        assert(texts_bytes(list) + rest =~= prefixed_text(list[0]) + behind);
        lemma_read_prefixed_text(list[0], behind);
        assert forall|i: int| 0 <= i < tail.len() implies text_fits(#[trigger] tail[i]) by {
            assert(tail[i] == list[i + 1]);
        }
        lemma_read_arguments(tail, (index + 1) as u32, rest);
        assert(seq![list[0]] + tail =~= list);
    }
}

/// Texts that were read stood there in a row.
proof fn lemma_arguments_of_read(s: Seq<u8>, index: u32, n: nat)
    ensures
        read_arguments(s, index, n) matches Ok((list, rest)) ==> {
            &&& list.len() == n
            &&& forall|i: int| 0 <= i < list.len() ==> text_fits(#[trigger] list[i])
            &&& texts_bytes(list) + rest == s
        },
    decreases n,
{
    if n == 0 {
        assert(texts_bytes(Seq::<Seq<char>>::empty()) + s =~= s);
    } else if let Ok((list, rest)) = read_arguments(s, index, n) {
        lemma_prefixed_text_of_read(s);
        let (text, behind) = read_text(s)->Ok_0;
        lemma_arguments_of_read(behind, (index + 1) as u32, (n - 1) as nat);
        let (tail, end) = read_arguments(behind, (index + 1) as u32, (n - 1) as nat)->Ok_0;
        assert(list.skip(1) =~= tail);
        assert(texts_bytes(list) + rest =~= prefixed_text(text) + (texts_bytes(tail) + rest));
        assert forall|i: int| 0 <= i < list.len() implies text_fits(#[trigger] list[i]) by {
            if i > 0 {
                assert(list[i] == tail[i - 1]);
            }
        }
    }
}

/// Variables in a row are read back.
proof fn lemma_read_vars(list: Seq<EnvVarView>, index: u32, rest: Seq<u8>)
    requires
        forall|i: int|
            0 <= i < list.len() ==> text_fits((#[trigger] list[i]).name) && text_fits(
                list[i].value,
            ),
    ensures
        read_vars(vars_bytes(list) + rest, index, list.len()) == Ok::<
            _,
            DecodeError,
        >((list, rest)),
    decreases list.len(),
{
    if list.len() == 0 {
        assert(vars_bytes(list) + rest =~= rest);
        assert(list =~= Seq::empty());
    } else {
        let tail = list.skip(1);
        let behind = vars_bytes(tail) + rest;
        let value_on = prefixed_text(list[0].value) + behind;
        let p = prefixed_text(list[0].name);
        let q = prefixed_text(list[0].value);
        lemma_concat_assoc(p, q, vars_bytes(tail));
        lemma_concat_assoc(p, q + vars_bytes(tail), rest);
        lemma_concat_assoc(q, vars_bytes(tail), rest);
        lemma_read_prefixed_text(list[0].name, value_on);
        lemma_read_prefixed_text(list[0].value, behind);
        assert forall|i: int| 0 <= i < tail.len() implies text_fits((#[trigger] tail[i]).name)
            && text_fits(tail[i].value) by {
            assert(tail[i] == list[i + 1]);
        }
        lemma_read_vars(tail, (index + 1) as u32, rest);
        assert(seq![list[0]] + tail =~= list);
    }
}

/// Variables that were read stood there in a row.
proof fn lemma_vars_of_read(s: Seq<u8>, index: u32, n: nat)
    ensures
        read_vars(s, index, n) matches Ok((list, rest)) ==> {
            &&& list.len() == n
            &&& forall|i: int|
                0 <= i < list.len() ==> text_fits((#[trigger] list[i]).name) && text_fits(
                    list[i].value,
                )
            &&& vars_bytes(list) + rest == s
        },
    decreases n,
{
    if n == 0 {
        assert(vars_bytes(Seq::<EnvVarView>::empty()) + s =~= s);
    } else if let Ok((list, rest)) = read_vars(s, index, n) {
        lemma_prefixed_text_of_read(s);
        let (name, after_name) = read_text(s)->Ok_0;
        lemma_prefixed_text_of_read(after_name);
        let (value, behind) = read_text(after_name)->Ok_0;
        lemma_vars_of_read(behind, (index + 1) as u32, (n - 1) as nat);
        let (tail, end) = read_vars(behind, (index + 1) as u32, (n - 1) as nat)->Ok_0;
        assert(list.skip(1) =~= tail);
        let p = prefixed_text(name);
        let q = prefixed_text(value);
        lemma_concat_assoc(p, q, vars_bytes(tail));
        lemma_concat_assoc(p, q + vars_bytes(tail), rest);
        lemma_concat_assoc(q, vars_bytes(tail), rest);
        assert(list[0] == EnvVarView { name, value });
        assert forall|i: int| 0 <= i < list.len() implies text_fits((#[trigger] list[i]).name)
            && text_fits(list[i].value) by {
            if i > 0 {
                assert(list[i] == tail[i - 1]);
            }
        }
    }
}

/// The parts of an exec frame can be put together from either end.
proof fn lemma_concat_exec(
    t: Seq<u8>,
    n: Seq<u8>,
    c: Seq<u8>,
    m: Seq<u8>,
    v: Seq<u8>,
    h: Seq<u8>,
    u: Seq<u8>,
    w: Seq<u8>,
)
    ensures
        t + n + c + m + v + h + u + w == t + (n + (c + (m + (v + (h + (u + w)))))),
{
    lemma_concat_assoc(t + n + c + m + v + h, u, w);
    lemma_concat_assoc(t + n + c + m + v, h, u + w);
    lemma_concat_assoc(t + n + c + m, v, h + (u + w));
    lemma_concat_assoc(t + n + c, m, v + (h + (u + w)));
    lemma_concat_assoc(t + n, c, m + (v + (h + (u + w))));
    lemma_concat_assoc(t, n, c + (m + (v + (h + (u + w)))));
}

/// A sequence behind one byte.
proof fn lemma_skip_tag(tag: u8, rest: Seq<u8>)
    ensures
        (seq![tag] + rest).skip(1) == rest,
        (seq![tag] + rest)[0] == tag,
{
    assert((seq![tag] + rest).skip(1) =~= rest);
}

/// Nothing follows at the end.
proof fn lemma_concat_nothing(s: Seq<u8>)
    ensures
        s + Seq::<u8>::empty() == s,
{
    assert(s + Seq::<u8>::empty() =~= s);
}

/// A counted command is read back.
proof fn lemma_read_command(command: Seq<Seq<char>>, rest: Seq<u8>)
    requires
        length_fits(command.len()),
        forall|i: int| 0 <= i < command.len() ==> text_fits(#[trigger] command[i]),
    ensures
        read_command(be32(length_field(command.len())) + (texts_bytes(command) + rest)) == Ok::<
            _,
            DecodeError,
        >((command, rest)),
{
    lemma_be32_value(length_field(command.len()), texts_bytes(command) + rest);
    lemma_read_arguments(command, 0, rest);
}

/// A counted list of variables is read back.
proof fn lemma_read_forward_env(forward_env: Seq<EnvVarView>, rest: Seq<u8>)
    requires
        length_fits(forward_env.len()),
        forall|i: int|
            0 <= i < forward_env.len() ==> text_fits((#[trigger] forward_env[i]).name)
                && text_fits(forward_env[i].value),
    ensures
        read_forward_env(be32(length_field(forward_env.len())) + (vars_bytes(forward_env) + rest))
            == Ok::<_, DecodeError>((forward_env, rest)),
{
    lemma_be32_value(length_field(forward_env.len()), vars_bytes(forward_env) + rest);
    lemma_read_vars(forward_env, 0, rest);
}

/// A command that was read stood there counted.
proof fn lemma_command_of_read(s: Seq<u8>)
    ensures
        read_command(s) matches Ok((command, rest)) ==> {
            &&& length_fits(command.len())
            &&& forall|i: int| 0 <= i < command.len() ==> text_fits(#[trigger] command[i])
            &&& be32(length_field(command.len())) + (texts_bytes(command) + rest) == s
        },
{
    if let Ok((command, rest)) = read_command(s) {
        lemma_be32_of_value(s);
        lemma_arguments_of_read(s.skip(4), 0, be32_value(s) as nat);
    }
}

/// A list of variables that was read stood there counted.
proof fn lemma_forward_env_of_read(s: Seq<u8>)
    ensures
        read_forward_env(s) matches Ok((forward_env, rest)) ==> {
            &&& length_fits(forward_env.len())
            &&& forall|i: int|
                0 <= i < forward_env.len() ==> text_fits((#[trigger] forward_env[i]).name)
                    && text_fits(forward_env[i].value)
            &&& be32(length_field(forward_env.len())) + (vars_bytes(forward_env) + rest) == s
        },
{
    if let Ok((forward_env, rest)) = read_forward_env(s) {
        lemma_be32_of_value(s);
        lemma_vars_of_read(s.skip(4), 0, be32_value(s) as nat);
    }
}

/// An exec frame survives encoding and decoding.
proof fn lemma_exec_round_trip(frame: ClientFrameView)
    requires
        client_frame_fits(frame),
        frame is Exec,
    ensures
        client_decoded(client_bytes(frame)) == Ok::<_, DecodeError>(frame),
{
    if let ClientFrameView::Exec {
        command,
        forward_env,
        client_hostname,
        client_username,
        client_cwd,
    } = frame {
        let s4 = prefixed_text(client_cwd);
        let s3 = prefixed_text(client_username) + s4;
        let s2 = prefixed_text(client_hostname) + s3;
        let s1 = be32(length_field(forward_env.len())) + (vars_bytes(forward_env) + s2);
        let s0 = be32(length_field(command.len())) + (texts_bytes(command) + s1);
        let tag = client_tag_byte(ClientFrameTag::Exec);
        lemma_concat_exec(
            seq![tag],
            be32(length_field(command.len())),
            texts_bytes(command),
            be32(length_field(forward_env.len())),
            vars_bytes(forward_env),
            prefixed_text(client_hostname),
            prefixed_text(client_username),
            s4,
        );
        lemma_skip_tag(tag, s0);
        lemma_read_command(command, s1);
        lemma_read_forward_env(forward_env, s2);
        lemma_read_prefixed_text(client_hostname, s3);
        lemma_read_prefixed_text(client_username, s4);
        lemma_concat_nothing(s4);
        lemma_read_prefixed_text(client_cwd, Seq::empty());
    }
}

/// An exec frame that was decoded was encoded that way.
proof fn lemma_exec_is_canonical(s: Seq<u8>)
    ensures
        exec_decoded(s) matches Ok(frame) ==> client_frame_fits(frame) && client_bytes(frame)
            == seq![client_tag_byte(ClientFrameTag::Exec)] + s,
{
    if let Ok(frame) = exec_decoded(s) {
        let (command, s1) = read_command(s)->Ok_0;
        let (forward_env, s2) = read_forward_env(s1)->Ok_0;
        let (client_hostname, s3) = read_text(s2)->Ok_0;
        let (client_username, s4) = read_text(s3)->Ok_0;
        let (client_cwd, s5) = read_text(s4)->Ok_0;
        lemma_command_of_read(s);
        lemma_forward_env_of_read(s1);
        lemma_prefixed_text_of_read(s2);
        lemma_prefixed_text_of_read(s3);
        lemma_prefixed_text_of_read(s4);
        assert(s5 =~= Seq::empty());
        lemma_concat_nothing(prefixed_text(client_cwd));
        lemma_concat_exec(
            seq![client_tag_byte(ClientFrameTag::Exec)],
            be32(length_field(command.len())),
            texts_bytes(command),
            be32(length_field(forward_env.len())),
            vars_bytes(forward_env),
            prefixed_text(client_hostname),
            prefixed_text(client_username),
            prefixed_text(client_cwd),
        );
    }
}

/// A client frame survives encoding and decoding, wherever its lengths fit their fields.
pub proof fn law_client_frame_round_trip(frame: ClientFrameView)
    requires
        client_frame_fits(frame),
    ensures
        client_decoded(client_bytes(frame)) == Ok::<_, DecodeError>(frame),
{
    let s = client_bytes(frame);
    match frame {
        ClientFrameView::Exec { .. } => {
            lemma_exec_round_trip(frame);
        },
        ClientFrameView::Stdin(bytes) => {
            lemma_skip_tag(s[0], prefixed(bytes));
            lemma_concat_nothing(prefixed(bytes));
            lemma_read_prefixed(bytes, Seq::empty());
        },
        ClientFrameView::Cancel => {},
        ClientFrameView::StdinEof => {},
    }
}

/// Bytes that decode to a client frame are that frame's encoding: no frame has two wire forms.
pub proof fn law_client_frame_is_canonical(s: Seq<u8>)
    ensures
        client_decoded(s) matches Ok(frame) ==> client_frame_fits(frame) && client_bytes(frame)
            == s,
{
    if let Ok(frame) = client_decoded(s) {
        let rest = s.skip(1);
        assert(s =~= seq![s[0]] + rest);
        match frame {
            ClientFrameView::Exec { .. } => {
                lemma_exec_is_canonical(rest);
            },
            ClientFrameView::Stdin(bytes) => {
                lemma_prefixed_of_read(rest);
                assert(read_bytes(rest)->Ok_0.1 =~= Seq::empty());
                lemma_concat_nothing(prefixed(bytes));
            },
            ClientFrameView::Cancel => {
                assert(client_bytes(frame) =~= s);
            },
            ClientFrameView::StdinEof => {
                assert(client_bytes(frame) =~= s);
            },
        }
    }
}

/// Two client frames whose lengths fit their fields differ on the wire.
pub proof fn law_client_frames_differ_on_the_wire(a: ClientFrameView, b: ClientFrameView)
    requires
        client_frame_fits(a),
        client_frame_fits(b),
        a != b,
    ensures
        client_bytes(a) != client_bytes(b),
{
    law_client_frame_round_trip(a);
    law_client_frame_round_trip(b);
}

/// A signed number survives its two's complement, in either direction.
proof fn lemma_twos_complement(n: i32, m: u32)
    ensures
        from_twos_complement(twos_complement(n)) == n,
        twos_complement(from_twos_complement(m)) == m,
{
}

/// A server frame survives encoding and decoding, wherever its lengths fit their fields.
pub proof fn law_server_frame_round_trip(frame: ServerFrameView)
    requires
        server_frame_fits(frame),
    ensures
        server_decoded(server_bytes(frame)) == Ok::<_, DecodeError>(frame),
{
    let s = server_bytes(frame);
    match frame {
        ServerFrameView::Stdout(bytes) => {
            lemma_skip_tag(s[0], prefixed(bytes));
            lemma_concat_nothing(prefixed(bytes));
            lemma_read_prefixed(bytes, Seq::empty());
        },
        ServerFrameView::Stderr(bytes) => {
            lemma_skip_tag(s[0], prefixed(bytes));
            lemma_concat_nothing(prefixed(bytes));
            lemma_read_prefixed(bytes, Seq::empty());
        },
        ServerFrameView::Exit(code) => {
            assert(s.skip(1) =~= be32(twos_complement(code)) + Seq::<u8>::empty());
            lemma_be32_value(twos_complement(code), Seq::empty());
            lemma_twos_complement(code, 0);
        },
        ServerFrameView::Error(message) => {
            assert(s.skip(1) =~= prefixed_text(message) + Seq::<u8>::empty());
            lemma_read_prefixed_text(message, Seq::empty());
        },
    }
}

/// Bytes that decode to a server frame are that frame's encoding: no frame has two wire forms.
pub proof fn law_server_frame_is_canonical(s: Seq<u8>)
    ensures
        server_decoded(s) matches Ok(frame) ==> server_frame_fits(frame) && server_bytes(frame)
            == s,
{
    if let Ok(frame) = server_decoded(s) {
        let rest = s.skip(1);
        assert(s =~= seq![s[0]] + rest);
        match frame {
            ServerFrameView::Stdout(bytes) => {
                lemma_prefixed_of_read(rest);
                assert(read_bytes(rest)->Ok_0.1 =~= Seq::empty());
            },
            ServerFrameView::Stderr(bytes) => {
                lemma_prefixed_of_read(rest);
                assert(read_bytes(rest)->Ok_0.1 =~= Seq::empty());
            },
            ServerFrameView::Exit(code) => {
                lemma_be32_of_value(rest);
                lemma_twos_complement(0, be32_value(rest));
                assert(rest.skip(4) =~= Seq::empty());
            },
            ServerFrameView::Error(message) => {
                lemma_prefixed_text_of_read(rest);
                assert(read_text(rest)->Ok_0.1 =~= Seq::empty());
            },
        }
        assert(server_bytes(frame) =~= s);
    }
}

/// Two server frames whose lengths fit their fields differ on the wire.
pub proof fn law_server_frames_differ_on_the_wire(a: ServerFrameView, b: ServerFrameView)
    requires
        server_frame_fits(a),
        server_frame_fits(b),
        a != b,
    ensures
        server_bytes(a) != server_bytes(b),
{
    law_server_frame_round_trip(a);
    law_server_frame_round_trip(b);
}

/// A header followed by as many bytes as it announces is an output frame with that payload.
pub proof fn law_header_and_payload_decode(stderr: bool, payload: Seq<u8>)
    requires
        length_fits(payload.len()),
    ensures
        server_decoded(
            byte_frame_header(
                if stderr {
                    ServerFrameTag::Stderr
                } else {
                    ServerFrameTag::Stdout
                },
                payload.len() as u32,
            ) + payload,
        ) == Ok::<_, DecodeError>(
            if stderr {
                ServerFrameView::Stderr(payload)
            } else {
                ServerFrameView::Stdout(payload)
            },
        ),
{
    let frame = if stderr {
        ServerFrameView::Stderr(payload)
    } else {
        ServerFrameView::Stdout(payload)
    };
    let tag = if stderr {
        ServerFrameTag::Stderr
    } else {
        ServerFrameTag::Stdout
    };
    law_server_frame_round_trip(frame);
    assert(length_field(payload.len()) == payload.len() as u32);
    lemma_concat_assoc(seq![server_tag_byte(tag)], be32(payload.len() as u32), payload);
}

} // verus!
