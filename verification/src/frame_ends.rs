//! The laws of where a frame ends: nothing may be missing from it, and nothing may follow it.

use crate::decode_error::DecodeError;
use crate::protocol::{
    client_decoded, exec_decoded, read_arguments, read_command, read_forward_env, read_vars,
    server_decoded,
};
use crate::wire::{be32_value, read_bytes, read_text, read_u32, FrameError};
use vstd::prelude::*;

verus! {

/// The front of a longer sequence, and what is behind it.
proof fn lemma_front(s: Seq<u8>, x: Seq<u8>, n: int)
    requires
        0 <= n <= s.len(),
    ensures
        (s + x).take(n) == s.take(n),
        (s + x).skip(n) == s.skip(n) + x,
{
    assert((s + x).take(n) =~= s.take(n));
    assert((s + x).skip(n) =~= s.skip(n) + x);
}

/// A number is read the same, whatever follows.
proof fn lemma_more_after_u32(s: Seq<u8>, x: Seq<u8>)
    ensures
        match read_u32(s) {
            Ok((n, rest)) => read_u32(s + x) == Ok::<_, FrameError>((n, rest + x)),
            Err(e) => e == FrameError::Truncated,
        },
{
    if s.len() >= 4 {
        reveal(be32_value);
        lemma_front(s, x, 4);
    }
}

/// Bytes are read the same, whatever follows.
proof fn lemma_more_after_bytes(s: Seq<u8>, x: Seq<u8>)
    ensures
        match read_bytes(s) {
            Ok((bytes, rest)) => read_bytes(s + x) == Ok::<_, FrameError>((bytes, rest + x)),
            Err(e) => e == FrameError::Truncated,
        },
{
    lemma_more_after_u32(s, x);
    if let Ok((n, rest)) = read_u32(s) {
        if n <= rest.len() {
            lemma_front(rest, x, n as int);
        }
    }
}

/// A text is read, or refused, the same, whatever follows, unless it is cut.
proof fn lemma_more_after_text(s: Seq<u8>, x: Seq<u8>)
    ensures
        match read_text(s) {
            Ok((text, rest)) => read_text(s + x) == Ok::<_, FrameError>((text, rest + x)),
            Err(e) => e != FrameError::Truncated ==> read_text(s + x) == read_text(s),
        },
{
    lemma_more_after_bytes(s, x);
}

/// The same of texts in a row.
proof fn lemma_more_after_arguments(s: Seq<u8>, x: Seq<u8>, index: u32, n: nat)
    ensures
        match read_arguments(s, index, n) {
            Ok((list, rest)) => read_arguments(s + x, index, n) == Ok::<_, DecodeError>(
                (list, rest + x),
            ),
            Err(e) => e.cause != FrameError::Truncated ==> read_arguments(s + x, index, n)
                == read_arguments(s, index, n),
        },
    decreases n,
{
    if n > 0 {
        lemma_more_after_text(s, x);
        if let Ok((_, rest)) = read_text(s) {
            lemma_more_after_arguments(rest, x, (index + 1) as u32, (n - 1) as nat);
        }
    }
}

/// The same of variables in a row.
proof fn lemma_more_after_vars(s: Seq<u8>, x: Seq<u8>, index: u32, n: nat)
    ensures
        match read_vars(s, index, n) {
            Ok((list, rest)) => read_vars(s + x, index, n) == Ok::<_, DecodeError>(
                (list, rest + x),
            ),
            Err(e) => e.cause != FrameError::Truncated ==> read_vars(s + x, index, n)
                == read_vars(s, index, n),
        },
    decreases n,
{
    if n > 0 {
        lemma_more_after_text(s, x);
        if let Ok((_, after_name)) = read_text(s) {
            lemma_more_after_text(after_name, x);
            if let Ok((_, rest)) = read_text(after_name) {
                lemma_more_after_vars(rest, x, (index + 1) as u32, (n - 1) as nat);
            }
        }
    }
}

/// The same of a counted command.
proof fn lemma_more_after_command(s: Seq<u8>, x: Seq<u8>)
    ensures
        match read_command(s) {
            Ok((list, rest)) => read_command(s + x) == Ok::<_, DecodeError>((list, rest + x)),
            Err(e) => e.cause != FrameError::Truncated ==> read_command(s + x) == read_command(s),
        },
{
    lemma_more_after_u32(s, x);
    if let Ok((n, rest)) = read_u32(s) {
        lemma_more_after_arguments(rest, x, 0, n as nat);
    }
}

/// The same of a counted list of variables.
proof fn lemma_more_after_forward_env(s: Seq<u8>, x: Seq<u8>)
    ensures
        match read_forward_env(s) {
            Ok((list, rest)) => read_forward_env(s + x) == Ok::<_, DecodeError>((list, rest + x)),
            Err(e) => e.cause != FrameError::Truncated ==> read_forward_env(s + x)
                == read_forward_env(s),
        },
{
    lemma_more_after_u32(s, x);
    if let Ok((n, rest)) = read_u32(s) {
        lemma_more_after_vars(rest, x, 0, n as nat);
    }
}

/// What more bytes make of a decoded frame: a whole frame turns into one with trailing bytes, and a
/// refusal stays, unless it was for want of bytes.
spec fn more_makes<T>(before: Result<T, DecodeError>, after: Result<T, DecodeError>) -> bool {
    match before {
        Ok(_) => after matches Err(e) && e.cause == FrameError::TrailingBytes,
        Err(e) => e.cause != FrameError::Truncated ==> after == Err::<T, DecodeError>(e),
    }
}

/// The same of the bytes of an exec frame behind its tag.
proof fn lemma_more_after_exec(s: Seq<u8>, x: Seq<u8>)
    requires
        x.len() > 0,
    ensures
        more_makes(exec_decoded(s), exec_decoded(s + x)),
{
    lemma_more_after_command(s, x);
    if let Ok((_, s1)) = read_command(s) {
        lemma_more_after_forward_env(s1, x);
        if let Ok((_, s2)) = read_forward_env(s1) {
            lemma_more_after_text(s2, x);
            if let Ok((_, s3)) = read_text(s2) {
                lemma_more_after_text(s3, x);
                if let Ok((_, s4)) = read_text(s3) {
                    lemma_more_after_text(s4, x);
                }
            }
        }
    }
}

/// The same of a client frame.
proof fn lemma_more_after_client_frame(s: Seq<u8>, x: Seq<u8>)
    requires
        x.len() > 0,
    ensures
        more_makes(client_decoded(s), client_decoded(s + x)),
{
    if s.len() > 0 {
        lemma_front(s, x, 1);
        assert((s + x)[0] == s[0]);
        lemma_more_after_exec(s.skip(1), x);
        lemma_more_after_bytes(s.skip(1), x);
    }
}

/// The same of a server frame.
proof fn lemma_more_after_server_frame(s: Seq<u8>, x: Seq<u8>)
    requires
        x.len() > 0,
    ensures
        more_makes(server_decoded(s), server_decoded(s + x)),
{
    if s.len() > 0 {
        lemma_front(s, x, 1);
        assert((s + x)[0] == s[0]);
        lemma_more_after_bytes(s.skip(1), x);
        lemma_more_after_text(s.skip(1), x);
        lemma_more_after_u32(s.skip(1), x);
    }
}

/// A client frame that something follows is refused for its trailing bytes.
pub proof fn law_lengthened_client_frame_has_trailing_bytes(s: Seq<u8>, more: Seq<u8>)
    requires
        client_decoded(s) is Ok,
        more.len() > 0,
    ensures
        client_decoded(s + more) matches Err(e) && e.cause == FrameError::TrailingBytes,
{
    lemma_more_after_client_frame(s, more);
}

/// A client frame that is cut anywhere is refused as truncated.
pub proof fn law_cut_client_frame_is_truncated(s: Seq<u8>, n: int)
    requires
        client_decoded(s) is Ok,
        0 <= n < s.len(),
    ensures
        client_decoded(s.take(n)) matches Err(e) && e.cause == FrameError::Truncated,
{
    assert(s.take(n) + s.skip(n) =~= s);
    lemma_more_after_client_frame(s.take(n), s.skip(n));
}

/// A server frame that something follows is refused for its trailing bytes.
pub proof fn law_lengthened_server_frame_has_trailing_bytes(s: Seq<u8>, more: Seq<u8>)
    requires
        server_decoded(s) is Ok,
        more.len() > 0,
    ensures
        server_decoded(s + more) matches Err(e) && e.cause == FrameError::TrailingBytes,
{
    lemma_more_after_server_frame(s, more);
}

/// A server frame that is cut anywhere is refused as truncated.
pub proof fn law_cut_server_frame_is_truncated(s: Seq<u8>, n: int)
    requires
        server_decoded(s) is Ok,
        0 <= n < s.len(),
    ensures
        server_decoded(s.take(n)) matches Err(e) && e.cause == FrameError::Truncated,
{
    assert(s.take(n) + s.skip(n) =~= s);
    lemma_more_after_server_frame(s.take(n), s.skip(n));
}

} // verus!
