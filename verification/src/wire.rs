//! Byte-level encoding: big-endian integers, length-prefixed byte strings and texts, and the
//! cursor that reads them back.

use bytes::{Buf, BufMut};
use vstd::prelude::*;
use vstd::utf8::{decode_utf8, encode_utf8, valid_utf8};

verus! {

/// What makes the bytes of a frame unreadable.
#[derive(Clone, Copy, Debug, PartialEq, Eq, Structural)]
pub enum FrameError {
    /// The frame ends before the value that should be read from it.
    Truncated,
    /// The frame goes on after its last value.
    TrailingBytes,
    /// A text is not UTF-8: its first `valid_up_to` bytes are, and the next `error_len` bytes are
    /// not, or the text ends within a character.
    InvalidUtf8 { valid_up_to: usize, error_len: Option<usize> },
    /// The tag byte names no client frame.
    UnknownClientFrame(u8),
    /// The tag byte names no server frame.
    UnknownServerFrame(u8),
}

/// The four bytes of `n`, the most significant first.
#[verifier::opaque]
pub open spec fn be32(n: u32) -> Seq<u8> {
    seq![
        (n / 0x100_0000) as u8,
        (n / 0x1_0000 % 0x100) as u8,
        (n / 0x100 % 0x100) as u8,
        (n % 0x100) as u8,
    ]
}

/// The number whose big-endian bytes are the first four of `bytes`.
#[verifier::opaque]
pub open spec fn be32_value(bytes: Seq<u8>) -> u32 {
    (bytes[0] * 0x100_0000 + bytes[1] * 0x1_0000 + bytes[2] * 0x100 + bytes[3]) as u32
}

/// The two's complement of `n` as an unsigned number.
pub open spec fn twos_complement(n: i32) -> u32 {
    if n >= 0 {
        n as u32
    } else {
        (n + 0x1_0000_0000) as u32
    }
}

/// The signed number whose two's complement is `n`.
pub open spec fn from_twos_complement(n: u32) -> i32 {
    if n <= i32::MAX {
        n as i32
    } else {
        (n - 0x1_0000_0000) as i32
    }
}

/// The length field written for `len` bytes or items: its last 32 bits.
pub open spec fn length_field(len: nat) -> u32 {
    (len % 0x1_0000_0000) as u32
}

/// `bytes` behind their length.
pub open spec fn prefixed(bytes: Seq<u8>) -> Seq<u8> {
    be32(length_field(bytes.len())) + bytes
}

/// The UTF-8 bytes of `text` behind their length.
pub open spec fn prefixed_text(text: Seq<char>) -> Seq<u8> {
    prefixed(encode_utf8(text))
}

/// Names how many bytes `String::from_utf8` reports as the invalid sequence in `bytes`.
pub uninterp spec fn utf8_error_len(bytes: Seq<u8>) -> Option<usize>;

/// How far `bytes` are UTF-8: the length of the longest prefix that is.
pub open spec fn utf8_valid_up_to(bytes: Seq<u8>) -> nat {
    longest_valid_prefix(bytes, bytes.len())
}

/// The length of the longest valid prefix of `bytes` that is no longer than `limit`.
pub open spec fn longest_valid_prefix(bytes: Seq<u8>, limit: nat) -> nat
    decreases limit,
{
    if limit == 0 || valid_utf8(bytes.take(limit as int)) {
        limit
    } else {
        longest_valid_prefix(bytes, (limit - 1) as nat)
    }
}

/// The error that a text of these bytes meets.
pub open spec fn utf8_error(bytes: Seq<u8>) -> FrameError {
    FrameError::InvalidUtf8 {
        valid_up_to: utf8_valid_up_to(bytes) as usize,
        error_len: utf8_error_len(bytes),
    }
}

/// Appends one byte: `bytes::BufMut::put_u8` on a `Vec<u8>` appends exactly that byte.
#[verifier::external_body]
pub(crate) fn put_u8(out: &mut Vec<u8>, n: u8)
    ensures
        final(out)@ == old(out)@.push(n),
{
    out.put_u8(n)
}

/// Appends a number: `bytes::BufMut::put_u32` on a `Vec<u8>` appends its four bytes, the most
/// significant first.
#[verifier::external_body]
pub(crate) fn put_u32(out: &mut Vec<u8>, n: u32)
    ensures
        final(out)@ == old(out)@ + be32(n),
{
    out.put_u32(n)
}

/// Appends a signed number: `bytes::BufMut::put_i32` on a `Vec<u8>` appends the four bytes of its
/// two's complement, the most significant first.
#[verifier::external_body]
pub(crate) fn put_i32(out: &mut Vec<u8>, n: i32)
    ensures
        final(out)@ == old(out)@ + be32(twos_complement(n)),
{
    out.put_i32(n)
}

/// Appends bytes: `bytes::BufMut::put_slice` on a `Vec<u8>` appends them in order.
#[verifier::external_body]
pub(crate) fn put_slice(out: &mut Vec<u8>, bytes: &[u8])
    ensures
        final(out)@ == old(out)@ + bytes@,
{
    out.put_slice(bytes)
}

/// How many bytes are left: `bytes::Buf::remaining` on a slice is its length.
#[verifier::external_body]
pub(crate) fn remaining(buf: &[u8]) -> (n: usize)
    ensures
        n == buf@.len(),
{
    buf.remaining()
}

/// Whether any byte is left: `bytes::Buf::has_remaining` on a slice says whether it is non-empty.
#[verifier::external_body]
pub(crate) fn has_remaining(buf: &[u8]) -> (r: bool)
    ensures
        r == (buf@.len() > 0),
{
    buf.has_remaining()
}

/// Reads one byte and hands back the bytes behind it: `bytes::Buf::get_u8` on a non-empty slice
/// takes its first byte. It panics on an empty one.
#[verifier::external_body]
pub(crate) fn get_u8<'a>(buf: &'a [u8]) -> (r: (u8, &'a [u8]))
    requires
        buf@.len() >= 1,
    ensures
        r.0 == buf@[0],
        r.1@ == buf@.skip(1),
{
    let mut rest = buf;
    let n = rest.get_u8();
    (n, rest)
}

/// Reads a number and hands back the bytes behind it: `bytes::Buf::get_u32` takes the first four
/// bytes of a slice, the most significant first. It panics on a shorter slice.
#[verifier::external_body]
pub(crate) fn get_u32<'a>(buf: &'a [u8]) -> (r: (u32, &'a [u8]))
    requires
        buf@.len() >= 4,
    ensures
        r.0 == be32_value(buf@),
        r.1@ == buf@.skip(4),
{
    let mut rest = buf;
    let n = rest.get_u32();
    (n, rest)
}

/// Reads a signed number and hands back the bytes behind it: `bytes::Buf::get_i32` takes the first
/// four bytes of a slice as a two's complement, the most significant byte first. It panics on a
/// shorter slice.
#[verifier::external_body]
pub(crate) fn get_i32<'a>(buf: &'a [u8]) -> (r: (i32, &'a [u8]))
    requires
        buf@.len() >= 4,
    ensures
        r.0 == from_twos_complement(be32_value(buf@)),
        r.1@ == buf@.skip(4),
{
    let mut rest = buf;
    let n = rest.get_i32();
    (n, rest)
}

/// Turns bytes into a text: `String::from_utf8` succeeds exactly on UTF-8 and keeps the
/// characters. Otherwise its error says how far the bytes are UTF-8, and how many bytes the
/// invalid sequence has, which is named and not described here.
#[verifier::external_body]
pub(crate) fn string_from_utf8(bytes: Vec<u8>) -> (r: Result<String, (usize, Option<usize>)>)
    ensures
        r is Ok == valid_utf8(bytes@),
        r matches Ok(text) ==> text@ == decode_utf8(bytes@),
        r matches Err(e) ==> e.0 == utf8_valid_up_to(bytes@) && e.1 == utf8_error_len(bytes@),
{
    match String::from_utf8(bytes) {
        Ok(text) => Ok(text),
        Err(e) => Err((e.utf8_error().valid_up_to(), e.utf8_error().error_len())),
    }
}

/// The last 32 bits of a length.
pub fn length_prefix(len: usize) -> (n: u32)
    ensures
        n == length_field(len as nat),
{
    let wide: u64 = len as u64;
    assert(wide as u32 == wide % 0x1_0000_0000u64) by (bit_vector);
    wide as u32
}

/// Appends length-prefixed bytes to a frame buffer.
pub fn put_bytes(out: &mut Vec<u8>, value: &[u8])
    ensures
        final(out)@ == old(out)@ + prefixed(value@),
{
    put_u32(out, length_prefix(value.len()));
    put_slice(out, value);
    assert(out@ =~= old(out)@ + prefixed(value@));
}

/// Appends a length-prefixed UTF-8 string to a frame buffer.
pub fn put_string(out: &mut Vec<u8>, value: &str)
    ensures
        final(out)@ == old(out)@ + prefixed_text(value@),
{
    put_bytes(out, value.as_bytes());
}

/// What is left of a frame behind a value read from its front.
pub open spec fn read_u8(s: Seq<u8>) -> Result<(u8, Seq<u8>), FrameError> {
    if s.len() == 0 {
        Err(FrameError::Truncated)
    } else {
        Ok((s[0], s.skip(1)))
    }
}

/// A number at the front of `s`, and what is left behind it.
pub open spec fn read_u32(s: Seq<u8>) -> Result<(u32, Seq<u8>), FrameError> {
    if s.len() < 4 {
        Err(FrameError::Truncated)
    } else {
        Ok((be32_value(s), s.skip(4)))
    }
}

/// A signed number at the front of `s`, and what is left behind it.
pub open spec fn read_i32(s: Seq<u8>) -> Result<(i32, Seq<u8>), FrameError> {
    if s.len() < 4 {
        Err(FrameError::Truncated)
    } else {
        Ok((from_twos_complement(be32_value(s)), s.skip(4)))
    }
}

/// The first `n` bytes of `s`, and what is left behind them.
pub open spec fn read_taken(s: Seq<u8>, n: nat) -> Result<(Seq<u8>, Seq<u8>), FrameError> {
    if s.len() < n {
        Err(FrameError::Truncated)
    } else {
        Ok((s.take(n as int), s.skip(n as int)))
    }
}

/// Length-prefixed bytes at the front of `s`, and what is left behind them.
pub open spec fn read_bytes(s: Seq<u8>) -> Result<(Seq<u8>, Seq<u8>), FrameError> {
    match read_u32(s) {
        Err(e) => Err(e),
        Ok((n, rest)) => read_taken(rest, n as nat),
    }
}

/// A length-prefixed text at the front of `s`, and what is left behind it.
pub open spec fn read_text(s: Seq<u8>) -> Result<(Seq<char>, Seq<u8>), FrameError> {
    match read_bytes(s) {
        Err(e) => Err(e),
        Ok((bytes, rest)) => if valid_utf8(bytes) {
            Ok((decode_utf8(bytes), rest))
        } else {
            Err(utf8_error(bytes))
        },
    }
}

/// Whether a read of one number gave `got`, as `want` says, and moved the cursor from `before` to
/// `after`. A failed read leaves the cursor in place.
pub open spec fn read_as<T>(
    want: Result<(T, Seq<u8>), FrameError>,
    got: Result<T, FrameError>,
    before: Seq<u8>,
    after: Seq<u8>,
) -> bool {
    match want {
        Err(e) => got == Err::<T, FrameError>(e) && after == before,
        Ok((value, rest)) => got == Ok::<T, FrameError>(value) && after == rest,
    }
}

/// Where the cursor stands once length-prefixed bytes were asked for: behind what was read, which
/// is the length alone where the bytes are missing.
pub open spec fn cursor_after_bytes(s: Seq<u8>) -> Seq<u8> {
    match (read_u32(s), read_bytes(s)) {
        (_, Ok((_, rest))) => rest,
        (Ok((_, rest)), Err(_)) => rest,
        (Err(_), Err(_)) => s,
    }
}

/// Cursor-based decoder for length-prefixed protocol frames.
pub struct Decoder<'a> {
    /// Remaining frame payload being decoded.
    pub bytes: &'a [u8],
}

impl<'a> View for Decoder<'a> {
    type V = Seq<u8>;

    open spec fn view(&self) -> Seq<u8> {
        self.bytes@
    }
}

impl<'a> Decoder<'a> {
    /// Creates a decoder over one complete frame payload.
    pub fn new(bytes: &'a [u8]) -> (decoder: Self)
        ensures
            decoder@ == bytes@,
    {
        Decoder { bytes }
    }

    /// Reads a single unsigned byte from the frame.
    pub fn u8(&mut self) -> (r: Result<u8, FrameError>)
        ensures
            read_as(read_u8(old(self)@), r, old(self)@, final(self)@),
    {
        if !has_remaining(self.bytes) {
            return Err(FrameError::Truncated);
        }
        let (value, rest) = get_u8(self.bytes);
        self.bytes = rest;
        Ok(value)
    }

    /// Reads a big-endian unsigned integer from the frame.
    pub fn u32(&mut self) -> (r: Result<u32, FrameError>)
        ensures
            read_as(read_u32(old(self)@), r, old(self)@, final(self)@),
    {
        if remaining(self.bytes) < 4 {
            return Err(FrameError::Truncated);
        }
        let (value, rest) = get_u32(self.bytes);
        self.bytes = rest;
        Ok(value)
    }

    /// Reads a big-endian signed integer from the frame.
    pub fn i32(&mut self) -> (r: Result<i32, FrameError>)
        ensures
            read_as(read_i32(old(self)@), r, old(self)@, final(self)@),
    {
        if remaining(self.bytes) < 4 {
            return Err(FrameError::Truncated);
        }
        let (value, rest) = get_i32(self.bytes);
        self.bytes = rest;
        Ok(value)
    }

    /// Takes a fixed number of bytes from the current frame offset.
    pub fn take(&mut self, len: usize) -> (r: Result<&'a [u8], FrameError>)
        ensures
            r is Ok == (len <= old(self)@.len()),
            r matches Ok(bytes) ==> bytes@ == old(self)@.take(len as int) && final(self)@ == old(
                self,
            )@.skip(len as int),
            r matches Err(e) ==> e == FrameError::Truncated && final(self)@ == old(self)@,
    {
        if remaining(self.bytes) < len {
            return Err(FrameError::Truncated);
        }
        let (bytes, rest) = self.bytes.split_at(len);
        self.bytes = rest;
        Ok(bytes)
    }

    /// Reads length-prefixed bytes from the frame.
    pub fn bytes(&mut self) -> (r: Result<&'a [u8], FrameError>)
        ensures
            match read_bytes(old(self)@) {
                Ok((bytes, _)) => r is Ok && r->Ok_0@ == bytes,
                Err(e) => r == Err::<&'a [u8], FrameError>(e),
            },
            final(self)@ == cursor_after_bytes(old(self)@),
    {
        match self.u32() {
            Ok(len) => self.take(len as usize),
            Err(e) => Err(e),
        }
    }

    /// Reads a length-prefixed UTF-8 string from the frame.
    pub fn string(&mut self) -> (r: Result<String, FrameError>)
        ensures
            match read_text(old(self)@) {
                Ok((text, _)) => r is Ok && r->Ok_0@ == text,
                Err(e) => r == Err::<String, FrameError>(e),
            },
            final(self)@ == cursor_after_bytes(old(self)@),
    {
        match self.bytes() {
            Ok(bytes) => match string_from_utf8(vstd::slice::slice_to_vec(bytes)) {
                Ok(text) => Ok(text),
                Err((valid_up_to, error_len)) => Err(
                    FrameError::InvalidUtf8 { valid_up_to, error_len },
                ),
            },
            Err(e) => Err(e),
        }
    }

    /// Verifies that all frame bytes were consumed.
    pub fn finish(&self) -> (r: Result<(), FrameError>)
        ensures
            r == (if self@.len() == 0 {
                Ok::<(), FrameError>(())
            } else {
                Err::<(), FrameError>(FrameError::TrailingBytes)
            }),
    {
        if remaining(self.bytes) == 0 {
            Ok(())
        } else {
            Err(FrameError::TrailingBytes)
        }
    }
}

/// Byte sequences can be put together from either end.
pub(crate) proof fn lemma_concat_assoc(a: Seq<u8>, b: Seq<u8>, c: Seq<u8>)
    ensures
        a + (b + c) == (a + b) + c,
{
    assert(a + (b + c) =~= (a + b) + c);
}

} // verus!
