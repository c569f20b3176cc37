//! The shared secret: how the client presents it and how the server checks it.

use crate::text::{concat2, in_context, same_text, strip_prefix, with_context};
use axum::http::HeaderValue;
use vstd::prelude::*;
use vstd::utf8::{encode_utf8, encode_utf8_decode_utf8};

verus! {

/// Authorization header prefix expected during websocket upgrade authentication.
pub const AUTH_PREFIX: &'static str = "Bearer ";

/// Whether a byte may stand in a header value.
pub open spec fn header_byte(b: u8) -> bool {
    (b >= 32 && b != 127) || b == 9
}

/// Whether a byte of a header value is visible ASCII, a space or a tab.
pub open spec fn visible_byte(b: u8) -> bool {
    (32 <= b < 127) || b == 9
}

/// Whether all bytes may stand in a header value.
pub open spec fn header_bytes(bytes: Seq<u8>) -> bool {
    forall|i: int| 0 <= i < bytes.len() ==> header_byte(#[trigger] bytes[i])
}

/// Whether all bytes of a header value can be read as a text.
pub open spec fn visible_bytes(bytes: Seq<u8>) -> bool {
    forall|i: int| 0 <= i < bytes.len() ==> visible_byte(#[trigger] bytes[i])
}

/// A text cannot stand in a header.
#[derive(Debug, PartialEq, Eq)]
pub struct InvalidHeader {
    /// What is wrong with it.
    pub cause: String,
}

/// What is wrong with every text that cannot stand in a header.
pub open spec fn header_error_text() -> Seq<char> {
    "failed to parse header value"@
}

impl InvalidHeader {
    /// Says what cannot be done, and why.
    pub fn chain(&self) -> (r: String)
        ensures
            r@ == in_context("invalid authorization header value"@, self.cause@),
    {
        with_context("invalid authorization header value", self.cause.as_str())
    }
}

/// Makes a header value of a text: `HeaderValue::from_str` takes exactly the texts whose bytes may
/// stand in a header value, and keeps those bytes. It says the same of every other text.
#[verifier::external_body]
fn header_from_text(text: &str) -> (r: Result<Vec<u8>, InvalidHeader>)
    ensures
        r is Ok == header_bytes(encode_utf8(text@)),
        r matches Ok(value) ==> value@ == encode_utf8(text@),
        r matches Err(e) ==> e.cause@ == header_error_text(),
{
    match HeaderValue::from_str(text) {
        Ok(value) => Ok(value.as_bytes().to_vec()),
        Err(e) => Err(InvalidHeader { cause: e.to_string() }),
    }
}

/// Reads the bytes of a header value as a text: `HeaderValue::to_str` does so exactly where all of
/// them are visible ASCII, spaces or tabs, and keeps them.
#[verifier::external_body]
fn header_to_text(value: &[u8]) -> (r: Option<String>)
    ensures
        r is Some == visible_bytes(value@),
        r matches Some(text) ==> encode_utf8(text@) == value@,
{
    match HeaderValue::from_bytes(value) {
        Ok(value) => value.to_str().ok().map(str::to_owned),
        Err(_) => None,
    }
}

/// What a client that holds `secret` puts into the authorization header.
pub open spec fn authorization_text(secret: Seq<char>) -> Seq<char> {
    AUTH_PREFIX@ + secret
}

/// Writes the authorization header of a client.
pub fn authorization_header(secret: &str) -> (r: Result<Vec<u8>, InvalidHeader>)
    ensures
        r is Ok == header_bytes(encode_utf8(authorization_text(secret@))),
        r matches Ok(value) ==> value@ == encode_utf8(authorization_text(secret@)),
        r matches Err(e) ==> e.cause@ == header_error_text(),
{
    header_from_text(concat2(AUTH_PREFIX, secret).as_str())
}

/// Whether a request with this authorization header may go on: the header can be read as a text
/// and is the one that a client with the secret sends.
pub open spec fn authorized(header: Option<Seq<u8>>, secret: Seq<char>) -> bool {
    match header {
        Some(value) => visible_bytes(value) && value == encode_utf8(authorization_text(secret)),
        None => false,
    }
}

/// Checks the authorization header of a websocket upgrade request.
pub fn is_authorized(header: Option<&[u8]>, secret: &str) -> (r: bool)
    ensures
        r == authorized(
            match header {
                Some(value) => Some(value@),
                None => None,
            },
            secret@,
        ),
{
    let value = match header {
        Some(value) => value,
        None => return false,
    };
    let text = match header_to_text(value) {
        Some(text) => text,
        None => return false,
    };
    proof {
        encode_utf8_decode_utf8(text@);
        encode_utf8_decode_utf8(authorization_text(secret@));
    }
    match strip_prefix(text.as_str(), AUTH_PREFIX) {
        Some(rest) => {
            proof {
                let n = AUTH_PREFIX@.len() as int;
                assert(text@ =~= AUTH_PREFIX@ + rest@);
                assert(authorization_text(secret@).skip(n) =~= secret@);
            }
            same_text(rest, secret)
        },
        None => {
            proof {
                let n = AUTH_PREFIX@.len() as int;
                assert(authorization_text(secret@).take(n) =~= AUTH_PREFIX@);
            }
            false
        },
    }
}

/// A client that holds the server's secret is let in, where the secret is visible ASCII, spaces or
/// tabs.
pub proof fn law_holder_of_the_secret_is_let_in(secret: Seq<char>)
    requires
        visible_bytes(encode_utf8(authorization_text(secret))),
    ensures
        header_bytes(encode_utf8(authorization_text(secret))),
        authorized(Some(encode_utf8(authorization_text(secret))), secret),
{
    let value = encode_utf8(authorization_text(secret));
    assert forall|i: int| 0 <= i < value.len() implies header_byte(#[trigger] value[i]) by {
        assert(visible_byte(value[i]));
    }
}

/// A client that holds another secret is not let in.
pub proof fn law_other_secret_is_refused(presented: Seq<char>, secret: Seq<char>)
    requires
        presented != secret,
    ensures
        !authorized(Some(encode_utf8(authorization_text(presented))), secret),
{
    let a = authorization_text(presented);
    let b = authorization_text(secret);
    let n = AUTH_PREFIX@.len() as int;
    encode_utf8_decode_utf8(a);
    encode_utf8_decode_utf8(b);
    assert(a.skip(n) =~= presented);
    assert(b.skip(n) =~= secret);
}

/// At most one secret lets a header in.
pub proof fn law_header_fits_one_secret(header: Option<Seq<u8>>, a: Seq<char>, b: Seq<char>)
    requires
        authorized(header, a),
        authorized(header, b),
    ensures
        a == b,
{
    if a != b {
        law_other_secret_is_refused(a, b);
    }
}

} // verus!
