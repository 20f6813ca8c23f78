//! Plain-text response bodies.
//!
//! A value that can be served as a response body chooses its `Content-Type`
//! header and turns itself into a fixed-size body. The header and body types
//! come from the `http`, `bytes` and `http-body-util` crates; what they hold
//! is tracked through the names below.

use vstd::prelude::*;
use std::borrow::Cow;

verus! {

#[verifier::external_type_specification]
#[verifier::external_body]
pub struct ExBytes(bytes::Bytes);

#[verifier::external_type_specification]
#[verifier::external_body]
#[verifier::reject_recursive_types(D)]
pub struct ExFull<D>(http_body_util::Full<D>);

#[verifier::external_type_specification]
#[verifier::external_body]
pub struct ExHeaderValue(http::HeaderValue);

/// The UTF-8 encoding of a character sequence: the bytes that
/// `String::into_bytes` and `str::as_bytes` hand back.
pub uninterp spec fn utf8_bytes(s: Seq<char>) -> Seq<u8>;

/// The bytes a `bytes::Bytes` buffer holds.
pub uninterp spec fn bytes_content(b: bytes::Bytes) -> Seq<u8>;

/// The bytes a `http_body_util::Full` body yields, as its single frame,
/// when it is streamed.
pub uninterp spec fn full_content(f: http_body_util::Full<bytes::Bytes>) -> Seq<u8>;

/// The bytes a `http::HeaderValue` holds: what its `as_bytes` hands back.
pub uninterp spec fn header_value_bytes(h: http::HeaderValue) -> Seq<u8>;

/// The `text/plain; charset=utf-8` media type, as characters.
pub open spec fn text_plain_utf8() -> Seq<char> {
    "text/plain; charset=utf-8"@
}

/// Relies on `bytes`' `From<String> for Bytes`: the buffer holds exactly
/// the string's UTF-8 bytes (`Bytes::from(s.into_bytes())`).
#[verifier::external_body]
fn bytes_from_string(s: String) -> (b: bytes::Bytes)
    ensures
        bytes_content(b) == utf8_bytes(s@),
{
    bytes::Bytes::from(s)
}

/// Relies on `bytes`' `From<&'static str> for Bytes`: the buffer holds
/// exactly the slice's UTF-8 bytes (`Bytes::from_static(s.as_bytes())`).
#[verifier::external_body]
fn bytes_from_static_str(s: &'static str) -> (b: bytes::Bytes)
    ensures
        bytes_content(b) == utf8_bytes(s@),
{
    bytes::Bytes::from(s)
}

/// Relies on `http_body_util::Full::new`: the body yields exactly `data`,
/// as one frame, when streamed.
#[verifier::external_body]
fn full_from_bytes(data: bytes::Bytes) -> (f: http_body_util::Full<bytes::Bytes>)
    ensures
        full_content(f) == bytes_content(data),
{
    http_body_util::Full::new(data)
}

/// Relies on `mime::TEXT_PLAIN_UTF_8`, whose source string is
/// `"text/plain; charset=utf-8"` (handed back by `Mime::as_ref`), and on
/// `http::HeaderValue::from_static`, which stores exactly the bytes of its
/// argument. Every byte of that ASCII string is a valid header byte, so
/// `from_static` cannot panic here.
#[verifier::external_body]
fn text_plain_utf8_header() -> (h: http::HeaderValue)
    ensures
        header_value_bytes(h) == utf8_bytes(text_plain_utf8()),
{
    http::HeaderValue::from_static(mime::TEXT_PLAIN_UTF_8.as_ref())
}

/// A value that can be served as a typed response body: it fixes the
/// `Content-Type` header and encodes itself as the body's bytes.
pub trait TypedBody {
    /// The bytes of the `Content-Type` header this value is served with.
    spec fn spec_content_type(&self) -> Seq<u8>;

    /// The bytes the response body carries.
    spec fn spec_body(&self) -> Seq<u8>;

    /// The `Content-Type` header for this body.
    fn content_type(&self) -> (h: http::HeaderValue)
        ensures
            header_value_bytes(h) == self.spec_content_type(),
    ;

    /// Turn the value into the response body.
    fn body(self) -> (b: http_body_util::Full<bytes::Bytes>) where Self: core::marker::Sized
        ensures
            full_content(b) == self.spec_body(),
    ;
}

impl TypedBody for String {
    open spec fn spec_content_type(&self) -> Seq<u8> {
        utf8_bytes(text_plain_utf8())
    }

    open spec fn spec_body(&self) -> Seq<u8> {
        utf8_bytes(self@)
    }

    fn content_type(&self) -> (h: http::HeaderValue) {
        text_plain_utf8_header()
    }

    fn body(self) -> (b: http_body_util::Full<bytes::Bytes>) {
        full_from_bytes(bytes_from_string(self))
    }
}

impl TypedBody for &'static str {
    open spec fn spec_content_type(&self) -> Seq<u8> {
        utf8_bytes(text_plain_utf8())
    }

    open spec fn spec_body(&self) -> Seq<u8> {
        utf8_bytes(self@)
    }

    fn content_type(&self) -> (h: http::HeaderValue) {
        text_plain_utf8_header()
    }

    fn body(self) -> (b: http_body_util::Full<bytes::Bytes>) {
        full_from_bytes(bytes_from_static_str(self))
    }
}

impl TypedBody for Cow<'static, str> {
    open spec fn spec_content_type(&self) -> Seq<u8> {
        utf8_bytes(text_plain_utf8())
    }

    open spec fn spec_body(&self) -> Seq<u8> {
        utf8_bytes(self@)
    }

    fn content_type(&self) -> (h: http::HeaderValue) {
        text_plain_utf8_header()
    }

    fn body(self) -> (b: http_body_util::Full<bytes::Bytes>) {
        match self {
            Cow::Borrowed(s) => s.body(),
            Cow::Owned(s) => s.body(),
        }
    }
}

} // verus!
