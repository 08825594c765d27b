//! Reading the `Authorization` header out of an `http` header map.
//!
//! The map and its values belong to the `http` crate (reached through `axum`).
//! The items in the first half of this module state what that crate does and
//! are taken on trust; `read_auth_header` at the end is proved from them.

use axum::http::header::{HeaderMap, HeaderValue, ToStrError};
use vstd::prelude::*;

verus! {

/// `http::HeaderMap`, the multimap of request headers.
#[verifier::external_type_specification]
#[verifier::external_body]
#[verifier::reject_recursive_types(T)]
pub struct ExHeaderMap<T>(HeaderMap<T>);

/// `http::HeaderValue`, the raw bytes of one header field.
#[verifier::external_type_specification]
#[verifier::external_body]
pub struct ExHeaderValue(HeaderValue);

/// `http::header::ToStrError`, returned when a header value is not text.
#[verifier::external_type_specification]
#[verifier::external_body]
pub struct ExToStrError(ToStrError);

/// The value that `HeaderMap::get` finds in `headers` under `name`: the first
/// one stored under that name, or `None` where there is none.
pub uninterp spec fn header_first(headers: HeaderMap<HeaderValue>, name: Seq<char>) -> Option<HeaderValue>;

/// The bytes that a header value holds.
pub uninterp spec fn header_bytes(value: HeaderValue) -> Seq<u8>;

/// Whether `http` counts the byte as visible ASCII: space to `~`, or a tab.
pub open spec fn is_visible_ascii(byte: u8) -> bool {
    32 <= byte < 127 || byte == 9
}

/// Whether every byte is visible ASCII.
pub open spec fn all_visible_ascii(bytes: Seq<u8>) -> bool {
    forall|i: int| 0 <= i < bytes.len() ==> is_visible_ascii(#[trigger] bytes[i])
}

/// The text whose characters are the given ASCII bytes, one for one.
pub open spec fn ascii_text(bytes: Seq<u8>) -> Seq<char> {
    Seq::new(bytes.len(), |i: int| bytes[i] as char)
}

/// Calls `HeaderMap::get` with a string key. The result is the value named
/// by `header_first`, borrowed from the map.
#[verifier::external_body]
fn first_value<'a>(headers: &'a HeaderMap<HeaderValue>, name: &str) -> (found: Option<
    &'a HeaderValue,
>)
    ensures
        found.is_some() == header_first(*headers, name@).is_some(),
        found matches Some(value) ==> header_first(*headers, name@) == Some(*value),
{
    headers.get(name)
}

/// `HeaderValue::to_str` scans the bytes of the value. It yields them as
/// text exactly when all of them are visible ASCII, and an error otherwise.
pub assume_specification[ HeaderValue::to_str ](value: &HeaderValue) -> (text: Result<
    &str,
    ToStrError,
>)
    ensures
        text.is_ok() == all_visible_ascii(header_bytes(*value)),
        text matches Ok(s) ==> s@ == ascii_text(header_bytes(*value)),
;

/// What a request carries under `Authorization`.
#[derive(Debug, Clone, Copy, PartialEq, Eq)]
pub enum AuthHeader<'a> {
    /// No such header.
    Missing,
    /// A header whose bytes are not all visible ASCII, so not text.
    Unreadable,
    /// A header with this text.
    Text(&'a str),
}

/// An `AuthHeader` with its text as a character sequence.
pub enum AuthHeaderModel {
    Missing,
    Unreadable,
    Text(Seq<char>),
}

impl View for AuthHeader<'_> {
    type V = AuthHeaderModel;

    open spec fn view(&self) -> AuthHeaderModel {
        match *self {
            AuthHeader::Missing => AuthHeaderModel::Missing,
            AuthHeader::Unreadable => AuthHeaderModel::Unreadable,
            AuthHeader::Text(text) => AuthHeaderModel::Text(text@),
        }
    }
}

/// What `headers` carries under `Authorization`: the first value stored
/// under that name, as text where all its bytes are visible ASCII.
pub open spec fn auth_header_of(headers: HeaderMap<HeaderValue>) -> AuthHeaderModel {
    match header_first(headers, "Authorization"@) {
        None => AuthHeaderModel::Missing,
        Some(value) => if all_visible_ascii(header_bytes(value)) {
            AuthHeaderModel::Text(ascii_text(header_bytes(value)))
        } else {
            AuthHeaderModel::Unreadable
        },
    }
}

/// Looks up `Authorization` in `headers` and reads its first value as text.
pub fn read_auth_header<'a>(headers: &'a HeaderMap<HeaderValue>) -> (header: AuthHeader<'a>)
    ensures
        header@ == auth_header_of(*headers),
{
    match first_value(headers, "Authorization") {
        None => AuthHeader::Missing,
        Some(value) => match value.to_str() {
            Ok(text) => AuthHeader::Text(text),
            Err(_) => AuthHeader::Unreadable,
        },
    }
}

} // verus!
