//! Identifiers taken from request paths and queries.
use vstd::prelude::*;
use crate::error::{ApiError, is_bad_request, is_not_found, bad_request, not_found};

verus! {

/// What `uuid::Uuid::parse_str` gives for a text: the UUID as its 128-bit
/// value, or the text of the parse error (its `Display`).
pub uninterp spec fn uuid_parse_result(s: Seq<char>) -> Result<u128, Seq<char>>;

/// The 128-bit value that `uuid::Uuid::parse_str` reads from a text, or
/// `None` where it rejects the text.
pub open spec fn uuid_parse_str(s: Seq<char>) -> Option<u128> {
    match uuid_parse_result(s) {
        Ok(u) => Some(u),
        Err(_) => None,
    }
}

/// Calls `uuid::Uuid::parse_str`, keeping the UUID as its 128-bit value
/// (`Uuid::as_u128`) or the error as its message. The contract only ties the
/// result to the input text through `uuid_parse_result`; which texts are
/// accepted, and how errors are worded, is left to the uuid crate.
#[verifier::external_body]
pub(crate) fn parse_uuid_text(s: &str) -> (r: Result<u128, String>)
    ensures
        match r {
            Ok(u) => uuid_parse_result(s@) == Ok::<u128, Seq<char>>(u),
            Err(e) => uuid_parse_result(s@) == Err::<u128, Seq<char>>(e@),
        },
{
    match uuid::Uuid::parse_str(s) {
        Ok(u) => Ok(u.as_u128()),
        Err(e) => Err(e.to_string()),
    }
}

/// Parses a UUID, dropping the error.
pub fn parse_uuid(s: &str) -> (r: Option<u128>)
    ensures
        r == uuid_parse_str(s@),
{
    match parse_uuid_text(s) {
        Ok(u) => Some(u),
        Err(_) => None,
    }
}

/// The lower-case hexadecimal digit of a four-bit value.
pub open spec fn hex_digit(v: int) -> char {
    if v < 10 {
        (48 + v) as char
    } else {
        (87 + v) as char
    }
}

/// The `k`-th hexadecimal digit of a 128-bit value, counted from the most
/// significant.
pub open spec fn uuid_hex(u: u128, k: int) -> char {
    hex_digit(((u >> ((124 - 4 * k) as u128)) & 15u128) as int)
}

/// The canonical text of a UUID value: its 32 lower-case hexadecimal
/// digits, most significant first, with a hyphen after the 8th, 12th, 16th
/// and 20th.
pub open spec fn uuid_text(u: u128) -> Seq<char> {
    let d = Seq::new(32, |k: int| uuid_hex(u, k));
    d.subrange(0, 8) + seq!['-'] + d.subrange(8, 12) + seq!['-'] + d.subrange(12, 16) + seq!['-']
        + d.subrange(16, 20) + seq!['-'] + d.subrange(20, 32)
}

/// Formats a UUID value with `uuid::Uuid::from_u128` and `to_string`, whose
/// `Display` writes the hyphenated lower-case form that `uuid_text`
/// describes.
#[verifier::external_body]
pub(crate) fn uuid_to_string(u: u128) -> (s: String)
    ensures
        s@ == uuid_text(u),
{
    uuid::Uuid::from_u128(u).to_string()
}

/// Reads a UUID from a path parameter: a missing parameter gives `missing`,
/// a value that is not a UUID gives `invalid`.
pub fn require_uuid(param: Option<&str>, missing: ApiError, invalid: ApiError) -> (r: Result<
    u128,
    ApiError,
>)
    ensures
        param is None ==> r == Err::<u128, ApiError>(missing),
        param matches Some(s) ==> r == match uuid_parse_str(s@) {
            Some(u) => Ok::<u128, ApiError>(u),
            None => Err(invalid),
        },
{
    match param {
        None => Err(missing),
        Some(s) => match parse_uuid(s) {
            Some(u) => Ok(u),
            None => Err(invalid),
        },
    }
}

/// Reads an optional UUID: absent or malformed values both give `None`,
/// a well-formed one its value.
pub fn optional_uuid(param: Option<&str>) -> (r: Option<u128>)
    ensures
        param is None ==> r is None,
        param matches Some(s) ==> r == uuid_parse_str(s@),
{
    match param {
        None => None,
        Some(s) => parse_uuid(s),
    }
}

/// Reads a UUID from a path parameter where a missing value and a malformed
/// one get the same answer: a bad-request error with `msg`.
pub fn uuid_param(param: Option<&str>, msg: &str) -> (r: Result<u128, ApiError>)
    ensures
        match param {
            Some(s) => match uuid_parse_str(s@) {
                Some(u) => r == Ok::<u128, ApiError>(u),
                None => r matches Err(e) && is_bad_request(e, msg@),
            },
            None => r matches Err(e) && is_bad_request(e, msg@),
        },
{
    match optional_uuid(param) {
        Some(u) => Ok(u),
        None => Err(bad_request(msg)),
    }
}

/// A path parameter that must be present; `msg` is the bad-request message
/// otherwise.
pub fn required_param(param: Option<&str>, msg: &str) -> (r: Result<String, ApiError>)
    ensures
        param matches Some(s) ==> (r matches Ok(t) && t@ == s@),
        param is None ==> (r matches Err(e) && is_bad_request(e, msg@)),
{
    match param {
        Some(s) => Ok(String::from_str(s)),
        None => Err(bad_request(msg)),
    }
}

/// A record that must exist; `msg` is the not-found message otherwise.
pub fn found_or<T>(found: Option<T>, msg: &str) -> (r: Result<T, ApiError>)
    ensures
        found matches Some(t) ==> r == Ok::<T, ApiError>(t),
        found is None ==> (r matches Err(e) && is_not_found(e, msg@)),
{
    match found {
        Some(t) => Ok(t),
        None => Err(not_found(msg)),
    }
}

} // verus!
