//! Attorneys, parties and representation: how lookups and storage failures
//! are answered, and the defaults of attorney queries.
use vstd::prelude::*;
use crate::error::{ApiError, is_not_found};
use crate::parse::{parse_unsigned, parse_usize};
use crate::text::{chars_of, chars_eq_str};

verus! {

/// Wins and cases for a win-rate calculation.
pub struct WinRateRequest {
    pub wins: i32,
    pub total: i32,
}

/// A path or query value that may be left out, which then counts as
/// empty.
pub fn value_or_empty(v: Option<&str>) -> (s: &str)
    ensures
        v matches Some(t) ==> s@ == t@,
        v is None ==> s@ == Seq::<char>::empty(),
{
    match v {
        Some(t) => t,
        None => {
            let e = "";
            proof {
                reveal_strlit("");
            }
            e
        },
    }
}

/// A storage failure, reported with the storage layer's message.
pub fn stored<T>(r: Result<T, String>) -> (out: Result<T, ApiError>)
    ensures
        r matches Ok(t) ==> out == Ok::<T, ApiError>(t),
        r matches Err(e) ==> out == Err::<T, ApiError>(ApiError::StorageError(e)),
{
    match r {
        Ok(t) => Ok(t),
        Err(e) => Err(ApiError::StorageError(e)),
    }
}

/// The records looked up by attorney requests.
pub enum AttorneyRecord {
    /// An attorney by ID.
    Attorney,
    /// An attorney by bar number.
    BarNumber,
    /// A party by ID.
    Party,
    /// A representation by ID.
    Representation,
}

/// The message for a record that does not exist, naming the key it was
/// looked up by.
pub open spec fn missing_record_message(k: AttorneyRecord, key: Seq<char>) -> Seq<char> {
    match k {
        AttorneyRecord::Attorney => "Attorney "@ + key + " not found"@,
        AttorneyRecord::BarNumber => "Attorney with bar number "@ + key + " not found"@,
        AttorneyRecord::Party => "Party "@ + key + " not found"@,
        AttorneyRecord::Representation => "Representation "@ + key + " not found"@,
    }
}

/// The answer to a lookup: the record, a not-found error naming the key, or
/// the storage failure.
pub fn looked_up<T>(found: Result<Option<T>, String>, k: AttorneyRecord, key: &str) -> (r: Result<
    T,
    ApiError,
>)
    ensures
        found matches Ok(Some(t)) ==> r == Ok::<T, ApiError>(t),
        found matches Ok(None) ==> (r matches Err(e) && is_not_found(
            e,
            missing_record_message(k, key@),
        )),
        found matches Err(e) ==> r == Err::<T, ApiError>(ApiError::StorageError(e)),
{
    match found {
        Ok(Some(t)) => Ok(t),
        Ok(None) => {
            let mut m = match k {
                AttorneyRecord::Attorney => String::from_str("Attorney "),
                AttorneyRecord::BarNumber => String::from_str("Attorney with bar number "),
                AttorneyRecord::Party => String::from_str("Party "),
                AttorneyRecord::Representation => String::from_str("Representation "),
            };
            m.append(key);
            m.append(" not found");
            Err(ApiError::NotFound(m))
        },
        Err(e) => Err(ApiError::StorageError(e)),
    }
}

/// Whether a conflict is cleared with a waiver: only the exact value `true`
/// counts.
pub fn waiver_flag(v: Option<&str>) -> (b: bool)
    ensures
        b == (v matches Some(t) && t@ == "true"@),
{
    match v {
        Some(t) => {
            let c = chars_of(t);
            chars_eq_str(&c, "true")
        },
        None => false,
    }
}

/// How many top attorneys to list: the `limit` value when it parses as a
/// `usize`, 10 otherwise.
pub fn top_limit(v: Option<&str>) -> (n: usize)
    ensures
        match v {
            Some(s) => match parse_unsigned(s@, usize::MAX as nat) {
                Some(k) => n == k,
                None => n == 10,
            },
            None => n == 10,
        },
{
    match v {
        Some(s) => match parse_usize(s) {
            Some(k) => k,
            None => 10,
        },
        None => 10,
    }
}

/// The period attorney metrics cover, as given or by default the calendar
/// year 2024.
pub fn metrics_period(start: Option<&str>, end: Option<&str>) -> (r: (String, String))
    ensures
        start matches Some(s) ==> r.0@ == s@,
        start is None ==> r.0@ == "2024-01-01"@,
        end matches Some(e) ==> r.1@ == e@,
        end is None ==> r.1@ == "2024-12-31"@,
{
    let s = match start {
        Some(s) => String::from_str(s),
        None => String::from_str("2024-01-01"),
    };
    let e = match end {
        Some(e) => String::from_str(e),
        None => String::from_str("2024-12-31"),
    };
    (s, e)
}

/// A status name as a JSON string, the form it is read back from:
/// `"{status}"`.
pub fn quoted(s: &str) -> (r: String)
    ensures
        r@ == "\""@ + s@ + "\""@,
{
    let mut r = String::from_str("\"");
    r.append(s);
    r.append("\"");
    r
}

} // verus!
