//! Configuration requests: which district and judge a request addresses,
//! taken from headers or from the URL, and the answers the configuration
//! endpoints give.
use vstd::prelude::*;
use crate::error::{ApiError, is_bad_request, is_not_found, bad_request};

verus! {

/// A header or path value that is present and not empty.
pub open spec fn present(v: Option<Seq<char>>) -> bool {
    v matches Some(s) && s.len() > 0
}

/// The text of an optional string slice.
pub open spec fn opt_view(v: Option<&str>) -> Option<Seq<char>> {
    match v {
        Some(s) => Some(s@),
        None => None,
    }
}

/// A value that must be present and not empty; `missing` is the message of
/// the bad-request error given otherwise.
pub fn require_value(v: Option<&str>, missing: &str) -> (r: Result<String, ApiError>)
    ensures
        present(opt_view(v)) ==> (r matches Ok(s) && s@ == opt_view(v)->0),
        !present(opt_view(v)) ==> (r matches Err(e) && is_bad_request(e, missing@)),
{
    match v {
        Some(s) => {
            if s.unicode_len() > 0 {
                Ok(String::from_str(s))
            } else {
                Err(bad_request(missing))
            }
        },
        None => Err(bad_request(missing)),
    }
}

/// An optional value: kept when present and not empty, dropped otherwise.
pub fn optional_value(v: Option<&str>) -> (r: Option<String>)
    ensures
        present(opt_view(v)) ==> (r matches Some(s) && s@ == opt_view(v)->0),
        !present(opt_view(v)) ==> r is None,
{
    match v {
        Some(s) => {
            if s.unicode_len() > 0 {
                Some(String::from_str(s))
            } else {
                None
            }
        },
        None => None,
    }
}

/// The district named by the `X-Court-District` header (a value that is not
/// UTF-8 counts as missing).
pub fn district_from_header(v: Option<&str>) -> (r: Result<String, ApiError>)
    ensures
        present(opt_view(v)) ==> (r matches Ok(s) && s@ == opt_view(v)->0),
        !present(opt_view(v)) ==> (r matches Err(e) && is_bad_request(
            e,
            "X-Court-District header is required"@,
        )),
{
    require_value(v, "X-Court-District header is required")
}

/// The judge named by the `X-Judge-ID` header, where the endpoint needs one.
pub fn judge_from_header(v: Option<&str>) -> (r: Result<String, ApiError>)
    ensures
        present(opt_view(v)) ==> (r matches Ok(s) && s@ == opt_view(v)->0),
        !present(opt_view(v)) ==> (r matches Err(e) && is_bad_request(
            e,
            "X-Judge-ID header is required"@,
        )),
{
    require_value(v, "X-Judge-ID header is required")
}

/// The district named by the `district` path parameter.
pub fn district_from_path(v: Option<&str>) -> (r: Result<String, ApiError>)
    ensures
        present(opt_view(v)) ==> (r matches Ok(s) && s@ == opt_view(v)->0),
        !present(opt_view(v)) ==> (r matches Err(e) && is_bad_request(
            e,
            "District parameter is required in URL"@,
        )),
{
    require_value(v, "District parameter is required in URL")
}

/// The judge named by the `judge_id` path parameter.
pub fn judge_from_path(v: Option<&str>) -> (r: Result<String, ApiError>)
    ensures
        present(opt_view(v)) ==> (r matches Ok(s) && s@ == opt_view(v)->0),
        !present(opt_view(v)) ==> (r matches Err(e) && is_bad_request(
            e,
            "Judge ID is required in URL"@,
        )),
{
    require_value(v, "Judge ID is required in URL")
}

/// Whose configuration overrides a request addresses.
pub enum ConfigScope {
    District,
    Judge,
}

/// The message of the not-found error for missing overrides.
pub open spec fn no_overrides_message(scope: ConfigScope) -> Seq<char> {
    match scope {
        ConfigScope::District => "No district overrides found"@,
        ConfigScope::Judge => "No judge overrides found"@,
    }
}

/// The answer to a lookup of overrides: the overrides found, a not-found
/// error when there are none, or the lookup's own error.
pub fn overrides_found<T>(found: Result<Option<T>, ApiError>, scope: ConfigScope) -> (r: Result<
    T,
    ApiError,
>)
    ensures
        found matches Ok(Some(t)) ==> r == Ok::<T, ApiError>(t),
        found matches Ok(None) ==> (r matches Err(e) && is_not_found(
            e,
            no_overrides_message(scope),
        )),
        found matches Err(e) ==> r == Err::<T, ApiError>(e),
{
    match found {
        Ok(Some(t)) => Ok(t),
        Ok(None) => match scope {
            ConfigScope::District => Err(ApiError::NotFound(
                String::from_str("No district overrides found"),
            )),
            ConfigScope::Judge => Err(ApiError::NotFound(String::from_str("No judge overrides found"))),
        },
        Err(e) => Err(e),
    }
}

/// The confirmation for a configuration update addressed by header.
pub open spec fn updated_message(scope: ConfigScope) -> Seq<char> {
    match scope {
        ConfigScope::District => "District configuration updated successfully"@,
        ConfigScope::Judge => "Judge configuration updated successfully"@,
    }
}

/// The confirmation for overrides cleared by header.
pub open spec fn cleared_message(scope: ConfigScope) -> Seq<char> {
    match scope {
        ConfigScope::District => "District overrides cleared successfully"@,
        ConfigScope::Judge => "Judge overrides cleared successfully"@,
    }
}

/// The confirmation of an update addressed by header.
pub fn update_confirmation(scope: ConfigScope) -> (s: String)
    ensures
        s@ == updated_message(scope),
{
    match scope {
        ConfigScope::District => String::from_str("District configuration updated successfully"),
        ConfigScope::Judge => String::from_str("Judge configuration updated successfully"),
    }
}

/// The confirmation of a clearing addressed by header.
pub fn clear_confirmation(scope: ConfigScope) -> (s: String)
    ensures
        s@ == cleared_message(scope),
{
    match scope {
        ConfigScope::District => String::from_str("District overrides cleared successfully"),
        ConfigScope::Judge => String::from_str("Judge overrides cleared successfully"),
    }
}

/// The confirmation of an update addressed by URL, naming the district or
/// judge: `District {id} configuration updated successfully`.
pub fn url_update_confirmation(scope: ConfigScope, id: &str) -> (s: String)
    ensures
        s@ == (match scope {
            ConfigScope::District => "District "@,
            ConfigScope::Judge => "Judge "@,
        }) + id@ + " configuration updated successfully"@,
{
    let mut s = match scope {
        ConfigScope::District => String::from_str("District "),
        ConfigScope::Judge => String::from_str("Judge "),
    };
    s.append(id);
    s.append(" configuration updated successfully");
    s
}

/// The confirmation of a clearing addressed by URL, naming the district or
/// judge: `Judge {id} overrides cleared successfully`.
pub fn url_clear_confirmation(scope: ConfigScope, id: &str) -> (s: String)
    ensures
        s@ == (match scope {
            ConfigScope::District => "District "@,
            ConfigScope::Judge => "Judge "@,
        }) + id@ + " overrides cleared successfully"@,
{
    let mut s = match scope {
        ConfigScope::District => String::from_str("District "),
        ConfigScope::Judge => String::from_str("Judge "),
    };
    s.append(id);
    s.append(" overrides cleared successfully");
    s
}

/// The error for a request body that is not the expected JSON, by URL.
pub fn invalid_json_body(detail: &str) -> (e: ApiError)
    ensures
        is_bad_request(e, "Invalid JSON in request body: "@ + detail@),
{
    let mut m = String::from_str("Invalid JSON in request body: ");
    m.append(detail);
    ApiError::BadRequest(m)
}

/// The error for a preview body that does not parse, by URL.
pub fn invalid_preview(detail: &str) -> (e: ApiError)
    ensures
        is_bad_request(e, "Invalid preview request: "@ + detail@),
{
    let mut m = String::from_str("Invalid preview request: ");
    m.append(detail);
    ApiError::BadRequest(m)
}

} // verus!
