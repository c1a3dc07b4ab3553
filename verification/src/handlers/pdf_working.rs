//! PDF endpoints generated from names given in the request, with test data
//! for the automatic Rule 16(b) order.
use vstd::prelude::*;
use crate::text::{chars_of, chars_eq_str};
use crate::handlers::pdf::{TextReply, invalid_request, order_disposition, rule16b_disposition, underscored};

verus! {

/// Request for a Rule 16(b) scheduling order from names given directly.
pub struct GenerateRule16bRequest {
    pub case_number: String,
    pub defendant_names: String,
    pub judge_name: String,
}

/// Request for a court order from names given directly.
pub struct GenerateOrderRequest {
    pub case_number: String,
    pub judge_name: String,
    pub order_title: String,
    pub order_content: String,
}

/// Request for a minute entry from names given directly.
pub struct GenerateMinuteEntryRequest {
    pub case_number: String,
    pub docket_entry_description: String,
    pub judge_name: String,
}

/// The case of the automatic order when the path names none.
pub open spec fn default_test_case() -> Seq<char> {
    "23-cr-00123"@
}

/// The test data an automatic Rule 16(b) order is generated from: case
/// number, defendants and judge, by case.
pub open spec fn test_case_data(case_id: Seq<char>) -> (Seq<char>, Seq<char>, Seq<char>) {
    if case_id == "23-cr-00123"@ {
        ("23-cr-00123"@, "John Doe, Jane Smith"@, "Hon. Sarah Johnson"@)
    } else if case_id == "24-cr-00456"@ {
        ("24-cr-00456"@, "Robert Brown"@, "Hon. Michael Davis"@)
    } else {
        (case_id, "Unknown Defendant"@, "Hon. District Judge"@)
    }
}

/// The test data for the case in the path (`23-cr-00123` when there is
/// none).
pub fn test_case_for(case_id: Option<&str>) -> (r: (String, String, String))
    ensures
        ({
            let id = match case_id {
                Some(c) => c@,
                None => default_test_case(),
            };
            r.0@ == test_case_data(id).0 && r.1@ == test_case_data(id).1 && r.2@
                == test_case_data(id).2
        }),
{
    let id: &str = match case_id {
        Some(c) => c,
        None => "23-cr-00123",
    };
    let v = chars_of(id);
    if chars_eq_str(&v, "23-cr-00123") {
        (
            String::from_str("23-cr-00123"),
            String::from_str("John Doe, Jane Smith"),
            String::from_str("Hon. Sarah Johnson"),
        )
    } else if chars_eq_str(&v, "24-cr-00456") {
        (
            String::from_str("24-cr-00456"),
            String::from_str("Robert Brown"),
            String::from_str("Hon. Michael Davis"),
        )
    } else {
        (
            String::from_str(id),
            String::from_str("Unknown Defendant"),
            String::from_str("Hon. District Judge"),
        )
    }
}

/// The request a body holds, or 400 `Invalid request: {detail}` (as plain
/// text) for a body that does not parse; the PDF is then generated from
/// the names in the request and returned with 200.
pub fn working_request<T>(parsed: Result<T, String>) -> (r: Result<T, TextReply>)
    ensures
        parsed matches Ok(t) ==> r == Ok::<T, TextReply>(t),
        parsed matches Err(e) ==> (r matches Err(reply) && reply.status == 400 && reply.body@
            == "Invalid request: "@ + e@),
{
    match parsed {
        Ok(t) => Ok(t),
        Err(e) => Err(invalid_request(e.as_str())),
    }
}

/// The `Content-Disposition` of a court order generated from names:
/// named after its title with spaces replaced by underscores.
pub fn court_order_disposition(req: &GenerateOrderRequest) -> (s: String)
    ensures
        s@ == "inline; filename=\""@ + underscored(req.order_title@) + ".pdf\""@,
{
    order_disposition(req.order_title.as_str())
}

/// The `Content-Disposition` of a minute entry generated from names:
/// `inline; filename="Minute_Entry_{case}.pdf"`.
pub fn minute_entry_case_disposition(req: &GenerateMinuteEntryRequest) -> (s: String)
    ensures
        s@ == "inline; filename=\"Minute_Entry_"@ + req.case_number@ + ".pdf\""@,
{
    let mut s = String::from_str("inline; filename=\"Minute_Entry_");
    s.append(req.case_number.as_str());
    s.append(".pdf\"");
    s
}

/// The `Content-Disposition` of a Rule 16(b) order generated from names.
pub fn rule16b_case_disposition(req: &GenerateRule16bRequest) -> (s: String)
    ensures
        s@ == "inline; filename=\"Rule_16b_Order_"@ + req.case_number@ + ".pdf\""@,
{
    rule16b_disposition(req.case_number.as_str())
}

} // verus!
