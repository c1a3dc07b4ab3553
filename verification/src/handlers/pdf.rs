//! PDF documents generated from stored cases and judges: the lookups that
//! must succeed first, and how the generated file is named.
use vstd::prelude::*;
use crate::ids::{uuid_parse_str, parse_uuid};
use crate::parse::{signed_text, i64_text};

verus! {

/// Request for a Rule 16(b) scheduling order of a stored case.
pub struct GenerateRule16bRequest {
    pub case_id: String,
    pub judge_id: String,
}

/// Request for a court order of a stored case.
pub struct GenerateOrderRequest {
    pub case_id: String,
    pub judge_id: String,
    pub order_title: String,
    pub order_content: String,
}

/// Request for the minute entry of a docket entry of a stored case.
pub struct GenerateMinuteEntryRequest {
    pub case_id: String,
    pub docket_entry_number: i32,
    pub judge_id: String,
}

/// A plain-text error answer.
pub struct TextReply {
    pub status: u16,
    pub body: String,
}

/// The record a document is generated from.
pub enum Record {
    Case,
    Judge,
}

/// The message for a record that does not exist.
pub open spec fn not_found_text(what: Record) -> Seq<char> {
    match what {
        Record::Case => "Case not found"@,
        Record::Judge => "Judge not found"@,
    }
}

/// The message for a lookup that failed.
pub open spec fn fetch_error_text(what: Record, e: Seq<char>) -> Seq<char> {
    match what {
        Record::Case => "Error fetching case: "@ + e,
        Record::Judge => "Error fetching judge: "@ + e,
    }
}

/// The outcome of looking up a case or judge: the record, 404 when there is
/// none, 500 with the storage error otherwise.
pub fn fetched<T>(found: Result<Option<T>, String>, what: Record) -> (r: Result<T, TextReply>)
    ensures
        found matches Ok(Some(t)) ==> r == Ok::<T, TextReply>(t),
        found matches Ok(None) ==> (r matches Err(reply) && reply.status == 404 && reply.body@
            == not_found_text(what)),
        found matches Err(e) ==> (r matches Err(reply) && reply.status == 500 && reply.body@
            == fetch_error_text(what, e@)),
{
    match found {
        Ok(Some(t)) => Ok(t),
        Ok(None) => {
            let body = match what {
                Record::Case => String::from_str("Case not found"),
                Record::Judge => String::from_str("Judge not found"),
            };
            Err(TextReply { status: 404, body })
        },
        Err(e) => {
            let mut body = match what {
                Record::Case => String::from_str("Error fetching case: "),
                Record::Judge => String::from_str("Error fetching judge: "),
            };
            body.append(e.as_str());
            Err(TextReply { status: 500, body })
        },
    }
}

/// The judge of a request, which must be a UUID (400 `Invalid judge ID
/// format` otherwise).
pub fn requested_judge(judge_id: &str) -> (r: Result<u128, TextReply>)
    ensures
        match uuid_parse_str(judge_id@) {
            Some(u) => r == Ok::<u128, TextReply>(u),
            None => r matches Err(reply) && reply.status == 400 && reply.body@
                == "Invalid judge ID format"@,
        },
{
    match parse_uuid(judge_id) {
        Some(u) => Ok(u),
        None => Err(TextReply { status: 400, body: String::from_str("Invalid judge ID format") }),
    }
}

/// The judge assigned to a case, for a document generated from the case
/// alone: 404 when no judge is assigned, 400 when the stored ID is not a
/// UUID.
pub fn assigned_judge(assigned: Option<&str>) -> (r: Result<u128, TextReply>)
    ensures
        assigned is None ==> (r matches Err(reply) && reply.status == 404 && reply.body@
            == "No judge assigned to case"@),
        assigned matches Some(id) ==> match uuid_parse_str(id@) {
            Some(u) => r == Ok::<u128, TextReply>(u),
            None => r matches Err(reply) && reply.status == 400 && reply.body@
                == "Invalid judge ID format in case"@,
        },
{
    match assigned {
        None => Err(TextReply { status: 404, body: String::from_str("No judge assigned to case") }),
        Some(id) => match parse_uuid(id) {
            Some(u) => Ok(u),
            None => Err(
                TextReply { status: 400, body: String::from_str("Invalid judge ID format in case") },
            ),
        },
    }
}

/// Finds the docket entry a minute entry is generated for: the first entry
/// with the requested number.
pub fn find_docket_entry(numbers: &Vec<i32>, n: i32) -> (r: Option<usize>)
    ensures
        match r {
            Some(i) => i < numbers@.len() && numbers@[i as int] == n && forall|j: int|
                0 <= j < i ==> numbers@[j] != n,
            None => forall|j: int| 0 <= j < numbers@.len() ==> numbers@[j] != n,
        },
{
    let mut i: usize = 0;
    while i < numbers.len()
        invariant
            i <= numbers@.len(),
            forall|j: int| 0 <= j < i ==> numbers@[j] != n,
        decreases numbers.len() - i,
    {
        if numbers[i] == n {
            return Some(i);
        }
        i = i + 1;
    }
    None
}

/// The answer when the docket entries of the case could not be read.
pub fn docket_fetch_failed(e: &str) -> (r: TextReply)
    ensures
        r.status == 500,
        r.body@ == "Error fetching docket entries: "@ + e@,
{
    let mut body = String::from_str("Error fetching docket entries: ");
    body.append(e);
    TextReply { status: 500, body }
}

/// The answer when the case has no docket entry with the requested number.
pub fn docket_entry_missing() -> (r: TextReply)
    ensures
        r.status == 404,
        r.body@ == "Docket entry not found"@,
{
    TextReply { status: 404, body: String::from_str("Docket entry not found") }
}

/// A minute entry once its case was found: the docket entries of the case
/// are read (500 when they cannot be), the entry with the requested number
/// is found (404 when there is none), then the requested judge ID is read
/// (400 when it is not a UUID). The result is the index of the entry in
/// `entries` and the judge to look up.
pub fn minute_entry_sources(entries: Result<Vec<i32>, String>, entry_number: i32, judge_id: &str) -> (r:
    Result<(usize, u128), TextReply>)
    ensures
        entries matches Err(e) ==> (r matches Err(reply) && reply.status == 500 && reply.body@
            == "Error fetching docket entries: "@ + e@),
        entries matches Ok(v) ==> (forall|j: int| 0 <= j < v@.len() ==> v@[j] != entry_number) ==> (
        r matches Err(reply) && reply.status == 404 && reply.body@ == "Docket entry not found"@),
        entries matches Ok(v) ==> (exists|j: int| 0 <= j < v@.len() && v@[j] == entry_number) ==> match uuid_parse_str(judge_id@) {
            None => r matches Err(reply) && reply.status == 400 && reply.body@
                == "Invalid judge ID format"@,
            Some(u) => r matches Ok((i, judge)) && judge == u && i < v@.len() && v@[i as int]
                == entry_number && forall|j: int| 0 <= j < i ==> v@[j] != entry_number,
        },
{
    let numbers = match entries {
        Err(e) => {
            return Err(docket_fetch_failed(e.as_str()));
        },
        Ok(v) => v,
    };
    let i = match find_docket_entry(&numbers, entry_number) {
        None => {
            return Err(docket_entry_missing());
        },
        Some(i) => i,
    };
    match requested_judge(judge_id) {
        Ok(u) => Ok((i, u)),
        Err(reply) => Err(reply),
    }
}

/// The answer to a body that is not the expected JSON.
pub fn invalid_request(e: &str) -> (r: TextReply)
    ensures
        r.status == 400,
        r.body@ == "Invalid request: "@ + e@,
{
    let mut body = String::from_str("Invalid request: ");
    body.append(e);
    TextReply { status: 400, body }
}

/// The `Content-Disposition` of a Rule 16(b) order:
/// `inline; filename="Rule_16b_Order_{case}.pdf"`.
pub fn rule16b_disposition(case_number: &str) -> (s: String)
    ensures
        s@ == "inline; filename=\"Rule_16b_Order_"@ + case_number@ + ".pdf\""@,
{
    let mut s = String::from_str("inline; filename=\"Rule_16b_Order_");
    s.append(case_number);
    s.append(".pdf\"");
    s
}

/// A title with every space replaced by an underscore.
pub open spec fn underscored(t: Seq<char>) -> Seq<char> {
    Seq::new(t.len(), |i: int| if t[i] == ' ' { '_' } else { t[i] })
}

/// The `Content-Disposition` of a court order, named after its title with
/// spaces replaced by underscores: `inline; filename="{title}.pdf"`.
pub fn order_disposition(title: &str) -> (s: String)
    ensures
        s@ == "inline; filename=\""@ + underscored(title@) + ".pdf\""@,
{
    let t = crate::text::chars_of(title);
    let mut v: Vec<char> = Vec::new();
    let mut i: usize = 0;
    while i < t.len()
        invariant
            i <= t@.len(),
            v@ == underscored(t@).take(i as int),
        decreases t.len() - i,
    {
        let c = t[i];
        v.push(if c == ' ' { '_' } else { c });
        i = i + 1;
        assert(v@ =~= underscored(t@).take(i as int));
    }
    assert(v@ =~= underscored(title@));
    let name = crate::text::string_from_chars(&v);
    let mut s = String::from_str("inline; filename=\"");
    s.append(name.as_str());
    s.append(".pdf\"");
    s
}

/// The `Content-Disposition` of a minute entry:
/// `inline; filename="Minute_Entry_{case}_{entry}.pdf"`.
pub fn minute_entry_disposition(case_number: &str, entry_number: i32) -> (s: String)
    ensures
        s@ == "inline; filename=\"Minute_Entry_"@ + case_number@ + "_"@ + signed_text(
            entry_number as int,
        ) + ".pdf\""@,
{
    let mut s = String::from_str("inline; filename=\"Minute_Entry_");
    s.append(case_number);
    s.append("_");
    let n = i64_text(entry_number as i64);
    s.append(n.as_str());
    s.append(".pdf\"");
    s
}

/// The docket text of a Rule 16(b) order generated from a case alone.
pub open spec fn auto_rule16b_docket_text() -> Seq<char> {
    "Scheduling Order pursuant to Fed. R. Crim. P. 16(b) (Auto-generated by CM/ECF)"@
}

/// The docket entry recorded for a Rule 16(b) order generated from a case
/// alone: its text and the filer, the Clerk of Court.
pub fn auto_rule16b_docket_entry() -> (r: (String, String))
    ensures
        r.0@ == auto_rule16b_docket_text(),
        r.1@ == "Clerk of Court"@,
{
    (
        String::from_str(
            "Scheduling Order pursuant to Fed. R. Crim. P. 16(b) (Auto-generated by CM/ECF)",
        ),
        String::from_str("Clerk of Court"),
    )
}

/// The kind of the docket entry an automatic Rule 16(b) order records.
pub enum DocketEntryKind {
    Order,
}

/// The status a case is given once its Rule 16(b) order is generated.
pub enum CaseStatusUpdate {
    Active,
}

/// What generating a Rule 16(b) order from a case alone records besides
/// the reply: an order docket entry on the case, filed by the Clerk of
/// Court, and the case made active.
pub struct AutoRule16bRecord {
    pub case_id: String,
    pub entry_type: DocketEntryKind,
    pub docket_text: String,
    pub filed_by: String,
    pub case_status: CaseStatusUpdate,
}

/// The records an automatic Rule 16(b) order of the case `case_id` writes.
pub fn auto_rule16b_record(case_id: &str) -> (r: AutoRule16bRecord)
    ensures
        r.case_id@ == case_id@,
        r.entry_type is Order,
        r.docket_text@ == auto_rule16b_docket_text(),
        r.filed_by@ == "Clerk of Court"@,
        r.case_status is Active,
{
    let (text, filer) = auto_rule16b_docket_entry();
    AutoRule16bRecord {
        case_id: String::from_str(case_id),
        entry_type: DocketEntryKind::Order,
        docket_text: text,
        filed_by: filer,
        case_status: CaseStatusUpdate::Active,
    }
}

/// The reply to an automatic Rule 16(b) order: the generated PDF, inline,
/// named after the case number. Recording the docket entry and saving the
/// case status are attempted first; a failure of either is only logged and
/// leaves the reply as it is.
pub fn auto_rule16b_reply(
    case_number: &str,
    pdf: Vec<u8>,
    docket_written: Result<(), String>,
    case_saved: Result<(), String>,
) -> (r: (String, Vec<u8>))
    ensures
        r.0@ == "inline; filename=\"Rule_16b_Order_"@ + case_number@ + ".pdf\""@,
        r.1 == pdf,
{
    let _ = docket_written;
    let _ = case_saved;
    (rule16b_disposition(case_number), pdf)
}

} // verus!
