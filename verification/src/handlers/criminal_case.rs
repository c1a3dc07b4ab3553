//! Criminal case management: request models, query parsing and the checks
//! that run before a case is read or changed.
use vstd::prelude::*;
use crate::error::{ApiError, is_bad_request, is_not_found, is_internal, bad_request, not_found, internal};
use crate::time::{Instant, rfc3339_instant, parse_rfc3339, parse_optional_rfc3339, rfc3339_text, format_rfc3339};
use crate::ids::{uuid_parse_str, parse_uuid, require_uuid, uuid_text, uuid_to_string};
use crate::parse::{
    parse_unsigned, parse_bool_spec, parse_usize_chars, parse_bool_chars, decimal_text, lemma_decimal_text_reads_back,
    lemma_parse_unsigned_of_text,
};
use crate::text::{
    is_blank, is_blank_str, split_on, split_once, eq_ignore_ascii_case, chars_of, split_chars,
    split_once_chars, chars_eq_str, chars_eq_ignore_ascii_case, string_from_chars, contains_seq, chars_contains,
    lowercase_text, to_lowercase, lemma_split_on_no_sep, lemma_split_on_concat, lemma_split_once_at,
};

verus! {

/// Request model for creating a new case. Enumerated fields hold their wire
/// names.
pub struct CreateCaseRequest {
    pub title: String,
    pub description: String,
    pub crime_type: String,
    pub district_code: String,
    pub assigned_judge_id: Option<u128>,
    pub judge_initials: String,
    pub location: String,
}

/// The judge initials used when a new case names none.
pub fn default_judge_initials() -> (s: String)
    ensures
        s@ == "UNK"@,
{
    String::from_str("UNK")
}

/// Fails with a bad-request error carrying `msg` when `s` is blank.
pub fn require_not_blank(s: &str, msg: &str) -> (r: Result<(), ApiError>)
    ensures
        is_blank(s@) ==> (r matches Err(e) && is_bad_request(e, msg@)),
        !is_blank(s@) ==> r is Ok,
{
    if is_blank_str(s) {
        Err(bad_request(msg))
    } else {
        Ok(())
    }
}

/// Checks a new case: it needs a title and a district code.
pub fn validate_create_case(req: &CreateCaseRequest) -> (r: Result<(), ApiError>)
    ensures
        is_blank(req.title@) ==> (r matches Err(e) && is_bad_request(
            e,
            "Case title cannot be empty"@,
        )),
        !is_blank(req.title@) && is_blank(req.district_code@) ==> (r matches Err(e)
            && is_bad_request(e, "District code is required"@)),
        !is_blank(req.title@) && !is_blank(req.district_code@) ==> r is Ok,
{
    require_not_blank(req.title.as_str(), "Case title cannot be empty")?;
    require_not_blank(req.district_code.as_str(), "District code is required")
}

/// Whether the pairs of a query string switch the compliance check on: the
/// first pair whose key is `compliance` and that has a value decides, by
/// that value being `true` in any letter case.
pub open spec fn compliance_in(pairs: Seq<Seq<char>>) -> bool
    decreases pairs.len(),
{
    if pairs.len() == 0 {
        false
    } else {
        let (k, v) = split_once(pairs[0], '=');
        if v is Some && k == "compliance"@ {
            eq_ignore_ascii_case(v->0, "true"@)
        } else {
            compliance_in(pairs.drop_first())
        }
    }
}

/// The `?compliance=true` flag of a query string.
pub open spec fn compliance_flag(query: Seq<char>) -> bool {
    compliance_in(split_on(query, '&'))
}

/// Parses the `?compliance=true` query parameter.
pub fn parse_compliance_flag(query: &str) -> (b: bool)
    ensures
        b == compliance_flag(query@),
{
    let q = chars_of(query);
    let pairs = split_chars(&q, '&');
    let ghost model = split_on(query@, '&');
    let mut i: usize = 0;
    assert(model.skip(0) =~= model);
    while i < pairs.len()
        invariant
            model == split_on(query@, '&'),
            pairs@.len() == model.len(),
            forall|k: int| 0 <= k < pairs@.len() ==> #[trigger] pairs@[k]@ == model[k],
            i <= pairs.len(),
            compliance_in(model) == compliance_in(model.skip(i as int)),
        decreases pairs.len() - i,
    {
        let (k, v) = split_once_chars(&pairs[i], '=');
        proof {
            assert(model.skip(i as int)[0] == model[i as int]);
            assert(model.skip(i as int).drop_first() =~= model.skip(i + 1));
        }
        match v {
            Some(val) => {
                if chars_eq_str(&k, "compliance") {
                    let t = chars_of("true");
                    let b = chars_eq_ignore_ascii_case(&val, &t);
                    proof {
                        let rest = model.skip(i as int);
                        assert(rest[0] == model[i as int]);
                        assert(split_once(rest[0], '=').0 == "compliance"@);
                        assert(compliance_in(rest) == eq_ignore_ascii_case(
                            split_once(rest[0], '=').1->0,
                            "true"@,
                        ));
                    }
                    return b;
                }
            },
            None => {},
        }
        i = i + 1;
    }
    proof {
        assert(model.skip(i as int).len() == 0);
    }
    false
}

/// Filters and paging for a case search. Status and priority hold their
/// wire names.
pub struct CaseQuery {
    pub status: Option<String>,
    pub priority: Option<String>,
    pub judge_id: Option<u128>,
    pub is_active: Option<bool>,
    pub offset: usize,
    pub limit: usize,
}

/// The mathematical content of a [`CaseQuery`].
pub struct CaseQueryModel {
    pub status: Option<Seq<char>>,
    pub priority: Option<Seq<char>>,
    pub judge_id: Option<u128>,
    pub is_active: Option<bool>,
    pub offset: int,
    pub limit: int,
}

impl View for CaseQuery {
    type V = CaseQueryModel;

    open spec fn view(&self) -> CaseQueryModel {
        CaseQueryModel {
            status: match self.status {
                Some(s) => Some(s@),
                None => None,
            },
            priority: match self.priority {
                Some(s) => Some(s@),
                None => None,
            },
            judge_id: self.judge_id,
            is_active: self.is_active,
            offset: self.offset as int,
            limit: self.limit as int,
        }
    }
}

/// The most cases a page may hold.
pub open spec fn max_page_size() -> int {
    100
}

/// The state of a case search while its query string is read: `offset`
/// counts the pages before the requested one (`page - 1`) until reading
/// ends, when it becomes the number of cases to skip.
pub open spec fn initial_case_query() -> CaseQueryModel {
    CaseQueryModel {
        status: None,
        priority: None,
        judge_id: None,
        is_active: None,
        offset: 0,
        limit: 20,
    }
}

/// The effect of one `key=value` pair on a case search being read, or the
/// message of the bad-request error it raises. Pairs without `=` or with an
/// empty value, and unknown keys, change nothing. A page number is at least
/// 1; a page size is between 1 and 100.
pub open spec fn apply_case_pair(q: CaseQueryModel, pair: Seq<char>) -> Result<
    CaseQueryModel,
    Seq<char>,
> {
    let (k, v) = split_once(pair, '=');
    if v is None || v->0.len() == 0 {
        Ok(q)
    } else {
        let val = v->0;
        if k == "status"@ {
            Ok(CaseQueryModel { status: Some(val), ..q })
        } else if k == "priority"@ {
            Ok(CaseQueryModel { priority: Some(val), ..q })
        } else if k == "judge"@ {
            match uuid_parse_str(val) {
                Some(u) => Ok(CaseQueryModel { judge_id: Some(u), ..q }),
                None => Err("Invalid judge ID format"@),
            }
        } else if k == "active"@ {
            match parse_bool_spec(val) {
                Some(b) => Ok(CaseQueryModel { is_active: Some(b), ..q }),
                None => Err("Invalid active value"@),
            }
        } else if k == "page"@ {
            match parse_unsigned(val, usize::MAX as nat) {
                Some(p) => if p >= 1 {
                    Ok(CaseQueryModel { offset: p - 1, ..q })
                } else {
                    Err("Invalid page number"@)
                },
                None => Err("Invalid page number"@),
            }
        } else if k == "limit"@ {
            match parse_unsigned(val, usize::MAX as nat) {
                Some(l) => if 1 <= l <= max_page_size() {
                    Ok(CaseQueryModel { limit: l as int, ..q })
                } else {
                    Err("Invalid limit value"@)
                },
                None => Err("Invalid limit value"@),
            }
        } else {
            Ok(q)
        }
    }
}

/// Applies the pairs of a query string in order, stopping at the first
/// error.
pub open spec fn case_query_fold(q: CaseQueryModel, pairs: Seq<Seq<char>>) -> Result<
    CaseQueryModel,
    Seq<char>,
>
    decreases pairs.len(),
{
    if pairs.len() == 0 {
        Ok(q)
    } else {
        match apply_case_pair(q, pairs[0]) {
            Ok(q2) => case_query_fold(q2, pairs.drop_first()),
            Err(m) => Err(m),
        }
    }
}

/// The case query a query string describes, or the message of the
/// bad-request error it raises. The offset is `(page - 1) * limit` with the
/// page size finally given, whatever the order of `page` and `limit`; a
/// page whose offset is beyond `usize` is an invalid page number.
pub open spec fn case_query_spec(query: Seq<char>) -> Result<CaseQueryModel, Seq<char>> {
    match case_query_fold(initial_case_query(), split_on(query, '&')) {
        Ok(q) => if q.offset * q.limit <= usize::MAX {
            Ok(CaseQueryModel { offset: q.offset * q.limit, ..q })
        } else {
            Err("Invalid page number"@)
        },
        Err(m) => Err(m),
    }
}

/// Applies one `key=value` pair to a case search being read.
fn apply_case_pair_exec(cq: &mut CaseQuery, pair: &Vec<char>) -> (r: Result<(), ApiError>)
    ensures
        match apply_case_pair(old(cq)@, pair@) {
            Ok(m) => r is Ok && final(cq)@ == m,
            Err(msg) => r matches Err(e) && is_bad_request(e, msg),
        },
{
    let (k, v) = split_once_chars(pair, '=');
    match v {
        None => Ok(()),
        Some(val) => {
            if val.len() == 0 {
                Ok(())
            } else if chars_eq_str(&k, "status") {
                cq.status = Some(string_from_chars(&val));
                Ok(())
            } else if chars_eq_str(&k, "priority") {
                cq.priority = Some(string_from_chars(&val));
                Ok(())
            } else if chars_eq_str(&k, "judge") {
                let text = string_from_chars(&val);
                match parse_uuid(text.as_str()) {
                    Some(u) => {
                        cq.judge_id = Some(u);
                        Ok(())
                    },
                    None => Err(bad_request("Invalid judge ID format")),
                }
            } else if chars_eq_str(&k, "active") {
                match parse_bool_chars(&val) {
                    Some(b) => {
                        cq.is_active = Some(b);
                        Ok(())
                    },
                    None => Err(bad_request("Invalid active value")),
                }
            } else if chars_eq_str(&k, "page") {
                match parse_usize_chars(&val) {
                    Some(p) => {
                        if p >= 1 {
                            cq.offset = p - 1;
                            Ok(())
                        } else {
                            Err(bad_request("Invalid page number"))
                        }
                    },
                    None => Err(bad_request("Invalid page number")),
                }
            } else if chars_eq_str(&k, "limit") {
                match parse_usize_chars(&val) {
                    Some(l) => {
                        if 1 <= l && l <= 100 {
                            cq.limit = l;
                            Ok(())
                        } else {
                            Err(bad_request("Invalid limit value"))
                        }
                    },
                    None => Err(bad_request("Invalid limit value")),
                }
            } else {
                Ok(())
            }
        },
    }
}

/// Parses the query string of a case search (`status`, `priority`, `judge`,
/// `active`, `page`, `limit`). Pairs are read in order and the first one
/// refused decides the error; the offset is computed from the page and the
/// page size once all pairs are read.
pub fn parse_case_query(query: &str) -> (r: Result<CaseQuery, ApiError>)
    ensures
        match case_query_spec(query@) {
            Ok(m) => r matches Ok(q) && q@ == m,
            Err(msg) => r matches Err(e) && is_bad_request(e, msg),
        },
{
    let q = chars_of(query);
    let pairs = split_chars(&q, '&');
    let ghost model = split_on(query@, '&');
    let mut cq = CaseQuery {
        status: None,
        priority: None,
        judge_id: None,
        is_active: None,
        offset: 0,
        limit: 20,
    };
    let mut i: usize = 0;
    assert(model.skip(0) =~= model);
    while i < pairs.len()
        invariant
            model == split_on(query@, '&'),
            pairs@.len() == model.len(),
            forall|k: int| 0 <= k < pairs@.len() ==> #[trigger] pairs@[k]@ == model[k],
            i <= pairs.len(),
            case_query_fold(initial_case_query(), model) == case_query_fold(cq@, model.skip(i as int)),
        decreases pairs.len() - i,
    {
        let ghost rest = model.skip(i as int);
        proof {
            assert(rest[0] == model[i as int]);
            assert(rest.drop_first() =~= model.skip(i + 1));
        }
        apply_case_pair_exec(&mut cq, &pairs[i])?;
        i = i + 1;
    }
    proof {
        assert(model.skip(i as int).len() == 0);
    }
    match cq.offset.checked_mul(cq.limit) {
        Some(o) => {
            cq.offset = o;
            Ok(cq)
        },
        None => Err(bad_request("Invalid page number")),
    }
}

/// Reads the case id of a path whose handlers report a missing parameter as
/// an internal error and a malformed one through the UUID error conversion.
pub fn case_id_strict(id: Option<&str>) -> (r: Result<u128, ApiError>)
    ensures
        id is None ==> (r matches Err(e) && is_internal(e, "Missing path parameter 'id'"@)),
        id matches Some(s) ==> match uuid_parse_str(s@) {
            Some(u) => r == Ok::<u128, ApiError>(u),
            None => r matches Err(e) && e is InvalidUuid,
        },
{
    require_uuid(
        id,
        internal("Missing path parameter 'id'"),
        ApiError::InvalidUuid,
    )
}

/// Reads the case id of a path whose handlers report both a missing and a
/// malformed id as bad requests.
pub fn case_id_lenient(id: Option<&str>) -> (r: Result<u128, ApiError>)
    ensures
        id is None ==> (r matches Err(e) && is_bad_request(e, "Missing case ID"@)),
        id matches Some(s) ==> match uuid_parse_str(s@) {
            Some(u) => r == Ok::<u128, ApiError>(u),
            None => r matches Err(e) && is_bad_request(e, "Invalid case ID format"@),
        },
{
    require_uuid(id, bad_request("Missing case ID"), bad_request("Invalid case ID format"))
}

/// Reads the judge id of a by-judge listing, taken from `judge_id` or else
/// `judge`.
pub fn judge_id_param(judge_id: Option<&str>, judge: Option<&str>) -> (r: Result<u128, ApiError>)
    ensures
        ({
            let p = if judge_id is Some {
                judge_id
            } else {
                judge
            };
            match p {
                None => r matches Err(e) && is_internal(
                    e,
                    "Missing path parameter 'judge_id'"@,
                ),
                Some(s) => match uuid_parse_str(s@) {
                    Some(u) => r == Ok::<u128, ApiError>(u),
                    None => r matches Err(e) && is_bad_request(e, "Invalid judge ID format"@),
                },
            }
        }),
{
    let p = match judge_id {
        Some(s) => Some(s),
        None => judge,
    };
    require_uuid(
        p,
        internal("Missing path parameter 'judge_id'"),
        bad_request("Invalid judge ID format"),
    )
}

/// The `location` header of a newly created case: `/api/cases/{id}`.
pub fn case_location(id: u128) -> (s: String)
    ensures
        s@ == "/api/cases/"@ + uuid_text(id),
{
    let mut s = String::from_str("/api/cases/");
    let t = uuid_to_string(id);
    s.append(t.as_str());
    s
}

/// Request to add a defendant.
pub struct AddDefendantRequest {
    pub name: String,
    pub aliases: Vec<String>,
    pub usm_number: Option<String>,
    pub fbi_number: Option<String>,
}

/// Checks a defendant to add: it needs a name.
pub fn validate_add_defendant(req: &AddDefendantRequest) -> (r: Result<(), ApiError>)
    ensures
        is_blank(req.name@) ==> (r matches Err(e) && is_bad_request(
            e,
            "Defendant name cannot be empty"@,
        )),
        !is_blank(req.name@) ==> r is Ok,
{
    require_not_blank(req.name.as_str(), "Defendant name cannot be empty")
}

/// Request to add evidence; the evidence type holds its wire name.
pub struct AddEvidenceRequest {
    pub description: String,
    pub evidence_type: Option<String>,
}

/// Checks evidence to add: it needs a description.
pub fn validate_add_evidence(req: &AddEvidenceRequest) -> (r: Result<(), ApiError>)
    ensures
        is_blank(req.description@) ==> (r matches Err(e) && is_bad_request(
            e,
            "Evidence description cannot be empty"@,
        )),
        !is_blank(req.description@) ==> r is Ok,
{
    require_not_blank(req.description.as_str(), "Evidence description cannot be empty")
}

/// Request to add a note.
pub struct AddNoteRequest {
    pub content: String,
    pub author: String,
}

/// Checks a note to add: it needs content.
pub fn validate_add_note(req: &AddNoteRequest) -> (r: Result<(), ApiError>)
    ensures
        is_blank(req.content@) ==> (r matches Err(e) && is_bad_request(
            e,
            "Note content cannot be empty"@,
        )),
        !is_blank(req.content@) ==> r is Ok,
{
    require_not_blank(req.content.as_str(), "Note content cannot be empty")
}

/// Request to update a case's status (wire name of the status).
pub struct UpdateStatusRequest {
    pub status: String,
}

/// Request to update a case's priority (wire name of the priority).
pub struct UpdatePriorityRequest {
    pub priority: String,
}

/// Response for count queries.
pub struct CountResponse {
    pub count: usize,
}

/// Request to file a motion; the motion type holds its wire name.
pub struct FileMotionRequest {
    pub motion_type: String,
    pub filed_by: String,
    pub description: String,
}

/// Request to add a count to a defendant.
pub struct AddChargeRequest {
    pub count_number: u32,
    pub statute: String,
    pub offense_description: String,
    pub statutory_max_months: Option<u32>,
    pub statutory_min_months: Option<u32>,
}

/// Request to record a transfer in an evidence item's chain of custody; the
/// condition holds its wire name.
pub struct AddCustodyTransferRequest {
    pub transferred_from: String,
    pub transferred_to: String,
    pub location: String,
    pub condition: String,
    pub notes: Option<String>,
}

/// Checks a custody transfer: both ends must be named.
pub fn validate_custody_transfer(req: &AddCustodyTransferRequest) -> (r: Result<(), ApiError>)
    ensures
        is_blank(req.transferred_from@) ==> (r matches Err(e) && is_bad_request(
            e,
            "Transferred from cannot be empty"@,
        )),
        !is_blank(req.transferred_from@) && is_blank(req.transferred_to@) ==> (r matches Err(e)
            && is_bad_request(e, "Transferred to cannot be empty"@)),
        !is_blank(req.transferred_from@) && !is_blank(req.transferred_to@) ==> r is Ok,
{
    require_not_blank(req.transferred_from.as_str(), "Transferred from cannot be empty")?;
    require_not_blank(req.transferred_to.as_str(), "Transferred to cannot be empty")
}

/// Reads the evidence id of a custody transfer path.
pub fn evidence_id_param(id: Option<&str>) -> (r: Result<u128, ApiError>)
    ensures
        id is None ==> (r matches Err(e) && is_bad_request(e, "Missing evidence ID"@)),
        id matches Some(s) ==> match uuid_parse_str(s@) {
            Some(u) => r == Ok::<u128, ApiError>(u),
            None => r matches Err(e) && is_bad_request(e, "Invalid evidence ID format"@),
        },
{
    require_uuid(id, bad_request("Missing evidence ID"), bad_request("Invalid evidence ID format"))
}

/// Reads the defendant id of a charge path.
pub fn defendant_id_param(id: Option<&str>) -> (r: Result<u128, ApiError>)
    ensures
        id is None ==> (r matches Err(e) && is_bad_request(e, "Missing defendant ID"@)),
        id matches Some(s) ==> match uuid_parse_str(s@) {
            Some(u) => r == Ok::<u128, ApiError>(u),
            None => r matches Err(e) && is_bad_request(e, "Invalid defendant ID format"@),
        },
{
    require_uuid(
        id,
        bad_request("Missing defendant ID"),
        bad_request("Invalid defendant ID format"),
    )
}

/// Reads the victim id of a notification path.
pub fn victim_id_param(id: Option<&str>) -> (r: Result<u128, ApiError>)
    ensures
        id is None ==> (r matches Err(e) && is_bad_request(e, "Missing victim ID"@)),
        id matches Some(s) ==> match uuid_parse_str(s@) {
            Some(u) => r == Ok::<u128, ApiError>(u),
            None => r matches Err(e) && is_bad_request(e, "Invalid victim ID format"@),
        },
{
    require_uuid(id, bad_request("Missing victim ID"), bad_request("Invalid victim ID format"))
}

/// Request to add a docket entry; the entry type holds its wire name.
pub struct AddDocketEntryRequest {
    pub entry_type: String,
    pub description: String,
    pub filed_by: Option<String>,
}

/// Checks a docket entry to add: it needs a description.
pub fn validate_add_docket_entry(req: &AddDocketEntryRequest) -> (r: Result<(), ApiError>)
    ensures
        is_blank(req.description@) ==> (r matches Err(e) && is_bad_request(
            e,
            "Docket entry description cannot be empty"@,
        )),
        !is_blank(req.description@) ==> r is Ok,
{
    require_not_blank(req.description.as_str(), "Docket entry description cannot be empty")
}

/// Request to seal a case.
pub struct SealCaseRequest {
    pub reason: String,
    pub sealed_by: String,
}

/// Checks a seal request: it needs a reason and who seals.
pub fn validate_seal_case(req: &SealCaseRequest) -> (r: Result<(), ApiError>)
    ensures
        is_blank(req.reason@) ==> (r matches Err(e) && is_bad_request(
            e,
            "Seal reason cannot be empty"@,
        )),
        !is_blank(req.reason@) && is_blank(req.sealed_by@) ==> (r matches Err(e)
            && is_bad_request(e, "Sealed by cannot be empty"@)),
        !is_blank(req.reason@) && !is_blank(req.sealed_by@) ==> r is Ok,
{
    require_not_blank(req.reason.as_str(), "Seal reason cannot be empty")?;
    require_not_blank(req.sealed_by.as_str(), "Sealed by cannot be empty")
}

/// Request to unseal a case.
pub struct UnsealCaseRequest {
    pub reason: String,
    pub unsealed_by: String,
    pub court_order_id: Option<String>,
}

/// Response model for the speedy trial clock of a case.
pub struct SpeedyTrialStatusResponse {
    pub days_elapsed: i64,
    pub days_remaining: i64,
    pub is_tolled: bool,
    pub waived: bool,
    pub trial_start_deadline: String,
    pub excludable_delays_count: usize,
}

/// Request to start the speedy trial clock; dates are RFC 3339 texts.
pub struct StartSpeedyTrialRequest {
    pub arrest_date: Option<String>,
    pub indictment_date: Option<String>,
    pub arraignment_date: Option<String>,
}

/// The arrest, indictment and arraignment dates of a clock start.
pub struct SpeedyTrialDates {
    pub arrest: Option<Instant>,
    pub indictment: Option<Instant>,
    pub arraignment: Option<Instant>,
}

/// The instant an optional RFC 3339 text denotes: absent stays absent, a
/// rejected text is an error.
pub open spec fn optional_instant(s: Option<String>) -> Result<Option<Instant>, ()> {
    match s {
        None => Ok(None),
        Some(t) => match rfc3339_instant(t@) {
            Some(i) => Ok(Some(i)),
            None => Err(()),
        },
    }
}

fn opt_str(s: &Option<String>) -> (r: Option<&str>)
    ensures
        s is None ==> r is None,
        s matches Some(t) ==> (r matches Some(u) && u@ == t@),
{
    match s {
        Some(t) => Some(t.as_str()),
        None => None,
    }
}

/// Reads the dates of a clock start, in the order arrest, indictment,
/// arraignment; the first that does not parse decides the error.
pub fn parse_speedy_trial_dates(req: &StartSpeedyTrialRequest) -> (r: Result<
    SpeedyTrialDates,
    ApiError,
>)
    ensures
        optional_instant(req.arrest_date) is Err ==> (r matches Err(e) && is_bad_request(
            e,
            "Invalid arrest date format"@,
        )),
        optional_instant(req.arrest_date) is Ok && optional_instant(req.indictment_date) is Err
            ==> (r matches Err(e) && is_bad_request(e, "Invalid indictment date format"@)),
        optional_instant(req.arrest_date) is Ok && optional_instant(req.indictment_date) is Ok
            && optional_instant(req.arraignment_date) is Err ==> (r matches Err(e)
            && is_bad_request(e, "Invalid arraignment date format"@)),
        optional_instant(req.arrest_date) is Ok && optional_instant(req.indictment_date) is Ok
            && optional_instant(req.arraignment_date) is Ok ==> (r matches Ok(d) && Ok::<
            Option<Instant>,
            (),
        >(d.arrest) == optional_instant(req.arrest_date) && Ok::<Option<Instant>, ()>(
            d.indictment,
        ) == optional_instant(req.indictment_date) && Ok::<Option<Instant>, ()>(d.arraignment)
            == optional_instant(req.arraignment_date)),
{
    let arrest = match parse_optional_rfc3339(opt_str(&req.arrest_date)) {
        Ok(d) => d,
        Err(_) => return Err(bad_request("Invalid arrest date format")),
    };
    let indictment = match parse_optional_rfc3339(opt_str(&req.indictment_date)) {
        Ok(d) => d,
        Err(_) => return Err(bad_request("Invalid indictment date format")),
    };
    let arraignment = match parse_optional_rfc3339(opt_str(&req.arraignment_date)) {
        Ok(d) => d,
        Err(_) => return Err(bad_request("Invalid arraignment date format")),
    };
    Ok(SpeedyTrialDates { arrest, indictment, arraignment })
}

/// Request to add an excludable delay to a case's speedy trial clock; the
/// reason holds its wire name and dates are RFC 3339 texts.
pub struct AddCaseExcludableDelayRequest {
    pub start_date: String,
    pub end_date: Option<String>,
    pub reason: String,
    pub statutory_reference: String,
    pub days_excluded: i64,
    pub order_reference: Option<String>,
}

/// Reads the start and end of an excludable delay: the start is required,
/// the end optional.
pub fn parse_excludable_delay_dates(req: &AddCaseExcludableDelayRequest) -> (r: Result<
    (Instant, Option<Instant>),
    ApiError,
>)
    ensures
        rfc3339_instant(req.start_date@) is None ==> (r matches Err(e) && is_bad_request(
            e,
            "Invalid start date format"@,
        )),
        rfc3339_instant(req.start_date@) is Some && optional_instant(req.end_date) is Err ==> (r matches Err(e)
            && is_bad_request(e, "Invalid end date format"@)),
        rfc3339_instant(req.start_date@) is Some && optional_instant(req.end_date) is Ok ==> (r matches Ok(
            (s, e),
        ) && Some(s) == rfc3339_instant(req.start_date@) && Ok::<Option<Instant>, ()>(e)
            == optional_instant(req.end_date)),
{
    let start = match parse_rfc3339(req.start_date.as_str()) {
        Some(d) => d,
        None => return Err(bad_request("Invalid start date format")),
    };
    let end = match parse_optional_rfc3339(opt_str(&req.end_date)) {
        Ok(d) => d,
        Err(_) => return Err(bad_request("Invalid end date format")),
    };
    Ok((start, end))
}

/// Kinds of CVRA victim; kinds other than an individual keep their wire
/// name.
pub enum VictimType {
    Individual,
    Other(String),
}

/// Ways of notifying a victim; methods other than e-mail keep their wire
/// name.
pub enum NotificationMethod {
    Email,
    Other(String),
}

/// The victim type used when a request names none.
pub fn default_victim_type() -> (t: VictimType)
    ensures
        t is Individual,
{
    VictimType::Individual
}

/// The notification method used when a request names none.
pub fn default_notification_method() -> (m: NotificationMethod)
    ensures
        m is Email,
{
    NotificationMethod::Email
}

/// Request to add a victim to a case.
pub struct AddVictimRequest {
    pub name: String,
    pub victim_type: VictimType,
    pub preferred_method: NotificationMethod,
    pub email: Option<String>,
    pub phone: Option<String>,
    pub mailing_address: Option<String>,
    pub victim_advocate: Option<String>,
}

/// Checks a victim to add: it needs a name.
pub fn validate_add_victim(req: &AddVictimRequest) -> (r: Result<(), ApiError>)
    ensures
        is_blank(req.name@) ==> (r matches Err(e) && is_bad_request(
            e,
            "Victim name cannot be empty"@,
        )),
        !is_blank(req.name@) ==> r is Ok,
{
    require_not_blank(req.name.as_str(), "Victim name cannot be empty")
}

/// Request to notify a victim; the notification type holds its wire name.
pub struct SendVictimNotificationRequest {
    pub notification_type: String,
    pub content_summary: String,
}

/// Turns the refusal of a victim notification into an error: a message that
/// says something was not found is a not-found error, any other a bad
/// request.
pub fn classify_notification_error(msg: String) -> (e: ApiError)
    ensures
        contains_seq(msg@, "not found"@) ==> is_not_found(e, msg@),
        !contains_seq(msg@, "not found"@) ==> is_bad_request(e, msg@),
{
    let hay = chars_of(msg.as_str());
    let needle = chars_of("not found");
    if chars_contains(&hay, &needle) {
        ApiError::NotFound(msg)
    } else {
        ApiError::BadRequest(msg)
    }
}

/// How a missing case is reported: most handlers say `Case with id {id}
/// not found`, some `Case {id} not found`.
pub enum CaseMissingStyle {
    WithId,
    Plain,
}

/// The message for a case that does not exist.
pub open spec fn case_missing_message(style: CaseMissingStyle, id: u128) -> Seq<char> {
    match style {
        CaseMissingStyle::WithId => "Case with id "@ + uuid_text(id) + " not found"@,
        CaseMissingStyle::Plain => "Case "@ + uuid_text(id) + " not found"@,
    }
}

/// A case that must exist, reported by its ID when it does not.
pub fn case_found<T>(found: Option<T>, id: u128, style: CaseMissingStyle) -> (r: Result<T, ApiError>)
    ensures
        found matches Some(t) ==> r == Ok::<T, ApiError>(t),
        found is None ==> (r matches Err(e) && is_not_found(e, case_missing_message(style, id))),
{
    match found {
        Some(t) => Ok(t),
        None => {
            let mut m = match style {
                CaseMissingStyle::WithId => String::from_str("Case with id "),
                CaseMissingStyle::Plain => String::from_str("Case "),
            };
            let t = uuid_to_string(id);
            m.append(t.as_str());
            m.append(" not found");
            Err(ApiError::NotFound(m))
        },
    }
}

/// A case looked up by its number that must exist.
pub fn case_by_number_found<T>(found: Option<T>, case_number: &str) -> (r: Result<T, ApiError>)
    ensures
        found matches Some(t) ==> r == Ok::<T, ApiError>(t),
        found is None ==> (r matches Err(e) && is_not_found(
            e,
            "Case with number "@ + case_number@ + " not found"@,
        )),
{
    match found {
        Some(t) => Ok(t),
        None => {
            let mut m = String::from_str("Case with number ");
            m.append(case_number);
            m.append(" not found");
            Err(ApiError::NotFound(m))
        },
    }
}

/// A defendant of a case that must exist.
pub fn defendant_found<T>(found: Option<T>, defendant_id: u128, case_id: u128) -> (r: Result<
    T,
    ApiError,
>)
    ensures
        found matches Some(t) ==> r == Ok::<T, ApiError>(t),
        found is None ==> (r matches Err(e) && is_not_found(
            e,
            "Defendant "@ + uuid_text(defendant_id) + " not found in case "@ + uuid_text(case_id),
        )),
{
    match found {
        Some(t) => Ok(t),
        None => {
            let mut m = String::from_str("Defendant ");
            let d = uuid_to_string(defendant_id);
            m.append(d.as_str());
            m.append(" not found in case ");
            let c = uuid_to_string(case_id);
            m.append(c.as_str());
            Err(ApiError::NotFound(m))
        },
    }
}

/// The Speedy Trial clock of a case, which must have been started.
pub fn clock_started<T>(clock: Option<T>) -> (r: Result<T, ApiError>)
    ensures
        clock matches Some(t) ==> r == Ok::<T, ApiError>(t),
        clock is None ==> (r matches Err(e) && is_not_found(
            e,
            "Speedy trial clock not initialized for this case"@,
        )),
{
    match clock {
        Some(t) => Ok(t),
        None => Err(not_found("Speedy trial clock not initialized for this case")),
    }
}

/// A path parameter whose absence is a server-side error:
/// `Missing path parameter '{name}'`.
pub fn path_param(v: Option<&str>, name: &str) -> (r: Result<String, ApiError>)
    ensures
        v matches Some(s) ==> (r matches Ok(t) && t@ == s@),
        v is None ==> (r matches Err(e) && is_internal(
            e,
            "Missing path parameter '"@ + name@ + "'"@,
        )),
{
    match v {
        Some(s) => Ok(String::from_str(s)),
        None => {
            let mut m = String::from_str("Missing path parameter '");
            m.append(name);
            m.append("'");
            Err(ApiError::Internal(m))
        },
    }
}

/// The filing context a new case is checked against: the court rules of
/// its district (lower-cased), applied to a case initiation by the clerk,
/// with the assigned judge's ID as text.
pub struct CaseFilingContext {
    pub jurisdiction_id: String,
    pub document_type: String,
    pub filer_role: String,
    pub assigned_judge: Option<String>,
}

/// Builds the filing context of a new case.
pub fn case_filing_context(district_code: &str, assigned_judge_id: Option<u128>) -> (c:
    CaseFilingContext)
    ensures
        c.jurisdiction_id@ == lowercase_text(district_code@),
        c.document_type@ == "case_initiation"@,
        c.filer_role@ == "clerk"@,
        assigned_judge_id is None ==> c.assigned_judge is None,
        assigned_judge_id matches Some(j) ==> (c.assigned_judge matches Some(t) && t@ == uuid_text(j)),
{
    let judge = match assigned_judge_id {
        Some(j) => Some(uuid_to_string(j)),
        None => None,
    };
    CaseFilingContext {
        jurisdiction_id: to_lowercase(district_code),
        document_type: String::from_str("case_initiation"),
        filer_role: String::from_str("clerk"),
        assigned_judge: judge,
    }
}

/// The Speedy Trial status of a case from its clock: the counters as
/// kept, the trial deadline as RFC 3339 text and the number of excludable
/// delays. `None` only where chrono cannot represent the deadline.
pub fn speedy_trial_status(
    days_elapsed: i64,
    days_remaining: i64,
    is_tolled: bool,
    waived: bool,
    trial_start_deadline: Instant,
    excludable_delays: usize,
) -> (r: Option<SpeedyTrialStatusResponse>)
    ensures
        rfc3339_text(trial_start_deadline) is None ==> r is None,
        rfc3339_text(trial_start_deadline) matches Some(text) ==> (r matches Some(s)
            && s.days_elapsed == days_elapsed && s.days_remaining == days_remaining
            && s.is_tolled == is_tolled && s.waived == waived && s.trial_start_deadline@ == text
            && s.excludable_delays_count == excludable_delays),
{
    match format_rfc3339(trial_start_deadline) {
        Some(text) => Some(
            SpeedyTrialStatusResponse {
                days_elapsed,
                days_remaining,
                is_tolled,
                waived,
                trial_start_deadline: text,
                excludable_delays_count: excludable_delays,
            },
        ),
        None => None,
    }
}

proof fn lemma_fold_concat(q: CaseQueryModel, p1: Seq<Seq<char>>, p2: Seq<Seq<char>>)
    ensures
        case_query_fold(q, p1 + p2) == match case_query_fold(q, p1) {
            Ok(q2) => case_query_fold(q2, p2),
            Err(m) => Err(m),
        },
    decreases p1.len(),
{
    if p1.len() > 0 {
        assert((p1 + p2)[0] == p1[0]);
        assert((p1 + p2).drop_first() =~= p1.drop_first() + p2);
        match apply_case_pair(q, p1[0]) {
            Ok(q2) => lemma_fold_concat(q2, p1.drop_first(), p2),
            Err(_) => {},
        }
    } else {
        assert(p1 + p2 =~= p2);
    }
}

/// A `key=value` pair read as such: `key` holds no `=`.
proof fn lemma_keyed_pair(key: Seq<char>, v: Seq<char>)
    requires
        forall|i: int| 0 <= i < key.len() ==> key[i] != '=',
    ensures
        split_once(key + seq!['='] + v, '=') == (key, Some(v)),
{
    lemma_split_once_at(key, '=', v);
}

/// The filter pair `key=v` as one pair of a query, where `v` holds no `&`.
proof fn lemma_single_pair(key: Seq<char>, v: Seq<char>)
    requires
        forall|i: int| 0 <= i < key.len() ==> key[i] != '&',
        forall|i: int| 0 <= i < v.len() ==> v[i] != '&',
    ensures
        split_on(key + seq!['='] + v, '&') == seq![key + seq!['='] + v],
{
    let s = key + seq!['='] + v;
    assert forall|i: int| 0 <= i < s.len() implies s[i] != '&' by {
        if i < key.len() {
            assert(s[i] == key[i]);
        } else if i > key.len() {
            assert(s[i] == v[i - key.len() - 1]);
        }
    }
    lemma_split_on_no_sep(s, '&');
}

/// Reading `key=v` with `v` non-empty and holding no `&`, after the pairs
/// of `a`: the query of `a`, or its refusal, with `set` applied to the
/// pairs' result.
proof fn lemma_appended_pair(a: Seq<char>, key: Seq<char>, v: Seq<char>)
    requires
        forall|i: int| 0 <= i < key.len() ==> key[i] != '&' && key[i] != '=',
        forall|i: int| 0 <= i < v.len() ==> v[i] != '&',
    ensures
        case_query_fold(initial_case_query(), split_on(a + seq!['&'] + key + seq!['='] + v, '&'))
            == match case_query_fold(initial_case_query(), split_on(a, '&')) {
            Ok(q) => apply_case_pair(q, key + seq!['='] + v),
            Err(m) => Err(m),
        },
{
    let pair = key + seq!['='] + v;
    assert(a + seq!['&'] + key + seq!['='] + v =~= a + seq!['&'] + pair);
    lemma_split_on_concat(a, pair, '&');
    lemma_single_pair(key, v);
    lemma_fold_concat(initial_case_query(), split_on(a, '&'), seq![pair]);
    match case_query_fold(initial_case_query(), split_on(a, '&')) {
        Ok(q) => {
            assert(seq![pair].drop_first() =~= Seq::<Seq<char>>::empty());
            match apply_case_pair(q, pair) {
                Ok(q2) => {
                    assert(case_query_fold(q2, Seq::<Seq<char>>::empty()) == Ok::<CaseQueryModel, Seq<char>>(q2));
                },
                Err(_) => {},
            }
        },
        Err(_) => {},
    }
}

/// Adding `&priority=v` to a case search (`v` non-empty, holding no `&`)
/// filters it by priority `v` and changes nothing else; a search that is
/// refused stays refused with the same message.
pub proof fn lemma_priority_filter_is_last(a: Seq<char>, v: Seq<char>)
    requires
        v.len() > 0,
        forall|i: int| 0 <= i < v.len() ==> v[i] != '&',
    ensures
        match case_query_spec(a) {
            Ok(m) => case_query_spec(a + seq!['&'] + "priority"@ + seq!['='] + v) == Ok::<CaseQueryModel, Seq<char>>(
                CaseQueryModel { priority: Some(v), ..m },
            ),
            Err(e) => case_query_spec(a + seq!['&'] + "priority"@ + seq!['='] + v) == Err::<CaseQueryModel, Seq<char>>(e),
        },
{
    reveal_strlit("priority");
    reveal_strlit("status");
    let key = "priority"@;
    assert(key.len() == 8);
    lemma_appended_pair(a, key, v);
    lemma_keyed_pair(key, v);
    assert(key != "status"@);
}

/// Adding `&status=v` to a case search (`v` non-empty, holding no `&`)
/// filters it by status `v` and changes nothing else; a search that is
/// refused stays refused with the same message.
pub proof fn lemma_status_filter_is_last(a: Seq<char>, v: Seq<char>)
    requires
        v.len() > 0,
        forall|i: int| 0 <= i < v.len() ==> v[i] != '&',
    ensures
        match case_query_spec(a) {
            Ok(m) => case_query_spec(a + seq!['&'] + "status"@ + seq!['='] + v) == Ok::<CaseQueryModel, Seq<char>>(
                CaseQueryModel { status: Some(v), ..m },
            ),
            Err(e) => case_query_spec(a + seq!['&'] + "status"@ + seq!['='] + v) == Err::<CaseQueryModel, Seq<char>>(e),
        },
{
    reveal_strlit("status");
    let key = "status"@;
    assert(key.len() == 6);
    lemma_appended_pair(a, key, v);
    lemma_keyed_pair(key, v);
}

/// A search of the single filter `priority=v` (`v` non-empty, holding no
/// `&`) filters by priority `v` alone, on the first page of 20.
pub proof fn lemma_priority_filter_alone(v: Seq<char>)
    requires
        v.len() > 0,
        forall|i: int| 0 <= i < v.len() ==> v[i] != '&',
    ensures
        case_query_spec("priority"@ + seq!['='] + v) == Ok::<CaseQueryModel, Seq<char>>(
            CaseQueryModel {
                status: None,
                priority: Some(v),
                judge_id: None,
                is_active: None,
                offset: 0,
                limit: 20,
            },
        ),
{
    reveal_strlit("priority");
    reveal_strlit("status");
    let key = "priority"@;
    assert(key.len() == 8);
    lemma_single_pair(key, v);
    lemma_keyed_pair(key, v);
    assert(key != "status"@);
    let pair = key + seq!['='] + v;
    let q0 = initial_case_query();
    let q1 = CaseQueryModel { priority: Some(v), ..q0 };
    assert(apply_case_pair(q0, pair) == Ok::<CaseQueryModel, Seq<char>>(q1));
    assert(seq![pair].drop_first() =~= Seq::<Seq<char>>::empty());
    assert(case_query_fold(q1, Seq::<Seq<char>>::empty()) == Ok::<CaseQueryModel, Seq<char>>(q1));
    assert(case_query_fold(q0, seq![pair]) == Ok::<CaseQueryModel, Seq<char>>(q1));
    assert(q1.offset * q1.limit == 0);
}

/// The keys of a case search: their lengths, that they differ, and that
/// none holds `&` or `=`.
proof fn lemma_query_keys()
    ensures
        "status"@.len() == 6,
        "priority"@.len() == 8,
        "judge"@.len() == 5,
        "active"@.len() == 6,
        "page"@.len() == 4,
        "limit"@.len() == 5,
        "status"@ != "active"@,
        "judge"@ != "limit"@,
        forall|i: int| 0 <= i < "judge"@.len() ==> "judge"@[i] != '&' && "judge"@[i] != '=',
        forall|i: int| 0 <= i < "active"@.len() ==> "active"@[i] != '&' && "active"@[i] != '=',
        forall|i: int| 0 <= i < "page"@.len() ==> "page"@[i] != '&' && "page"@[i] != '=',
        forall|i: int| 0 <= i < "limit"@.len() ==> "limit"@[i] != '&' && "limit"@[i] != '=',
        forall|i: int| 0 <= i < "status"@.len() ==> "status"@[i] != '&' && "status"@[i] != '=',
        forall|i: int| 0 <= i < "priority"@.len() ==> "priority"@[i] != '&' && "priority"@[i] != '=',
{
    reveal_strlit("status");
    reveal_strlit("priority");
    reveal_strlit("judge");
    reveal_strlit("active");
    reveal_strlit("page");
    reveal_strlit("limit");
    assert("status"@[0] != "active"@[0]);
    assert("judge"@[0] != "limit"@[0]);
}

/// Reading a query of one pair is applying that pair.
proof fn lemma_fold_single(q: CaseQueryModel, pair: Seq<char>)
    ensures
        case_query_fold(q, seq![pair]) == apply_case_pair(q, pair),
{
    assert(seq![pair].drop_first() =~= Seq::<Seq<char>>::empty());
    match apply_case_pair(q, pair) {
        Ok(q2) => {
            assert(case_query_fold(q2, Seq::<Seq<char>>::empty()) == Ok::<CaseQueryModel, Seq<char>>(q2));
        },
        Err(_) => {},
    }
}

/// Adding `&judge=v` to a case search (`v` non-empty, holding no `&`)
/// filters it by the judge `v` names when `v` is a UUID, changing nothing
/// else, and refuses an accepted search with `Invalid judge ID format`
/// otherwise.
pub proof fn lemma_judge_filter_is_last(a: Seq<char>, v: Seq<char>)
    requires
        v.len() > 0,
        forall|i: int| 0 <= i < v.len() ==> v[i] != '&',
    ensures
        uuid_parse_str(v) matches Some(u) ==> match case_query_spec(a) {
            Ok(m) => case_query_spec(a + seq!['&'] + "judge"@ + seq!['='] + v) == Ok::<CaseQueryModel, Seq<char>>(
                CaseQueryModel { judge_id: Some(u), ..m },
            ),
            Err(e) => case_query_spec(a + seq!['&'] + "judge"@ + seq!['='] + v) == Err::<CaseQueryModel, Seq<char>>(e),
        },
        uuid_parse_str(v) is None ==> (case_query_spec(a) is Ok ==> case_query_spec(
            a + seq!['&'] + "judge"@ + seq!['='] + v,
        ) == Err::<CaseQueryModel, Seq<char>>("Invalid judge ID format"@)),
{
    lemma_query_keys();
    lemma_appended_pair(a, "judge"@, v);
    lemma_keyed_pair("judge"@, v);
}

/// Adding `&active=true` or `&active=false` to a case search filters it by
/// that activity and changes nothing else; any other non-empty value
/// (holding no `&`) refuses an accepted search with `Invalid active value`.
pub proof fn lemma_active_filter_is_last(a: Seq<char>, v: Seq<char>)
    requires
        v.len() > 0,
        forall|i: int| 0 <= i < v.len() ==> v[i] != '&',
    ensures
        (v == seq!['t', 'r', 'u', 'e'] || v == seq!['f', 'a', 'l', 's', 'e']) ==> match case_query_spec(a) {
            Ok(m) => case_query_spec(a + seq!['&'] + "active"@ + seq!['='] + v) == Ok::<CaseQueryModel, Seq<char>>(
                CaseQueryModel { is_active: Some(v == seq!['t', 'r', 'u', 'e']), ..m },
            ),
            Err(e) => case_query_spec(a + seq!['&'] + "active"@ + seq!['='] + v) == Err::<CaseQueryModel, Seq<char>>(e),
        },
        !(v == seq!['t', 'r', 'u', 'e'] || v == seq!['f', 'a', 'l', 's', 'e']) ==> (case_query_spec(a) is Ok
            ==> case_query_spec(a + seq!['&'] + "active"@ + seq!['='] + v) == Err::<CaseQueryModel, Seq<char>>(
            "Invalid active value"@,
        )),
{
    lemma_query_keys();
    lemma_appended_pair(a, "active"@, v);
    let t = seq!['t', 'r', 'u', 'e'];
    let f = seq!['f', 'a', 'l', 's', 'e'];
    assert(t.len() != f.len());
    match case_query_fold(initial_case_query(), split_on(a, '&')) {
        Ok(q) => {
            lemma_active_pair(q, v);
        },
        Err(_) => {},
    }
}

/// The search state after the single pair `active=v`.
proof fn lemma_active_pair(q: CaseQueryModel, v: Seq<char>)
    requires
        v.len() > 0,
    ensures
        apply_case_pair(q, "active"@ + seq!['='] + v) == match parse_bool_spec(v) {
            Some(b) => Ok::<CaseQueryModel, Seq<char>>(CaseQueryModel { is_active: Some(b), ..q }),
            None => Err("Invalid active value"@),
        },
{
    lemma_query_keys();
    lemma_keyed_pair("active"@, v);
    let k = "active"@;
    assert(split_once(k + seq!['='] + v, '=') == (k, Some(v)));
    assert(k != "status"@ && k != "priority"@ && k != "judge"@);
}

/// The digits of a number hold no `&`.
proof fn lemma_digits_plain(n: nat)
    ensures
        decimal_text(n).len() > 0,
        forall|i: int| 0 <= i < decimal_text(n).len() ==> decimal_text(n)[i] != '&',
{
    lemma_decimal_text_reads_back(n);
    assert forall|i: int| 0 <= i < decimal_text(n).len() implies decimal_text(n)[i] != '&' by {
        assert(crate::parse::is_digit(decimal_text(n)[i]));
    }
}

/// The search state after the single pair `page=p`.
proof fn lemma_page_pair(q: CaseQueryModel, p: nat)
    requires
        p <= usize::MAX,
    ensures
        p >= 1 ==> apply_case_pair(q, "page"@ + seq!['='] + decimal_text(p)) == Ok::<CaseQueryModel, Seq<char>>(
            CaseQueryModel { offset: p - 1, ..q },
        ),
        p == 0 ==> apply_case_pair(q, "page"@ + seq!['='] + decimal_text(p)) == Err::<CaseQueryModel, Seq<char>>(
            "Invalid page number"@,
        ),
{
    lemma_query_keys();
    lemma_digits_plain(p);
    lemma_keyed_pair("page"@, decimal_text(p));
    lemma_parse_unsigned_of_text(p, usize::MAX as nat);
}

/// The search state after the single pair `limit=n`.
proof fn lemma_limit_pair(q: CaseQueryModel, n: nat)
    requires
        n <= usize::MAX,
    ensures
        1 <= n <= 100 ==> apply_case_pair(q, "limit"@ + seq!['='] + decimal_text(n)) == Ok::<CaseQueryModel, Seq<char>>(
            CaseQueryModel { limit: n as int, ..q },
        ),
        !(1 <= n <= 100) ==> apply_case_pair(q, "limit"@ + seq!['='] + decimal_text(n)) == Err::<CaseQueryModel, Seq<char>>(
            "Invalid limit value"@,
        ),
{
    lemma_query_keys();
    lemma_digits_plain(n);
    lemma_keyed_pair("limit"@, decimal_text(n));
    lemma_parse_unsigned_of_text(n, usize::MAX as nat);
    let pair = "limit"@ + seq!['='] + decimal_text(n);
    let k = "limit"@;
    assert(split_once(pair, '=') == (k, Some(decimal_text(n))));
    assert(k != "status"@ && k != "priority"@ && k != "judge"@ && k != "active"@ && k != "page"@);
    assert(parse_unsigned(decimal_text(n), usize::MAX as nat) == Some(n));
}

/// The search `page=p&limit=n`: page `p` of pages of `n` cases, skipping
/// `(p - 1) * n` of them; page 0, and an offset beyond `usize`, are
/// invalid page numbers, and a page size outside 1..=100 is an invalid
/// limit.
pub proof fn lemma_page_then_limit(p: nat, n: nat)
    requires
        p <= usize::MAX,
        n <= usize::MAX,
    ensures
        ({
            let query = "page"@ + seq!['='] + decimal_text(p) + seq!['&'] + "limit"@ + seq!['='] + decimal_text(n);
            &&& p == 0 ==> case_query_spec(query) == Err::<CaseQueryModel, Seq<char>>("Invalid page number"@)
            &&& p >= 1 && !(1 <= n <= 100) ==> case_query_spec(query) == Err::<CaseQueryModel, Seq<char>>("Invalid limit value"@)
            &&& p >= 1 && 1 <= n <= 100 && (p - 1) * n <= usize::MAX ==> case_query_spec(query) == Ok::<CaseQueryModel, Seq<char>>(
                CaseQueryModel { offset: (p - 1) * n, limit: n as int, ..initial_case_query() },
            )
            &&& p >= 1 && 1 <= n <= 100 && (p - 1) * n > usize::MAX ==> case_query_spec(query) == Err::<CaseQueryModel, Seq<char>>("Invalid page number"@)
        }),
{
    lemma_query_keys();
    lemma_digits_plain(p);
    lemma_digits_plain(n);
    let a = "page"@ + seq!['='] + decimal_text(p);
    assert(a + seq!['&'] + "limit"@ + seq!['='] + decimal_text(n) == "page"@ + seq!['='] + decimal_text(p) + seq!['&'] + "limit"@ + seq!['='] + decimal_text(n));
    lemma_appended_pair(a, "limit"@, decimal_text(n));
    lemma_single_pair("page"@, decimal_text(p));
    lemma_fold_single(initial_case_query(), a);
    lemma_page_pair(initial_case_query(), p);
    if p >= 1 {
        lemma_limit_pair(CaseQueryModel { offset: p - 1, ..initial_case_query() }, n);
    }
}

/// The search `limit=n&page=p` is the search `page=p&limit=n`: the order
/// of the two pairs does not matter once both are valid.
pub proof fn lemma_limit_then_page(p: nat, n: nat)
    requires
        p <= usize::MAX,
        n <= usize::MAX,
    ensures
        ({
            let query = "limit"@ + seq!['='] + decimal_text(n) + seq!['&'] + "page"@ + seq!['='] + decimal_text(p);
            &&& !(1 <= n <= 100) ==> case_query_spec(query) == Err::<CaseQueryModel, Seq<char>>("Invalid limit value"@)
            &&& 1 <= n <= 100 && p == 0 ==> case_query_spec(query) == Err::<CaseQueryModel, Seq<char>>("Invalid page number"@)
            &&& p >= 1 && 1 <= n <= 100 && (p - 1) * n <= usize::MAX ==> case_query_spec(query) == Ok::<CaseQueryModel, Seq<char>>(
                CaseQueryModel { offset: (p - 1) * n, limit: n as int, ..initial_case_query() },
            )
            &&& p >= 1 && 1 <= n <= 100 && (p - 1) * n > usize::MAX ==> case_query_spec(query) == Err::<CaseQueryModel, Seq<char>>("Invalid page number"@)
        }),
{
    lemma_query_keys();
    lemma_digits_plain(p);
    lemma_digits_plain(n);
    let a = "limit"@ + seq!['='] + decimal_text(n);
    assert(a + seq!['&'] + "page"@ + seq!['='] + decimal_text(p) == "limit"@ + seq!['='] + decimal_text(n) + seq!['&'] + "page"@ + seq!['='] + decimal_text(p));
    lemma_appended_pair(a, "page"@, decimal_text(p));
    lemma_single_pair("limit"@, decimal_text(n));
    lemma_fold_single(initial_case_query(), a);
    lemma_limit_pair(initial_case_query(), n);
    if 1 <= n <= 100 {
        lemma_page_pair(CaseQueryModel { limit: n as int, ..initial_case_query() }, p);
    }
}

} // verus!
