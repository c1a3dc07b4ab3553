//! Creating and reporting criminal cases: the checks a new case passes,
//! and how a stored case is reported, its dates as RFC 3339 text and counts
//! in place of the lists a summary leaves out.
use vstd::prelude::*;
use crate::time::{Instant, rfc3339_text, format_rfc3339};
use crate::handlers::criminal_case::{
    SpeedyTrialStatusResponse, speedy_trial_status, CreateCaseRequest, validate_create_case, parse_compliance_flag,
    compliance_flag, case_location,
};
use crate::error::{ApiError, is_bad_request};
use crate::ids::uuid_text;
use crate::text::is_blank;

verus! {

/// A defendant of a stored case; `custody_status` holds the status's name.
pub struct DefendantRecord {
    pub id: u128,
    pub name: String,
    pub aliases: Vec<String>,
    pub usm_number: Option<String>,
    pub fbi_number: Option<String>,
    pub custody_status: String,
    pub counts: usize,
}

/// A piece of evidence of a stored case; `E` is its type.
pub struct EvidenceRecord<E> {
    pub id: u128,
    pub description: String,
    pub evidence_type: E,
    pub is_sealed: bool,
    pub custody_transfers: usize,
    pub created_at: Instant,
}

/// The Speedy Trial clock of a stored case.
pub struct ClockRecord {
    pub days_elapsed: i64,
    pub days_remaining: i64,
    pub is_tolled: bool,
    pub waived: bool,
    pub trial_start_deadline: Instant,
    pub excludable_delays: usize,
}

/// A stored criminal case; `X` is its crime type, `S` its status, `P` its
/// priority and `E` an evidence type. Notes, docket entries and victims are
/// given by their number.
pub struct CaseRecord<X, S, P, E> {
    pub id: u128,
    pub case_number: String,
    pub title: String,
    pub description: String,
    pub crime_type: X,
    pub status: S,
    pub priority: P,
    pub assigned_judge_id: Option<u128>,
    pub district_code: String,
    pub location: String,
    pub opened_at: Instant,
    pub updated_at: Instant,
    pub closed_at: Option<Instant>,
    pub defendants: Vec<DefendantRecord>,
    pub evidence: Vec<EvidenceRecord<E>>,
    pub notes: usize,
    pub docket_entries: usize,
    pub is_sealed: bool,
    pub sealed_date: Option<Instant>,
    pub sealed_by: Option<String>,
    pub seal_reason: Option<String>,
    pub speedy_trial: Option<ClockRecord>,
    pub victims: usize,
}

/// A defendant as reported.
pub struct DefendantResponse {
    pub id: u128,
    pub name: String,
    pub aliases: Vec<String>,
    pub usm_number: Option<String>,
    pub fbi_number: Option<String>,
    pub custody_status: String,
    pub counts_count: usize,
}

/// A piece of evidence as reported.
pub struct EvidenceResponse<E> {
    pub id: u128,
    pub description: String,
    pub evidence_type: E,
    pub is_sealed: bool,
    pub custody_transfers_count: usize,
    pub created_at: String,
}

/// A criminal case as reported.
pub struct CaseResponse<X, S, P, E> {
    pub id: u128,
    pub case_number: String,
    pub title: String,
    pub description: String,
    pub crime_type: X,
    pub status: S,
    pub priority: P,
    pub assigned_judge_id: Option<u128>,
    pub district_code: String,
    pub location: String,
    pub opened_at: String,
    pub updated_at: String,
    pub closed_at: Option<String>,
    pub defendants: Vec<DefendantResponse>,
    pub evidence: Vec<EvidenceResponse<E>>,
    pub evidence_count: usize,
    pub notes_count: usize,
    pub docket_entries_count: usize,
    pub is_sealed: bool,
    pub sealed_date: Option<String>,
    pub sealed_by: Option<String>,
    pub seal_reason: Option<String>,
    pub speedy_trial_status: Option<SpeedyTrialStatusResponse>,
    pub victims_count: usize,
}

/// Whether chrono represents an optional instant (an absent one always).
pub open spec fn representable(t: Option<Instant>) -> bool {
    match t {
        Some(i) => rfc3339_text(i) is Some,
        None => true,
    }
}

/// The RFC 3339 text of an optional instant.
pub open spec fn optional_text(t: Option<Instant>) -> Option<Seq<char>> {
    match t {
        Some(i) => Some(rfc3339_text(i)->0),
        None => None,
    }
}

/// The view of an optional string.
pub open spec fn optional_view(s: Option<String>) -> Option<Seq<char>> {
    match s {
        Some(t) => Some(t@),
        None => None,
    }
}

/// Whether chrono represents every date of a case.
pub open spec fn case_dates_representable<X, S, P, E>(c: CaseRecord<X, S, P, E>) -> bool {
    &&& rfc3339_text(c.opened_at) is Some
    &&& rfc3339_text(c.updated_at) is Some
    &&& representable(c.closed_at)
    &&& representable(c.sealed_date)
    &&& forall|i: int| 0 <= i < c.evidence@.len() ==> (rfc3339_text(#[trigger] c.evidence@[i].created_at) is Some)
    &&& match c.speedy_trial {
        Some(clock) => rfc3339_text(clock.trial_start_deadline) is Some,
        None => true,
    }
}

/// How a defendant is reported.
pub open spec fn reports_defendant(r: DefendantResponse, d: DefendantRecord) -> bool {
    &&& r.id == d.id
    &&& r.name == d.name
    &&& r.aliases == d.aliases
    &&& r.usm_number == d.usm_number
    &&& r.fbi_number == d.fbi_number
    &&& r.custody_status == d.custody_status
    &&& r.counts_count == d.counts
}

/// How a piece of evidence is reported.
pub open spec fn reports_evidence<E>(r: EvidenceResponse<E>, e: EvidenceRecord<E>) -> bool {
    &&& r.id == e.id
    &&& r.description == e.description
    &&& r.evidence_type == e.evidence_type
    &&& r.is_sealed == e.is_sealed
    &&& r.custody_transfers_count == e.custody_transfers
    &&& rfc3339_text(e.created_at) == Some(r.created_at@)
}

/// How a Speedy Trial clock is reported.
pub open spec fn reports_clock(r: Option<SpeedyTrialStatusResponse>, c: Option<ClockRecord>) -> bool {
    match c {
        None => r is None,
        Some(k) => r matches Some(s) && s.days_elapsed == k.days_elapsed && s.days_remaining
            == k.days_remaining && s.is_tolled == k.is_tolled && s.waived == k.waived
            && rfc3339_text(k.trial_start_deadline) == Some(s.trial_start_deadline@)
            && s.excludable_delays_count == k.excludable_delays,
    }
}

/// How a stored case is reported.
pub open spec fn reports_case<X, S, P, E>(resp: CaseResponse<X, S, P, E>, c: CaseRecord<X, S, P, E>) -> bool {
    &&& resp.id == c.id
    &&& resp.case_number == c.case_number
    &&& resp.title == c.title
    &&& resp.description == c.description
    &&& resp.crime_type == c.crime_type
    &&& resp.status == c.status
    &&& resp.priority == c.priority
    &&& resp.assigned_judge_id == c.assigned_judge_id
    &&& resp.district_code == c.district_code
    &&& resp.location == c.location
    &&& rfc3339_text(c.opened_at) == Some(resp.opened_at@)
    &&& rfc3339_text(c.updated_at) == Some(resp.updated_at@)
    &&& optional_view(resp.closed_at) == optional_text(c.closed_at)
    &&& resp.defendants@.len() == c.defendants@.len()
    &&& (forall|i: int| 0 <= i < c.defendants@.len() ==> reports_defendant(#[trigger] resp.defendants@[i], c.defendants@[i]))
    &&& resp.evidence@.len() == c.evidence@.len()
    &&& (forall|i: int| 0 <= i < c.evidence@.len() ==> reports_evidence(#[trigger] resp.evidence@[i], c.evidence@[i]))
    &&& resp.evidence_count == c.evidence@.len()
    &&& resp.notes_count == c.notes
    &&& resp.docket_entries_count == c.docket_entries
    &&& resp.is_sealed == c.is_sealed
    &&& optional_view(resp.sealed_date) == optional_text(c.sealed_date)
    &&& resp.sealed_by == c.sealed_by
    &&& resp.seal_reason == c.seal_reason
    &&& reports_clock(resp.speedy_trial_status, c.speedy_trial)
    &&& resp.victims_count == c.victims
}

fn optional_rfc3339(t: Option<Instant>) -> (r: Option<Option<String>>)
    ensures
        r is Some <==> representable(t),
        r matches Some(o) ==> optional_view(o) == optional_text(t),
{
    match t {
        None => Some(None),
        Some(i) => match format_rfc3339(i) {
            Some(s) => Some(Some(s)),
            None => None,
        },
    }
}

fn defendant_responses(ds: Vec<DefendantRecord>) -> (r: Vec<DefendantResponse>)
    ensures
        r@.len() == ds@.len(),
        forall|i: int| 0 <= i < ds@.len() ==> reports_defendant(#[trigger] r@[i], ds@[i]),
{
    let ghost all = ds@;
    let mut rest = ds;
    let total = rest.len();
    let mut out: Vec<DefendantResponse> = Vec::new();
    let mut i: usize = 0;
    while rest.len() > 0
        invariant
            rest@ == all.skip(i as int),
            i + rest@.len() == all.len(),
            all.len() == total,
            out@.len() == i,
            forall|k: int| 0 <= k < i ==> reports_defendant(#[trigger] out@[k], all[k]),
        decreases rest.len(),
    {
        let d = rest.remove(0);
        proof {
            assert(d == all[i as int]);
        }
        out.push(
            DefendantResponse {
                id: d.id,
                name: d.name,
                aliases: d.aliases,
                usm_number: d.usm_number,
                fbi_number: d.fbi_number,
                custody_status: d.custody_status,
                counts_count: d.counts,
            },
        );
        i = i + 1;
        proof {
            assert(rest@ =~= all.skip(i as int));
        }
    }
    out
}

fn evidence_responses<E>(es: Vec<EvidenceRecord<E>>) -> (r: Option<Vec<EvidenceResponse<E>>>)
    ensures
        r is Some <==> forall|i: int| 0 <= i < es@.len() ==> (rfc3339_text(#[trigger] es@[i].created_at) is Some),
        r matches Some(v) ==> v@.len() == es@.len() && forall|i: int|
            0 <= i < es@.len() ==> reports_evidence(#[trigger] v@[i], es@[i]),
{
    let ghost all = es@;
    let mut rest = es;
    let total = rest.len();
    let mut out: Vec<EvidenceResponse<E>> = Vec::new();
    let mut i: usize = 0;
    while rest.len() > 0
        invariant
            all == es@,
            rest@ == all.skip(i as int),
            i + rest@.len() == all.len(),
            all.len() == total,
            out@.len() == i,
            forall|k: int| 0 <= k < i ==> reports_evidence(#[trigger] out@[k], all[k]),
        decreases rest.len(),
    {
        let e = rest.remove(0);
        proof {
            assert(e == all[i as int]);
        }
        let created = match format_rfc3339(e.created_at) {
            Some(s) => s,
            None => {
                proof {
                    assert(rfc3339_text(all[i as int].created_at) is None);
                }
                return None;
            },
        };
        out.push(
            EvidenceResponse {
                id: e.id,
                description: e.description,
                evidence_type: e.evidence_type,
                is_sealed: e.is_sealed,
                custody_transfers_count: e.custody_transfers,
                created_at: created,
            },
        );
        i = i + 1;
        proof {
            assert(rest@ =~= all.skip(i as int));
        }
    }
    proof {
        assert forall|k: int| 0 <= k < es@.len() implies (rfc3339_text(#[trigger] es@[k].created_at) is Some) by {
            assert(reports_evidence(out@[k], all[k]));
        }
    }
    Some(out)
}

/// Reports a stored case: its fields as kept, its dates as RFC 3339 text,
/// its defendants and evidence in order, and the number of its evidence,
/// notes, docket entries and victims. `None` only where chrono cannot
/// represent one of its dates.
pub fn case_response<X, S, P, E>(c: CaseRecord<X, S, P, E>) -> (r: Option<CaseResponse<X, S, P, E>>)
    ensures
        r is Some <==> case_dates_representable(c),
        r matches Some(resp) ==> reports_case(resp, c),
{
    let opened = format_rfc3339(c.opened_at);
    let updated = format_rfc3339(c.updated_at);
    let closed = optional_rfc3339(c.closed_at);
    let sealed = optional_rfc3339(c.sealed_date);
    let clock = match c.speedy_trial {
        Some(k) => match speedy_trial_status(
            k.days_elapsed,
            k.days_remaining,
            k.is_tolled,
            k.waived,
            k.trial_start_deadline,
            k.excludable_delays,
        ) {
            Some(s) => Some(Some(s)),
            None => None,
        },
        None => Some(None),
    };
    let evidence_count = c.evidence.len();
    let ghost evidence_records = c.evidence@;
    let evidence = evidence_responses(c.evidence);
    match (opened, updated, closed, sealed, clock, evidence) {
        (Some(opened_at), Some(updated_at), Some(closed_at), Some(sealed_date), Some(speedy_trial_status), Some(evidence)) => {
            Some(
                CaseResponse {
                    id: c.id,
                    case_number: c.case_number,
                    title: c.title,
                    description: c.description,
                    crime_type: c.crime_type,
                    status: c.status,
                    priority: c.priority,
                    assigned_judge_id: c.assigned_judge_id,
                    district_code: c.district_code,
                    location: c.location,
                    opened_at,
                    updated_at,
                    closed_at,
                    defendants: defendant_responses(c.defendants),
                    evidence,
                    evidence_count,
                    notes_count: c.notes,
                    docket_entries_count: c.docket_entries,
                    is_sealed: c.is_sealed,
                    sealed_date,
                    sealed_by: c.sealed_by,
                    seal_reason: c.seal_reason,
                    speedy_trial_status,
                    victims_count: c.victims,
                },
            )
        },
        _ => None,
    }
}

/// The first step of creating a case: the case needs a title, then a
/// district code; the result says whether the query asks for the
/// compliance check (`?compliance=true`).
pub fn begin_create_case(query: &str, req: &CreateCaseRequest) -> (r: Result<bool, ApiError>)
    ensures
        is_blank(req.title@) ==> (r matches Err(e) && is_bad_request(e, "Case title cannot be empty"@)),
        !is_blank(req.title@) && is_blank(req.district_code@) ==> (r matches Err(e)
            && is_bad_request(e, "District code is required"@)),
        !is_blank(req.title@) && !is_blank(req.district_code@) ==> r == Ok::<bool, ApiError>(
            compliance_flag(query@),
        ),
{
    let run_compliance = parse_compliance_flag(query);
    match validate_create_case(req) {
        Ok(()) => Ok(run_compliance),
        Err(e) => Err(e),
    }
}

/// The answer to creating a case (201): where the case now lives, the case
/// as reported, and the compliance report where one was asked for; `R` is
/// the report.
pub struct CreatedCase<X, S, P, E, R> {
    pub location: String,
    pub case: CaseResponse<X, S, P, E>,
    pub compliance_report: Option<R>,
}

/// The answer once the new case is saved: its location `/api/cases/{id}`,
/// the case as reported, and the compliance report when the check was
/// asked for and ran; a failed check only leaves the report out and does
/// not undo the creation. `None` only where chrono cannot represent one of
/// the case's dates.
pub fn created_case<X, S, P, E, R>(
    case: CaseRecord<X, S, P, E>,
    run_compliance: bool,
    compliance: Result<R, ApiError>,
) -> (r: Option<CreatedCase<X, S, P, E, R>>)
    ensures
        r is Some <==> case_dates_representable(case),
        r matches Some(created) ==> {
            &&& created.location@ == "/api/cases/"@ + uuid_text(case.id)
            &&& reports_case(created.case, case)
            &&& run_compliance ==> created.compliance_report == match compliance {
                Ok(report) => Some(report),
                Err(_) => None::<R>,
            }
            &&& !run_compliance ==> created.compliance_report is None
        },
{
    let location = case_location(case.id);
    let report = if run_compliance {
        match compliance {
            Ok(report) => Some(report),
            Err(_) => None,
        }
    } else {
        None
    };
    match case_response(case) {
        Some(resp) => Some(CreatedCase { location, case: resp, compliance_report: report }),
        None => None,
    }
}

} // verus!
