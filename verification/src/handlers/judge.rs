//! Judges: conflict checks, recusal rulings and the reassignments they
//! cause.
use vstd::prelude::*;
use crate::error::{ApiError, is_bad_request, is_not_found};
use crate::ids::{uuid_parse_str, uuid_param, required_param, found_or};
use crate::time::Instant;

verus! {

/// A page of judges; `J` is the judge record.
pub struct SearchResponse<J> {
    pub judges: Vec<J>,
    pub total: usize,
}

/// A new judge; `title` is the wire name of the judicial title.
pub struct CreateJudgeRequest {
    pub name: String,
    pub title: String,
    pub district: String,
    pub courtroom: String,
}

/// A new status for a judge; `S` is the judge status.
pub struct UpdateJudgeStatusRequest<S> {
    pub status: S,
}

/// A conflict of interest to record for a judge; `conflict_type` is the
/// wire name of its kind.
pub struct AddConflictRequest {
    pub party_name: Option<String>,
    pub law_firm: Option<String>,
    pub corporation: Option<String>,
    pub conflict_type: String,
    pub notes: String,
}

/// The result of a conflict check for a party; `C` is the conflict record.
pub struct ConflictCheckResponse<C> {
    pub conflicts_found: bool,
    pub judges_with_conflicts: Vec<u128>,
    pub conflict_details: Vec<(u128, C)>,
}

/// The judges of a list of (judge, conflict) pairs, in order.
pub open spec fn conflict_judges<C>(conflicts: Seq<(u128, C)>) -> Seq<u128> {
    Seq::new(conflicts.len(), |i: int| conflicts[i].0)
}

/// Answers a conflict check from the conflicts found for the party: whether
/// there are any, the judge of each (in order, repeated where a judge has
/// several), and the conflicts themselves.
pub fn conflict_check_response<C>(conflicts: Vec<(u128, C)>) -> (r: ConflictCheckResponse<C>)
    ensures
        r.conflicts_found == (conflicts@.len() > 0),
        r.judges_with_conflicts@ == conflict_judges(conflicts@),
        r.conflict_details == conflicts,
{
    let mut judges: Vec<u128> = Vec::new();
    let mut i: usize = 0;
    while i < conflicts.len()
        invariant
            i <= conflicts@.len(),
            judges@ == conflict_judges(conflicts@).take(i as int),
        decreases conflicts.len() - i,
    {
        judges.push(conflicts[i].0);
        i = i + 1;
        assert(judges@ =~= conflict_judges(conflicts@).take(i as int));
    }
    assert(judges@ =~= conflict_judges(conflicts@));
    let found = conflicts.len() > 0;
    ConflictCheckResponse {
        conflicts_found: found,
        judges_with_conflicts: judges,
        conflict_details: conflicts,
    }
}

/// How a recusal led to a reassignment.
pub enum RecusalOutcome {
    /// The motion was granted with a named replacement.
    Granted,
    /// The motion was processed and a replacement chosen.
    Processed,
}

/// The reassignment of a case away from a recused judge.
pub struct Reassignment {
    pub case_id: u128,
    pub judge_id: u128,
    pub previous_judge_id: u128,
    pub reason: String,
    pub reassignment_reason: String,
}

/// The reason recorded on a reassignment: `Reassigned due to recusal:
/// {grounds}`.
pub open spec fn reassignment_reason_text(grounds: Seq<char>) -> Seq<char> {
    "Reassigned due to recusal: "@ + grounds
}

/// The note recorded on a reassignment for its outcome.
pub open spec fn outcome_note(o: RecusalOutcome) -> Seq<char> {
    match o {
        RecusalOutcome::Granted => "Recusal granted"@,
        RecusalOutcome::Processed => "Recusal processed"@,
    }
}

/// The reassignment of the motion's case from the recused judge to the
/// replacement.
pub fn reassignment(
    case_id: u128,
    recused_judge: u128,
    grounds: &str,
    replacement: u128,
    outcome: RecusalOutcome,
) -> (r: Reassignment)
    ensures
        r.case_id == case_id,
        r.judge_id == replacement,
        r.previous_judge_id == recused_judge,
        r.reason@ == reassignment_reason_text(grounds@),
        r.reassignment_reason@ == outcome_note(outcome),
{
    let mut reason = String::from_str("Reassigned due to recusal: ");
    reason.append(grounds);
    let note = match outcome {
        RecusalOutcome::Granted => String::from_str("Recusal granted"),
        RecusalOutcome::Processed => String::from_str("Recusal processed"),
    };
    Reassignment {
        case_id,
        judge_id: replacement,
        previous_judge_id: recused_judge,
        reason,
        reassignment_reason: note,
    }
}

/// What a ruling on a recusal motion changes; `S` is the motion's status.
pub struct RecusalRuling<S> {
    /// The status the motion is given.
    pub status: S,
    /// When the motion was ruled on.
    pub ruling_date: Instant,
    /// The replacement judge recorded on the motion.
    pub replacement_judge_id: Option<u128>,
    /// The reassignment to save.
    pub reassignment: Option<Reassignment>,
    /// The judge whose caseload loses the case (the recused judge).
    pub unassign_from: Option<u128>,
    /// The judge whose caseload gains the case (the replacement).
    pub assign_to: Option<u128>,
}

/// Rules on a recusal motion at `now`: the motion takes the status of the
/// ruling (`granted` says whether that status grants it) and `now` as its
/// ruling date. Only a grant that names a replacement changes anything
/// more: the replacement is recorded, and, where the case has an
/// assignment (`has_assignment`), the case is reassigned to the
/// replacement: the recused judge's caseload loses a case and the
/// replacement's gains one.
pub fn rule_on_recusal<S>(
    case_id: u128,
    recused_judge: u128,
    grounds: &str,
    current_replacement: Option<u128>,
    status: S,
    granted: bool,
    replacement: Option<u128>,
    has_assignment: bool,
    now: Instant,
) -> (r: RecusalRuling<S>)
    ensures
        r.status == status,
        r.ruling_date == now,
        granted && replacement is Some ==> r.replacement_judge_id == replacement,
        !(granted && replacement is Some) ==> r.replacement_judge_id == current_replacement,
        r.reassignment is Some <==> (granted && replacement is Some && has_assignment),
        r.reassignment matches Some(a) ==> {
            &&& a.case_id == case_id
            &&& Some(a.judge_id) == replacement
            &&& a.previous_judge_id == recused_judge
            &&& a.reason@ == reassignment_reason_text(grounds@)
            &&& a.reassignment_reason@ == outcome_note(RecusalOutcome::Granted)
        },
        r.reassignment is Some ==> r.unassign_from == Some(recused_judge) && r.assign_to == replacement,
        r.reassignment is None ==> r.unassign_from is None && r.assign_to is None,
{
    if granted {
        match replacement {
            Some(rid) => {
                let re = if has_assignment {
                    Some(reassignment(case_id, recused_judge, grounds, rid, RecusalOutcome::Granted))
                } else {
                    None
                };
                let (from, to) = if has_assignment {
                    (Some(recused_judge), Some(rid))
                } else {
                    (None, None)
                };
                return RecusalRuling {
                    status,
                    ruling_date: now,
                    replacement_judge_id: Some(rid),
                    reassignment: re,
                    unassign_from: from,
                    assign_to: to,
                };
            },
            None => {},
        }
    }
    RecusalRuling {
        status,
        ruling_date: now,
        replacement_judge_id: current_replacement,
        reassignment: None,
        unassign_from: None,
        assign_to: None,
    }
}

/// The IDs a judge request can carry in its path.
pub enum JudgeParam {
    Judge,
    Case,
    Recusal,
    Assignment,
    Conflict,
}

/// The message for a missing or malformed ID.
pub open spec fn judge_id_message(p: JudgeParam) -> Seq<char> {
    match p {
        JudgeParam::Judge => "Invalid judge ID"@,
        JudgeParam::Case => "Invalid case ID"@,
        JudgeParam::Recusal => "Invalid recusal ID"@,
        JudgeParam::Assignment => "Invalid assignment ID"@,
        JudgeParam::Conflict => "Invalid conflict ID"@,
    }
}

/// Reads an ID from the path; missing and malformed IDs get the same
/// message.
pub fn judge_param(p: JudgeParam, v: Option<&str>) -> (r: Result<u128, ApiError>)
    ensures
        match v {
            Some(s) => match uuid_parse_str(s@) {
                Some(u) => r == Ok::<u128, ApiError>(u),
                None => r matches Err(e) && is_bad_request(e, judge_id_message(p)),
            },
            None => r matches Err(e) && is_bad_request(e, judge_id_message(p)),
        },
{
    match p {
        JudgeParam::Judge => uuid_param(v, "Invalid judge ID"),
        JudgeParam::Case => uuid_param(v, "Invalid case ID"),
        JudgeParam::Recusal => uuid_param(v, "Invalid recusal ID"),
        JudgeParam::Assignment => uuid_param(v, "Invalid assignment ID"),
        JudgeParam::Conflict => uuid_param(v, "Invalid conflict ID"),
    }
}

/// Path values a judge listing needs.
pub enum JudgeFilter {
    Party,
    Status,
    District,
}

/// The message for a missing path value.
pub open spec fn judge_filter_message(f: JudgeFilter) -> Seq<char> {
    match f {
        JudgeFilter::Party => "Party name required"@,
        JudgeFilter::Status => "Status required"@,
        JudgeFilter::District => "District required"@,
    }
}

/// A path value that must be given.
pub fn judge_filter(f: JudgeFilter, v: Option<&str>) -> (r: Result<String, ApiError>)
    ensures
        v matches Some(s) ==> (r matches Ok(t) && t@ == s@),
        v is None ==> (r matches Err(e) && is_bad_request(e, judge_filter_message(f))),
{
    match f {
        JudgeFilter::Party => required_param(v, "Party name required"),
        JudgeFilter::Status => required_param(v, "Status required"),
        JudgeFilter::District => required_param(v, "District required"),
    }
}

/// The records a judge request looks up.
pub enum JudgeRecord {
    Judge,
    Assignment,
    RecusalMotion,
}

/// The message for a record that does not exist.
pub open spec fn judge_missing_message(k: JudgeRecord) -> Seq<char> {
    match k {
        JudgeRecord::Judge => "Judge not found"@,
        JudgeRecord::Assignment => "Assignment not found"@,
        JudgeRecord::RecusalMotion => "Recusal motion not found"@,
    }
}

/// A record that must exist.
pub fn judge_record<T>(k: JudgeRecord, found: Option<T>) -> (r: Result<T, ApiError>)
    ensures
        found matches Some(t) ==> r == Ok::<T, ApiError>(t),
        found is None ==> (r matches Err(e) && is_not_found(e, judge_missing_message(k))),
{
    match k {
        JudgeRecord::Judge => found_or(found, "Judge not found"),
        JudgeRecord::Assignment => found_or(found, "Assignment not found"),
        JudgeRecord::RecusalMotion => found_or(found, "Recusal motion not found"),
    }
}

} // verus!
