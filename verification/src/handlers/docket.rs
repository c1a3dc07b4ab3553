//! The docket and the court calendar: scheduling without conflicts, event
//! updates, and the Speedy Trial Act clock.
use vstd::prelude::*;
use crate::error::{ApiError, is_bad_request, is_not_found};
use crate::ids::{uuid_parse_str, uuid_param, required_param, found_or};
use crate::parse::{decimal_text, u64_text, parse_unsigned, parse_u32};
use crate::time::{Instant, chrono_days_between, days_between, ordinary_instant, whole_days_between};

verus! {

/// A page of docket entries; `E` is the entry record.
pub struct SearchResponse<E> {
    pub entries: Vec<E>,
    pub total: usize,
}

/// A page of calendar events; `E` is the event record.
pub struct CalendarSearchResponse<E> {
    pub events: Vec<E>,
    pub total: usize,
}

/// An attachment to add to a docket entry.
pub struct AddAttachmentRequest {
    pub attachment_number: u32,
    pub description: String,
    pub page_count: u32,
    pub file_size_bytes: u64,
}

/// The next free slot of a judge.
pub struct AvailableSlotResponse {
    pub judge_id: u128,
    pub available_date: Instant,
    pub duration_minutes: u32,
}

/// The dates a Speedy Trial clock is started from.
pub struct InitSpeedyTrialRequest {
    pub arrest_date: Option<Instant>,
    pub indictment_date: Option<Instant>,
    pub arraignment_date: Option<Instant>,
}

/// A newly started Speedy Trial clock: its dates and counters.
pub struct SpeedyTrialStart {
    pub arrest_date: Option<Instant>,
    pub indictment_date: Instant,
    pub arraignment_date: Instant,
    pub days_elapsed: i64,
    pub days_remaining: i64,
    pub is_tolled: bool,
    pub waived: bool,
}

/// Starts a Speedy Trial clock: the arraignment date is required, the
/// indictment date defaults to it, and the seventy days of 18 U.S.C.
/// § 3161(c)(1) are all still to run.
pub fn start_speedy_trial(req: &InitSpeedyTrialRequest) -> (r: Result<SpeedyTrialStart, ApiError>)
    ensures
        req.arraignment_date is None ==> (r matches Err(e) && is_bad_request(
            e,
            "Arraignment date required"@,
        )),
        req.arraignment_date matches Some(a) ==> (r matches Ok(c) && c.arraignment_date == a
            && c.indictment_date == (match req.indictment_date {
            Some(i) => i,
            None => a,
        }) && c.arrest_date == req.arrest_date && c.days_elapsed == 0 && c.days_remaining == 70
            && !c.is_tolled && !c.waived),
{
    let arraignment = match req.arraignment_date {
        Some(a) => a,
        None => {
            return Err(ApiError::BadRequest(String::from_str("Arraignment date required")));
        },
    };
    let indictment = match req.indictment_date {
        Some(i) => i,
        None => arraignment,
    };
    Ok(
        SpeedyTrialStart {
            arrest_date: req.arrest_date,
            indictment_date: indictment,
            arraignment_date: arraignment,
            days_elapsed: 0,
            days_remaining: 70,
            is_tolled: false,
            waived: false,
        },
    )
}

/// The days an excludable delay stops the clock: the whole days from its
/// start to its end as chrono counts them, or none while it has no end.
/// `None` only where chrono cannot represent one of the instants.
pub fn excluded_days(start: Instant, end: Option<Instant>) -> (r: Option<i64>)
    ensures
        end is None ==> r == Some(0i64),
        end matches Some(e) ==> r == chrono_days_between(start, e),
        end matches Some(e) ==> (ordinary_instant(start) && ordinary_instant(e)) ==> r == Some(
            whole_days_between(start, e) as i64,
        ),
{
    match end {
        None => Some(0),
        Some(e) => days_between(start, e),
    }
}

/// The days an excludable delay from `start` to `end` stops the clock.
pub open spec fn excluded_days_spec(start: Instant, end: Option<Instant>) -> Option<i64> {
    match end {
        None => Some(0i64),
        Some(e) => chrono_days_between(start, e),
    }
}

/// An excludable delay of a Speedy Trial clock; `R` is its reason.
pub struct ExcludableDelay<R> {
    pub start_date: Instant,
    pub end_date: Option<Instant>,
    pub reason: R,
    pub statutory_reference: String,
    pub days_excluded: i64,
    pub order_reference: Option<String>,
}

/// Request to add an excludable delay to a Speedy Trial clock.
pub struct AddExcludableDelayRequest<R> {
    pub start_date: Instant,
    pub end_date: Option<Instant>,
    pub reason: R,
    pub statutory_reference: String,
    pub order_reference: Option<String>,
}

/// Appends the requested delay to the delays of a clock, after the ones it
/// has, with the request's dates, reason and references and the days it
/// excludes. `false`, with the delays unchanged, only where chrono cannot
/// represent one of the dates.
pub fn record_excludable_delay<R>(delays: &mut Vec<ExcludableDelay<R>>, req: AddExcludableDelayRequest<R>) -> (ok:
    bool)
    ensures
        ok <==> excluded_days_spec(req.start_date, req.end_date) is Some,
        excluded_days_spec(req.start_date, req.end_date) matches Some(d) ==> final(delays)@ == old(
            delays,
        )@.push(
            ExcludableDelay {
                start_date: req.start_date,
                end_date: req.end_date,
                reason: req.reason,
                statutory_reference: req.statutory_reference,
                days_excluded: d,
                order_reference: req.order_reference,
            },
        ),
        !ok ==> final(delays)@ == old(delays)@,
{
    match excluded_days(req.start_date, req.end_date) {
        Some(d) => {
            delays.push(
                ExcludableDelay {
                    start_date: req.start_date,
                    end_date: req.end_date,
                    reason: req.reason,
                    statutory_reference: req.statutory_reference,
                    days_excluded: d,
                    order_reference: req.order_reference,
                },
            );
            true
        },
        None => false,
    }
}

/// The end of an event that starts at `start` and lasts `minutes`.
pub fn event_end(start: Instant, minutes: u32) -> (r: Instant)
    requires
        start.secs + minutes * 60 <= i64::MAX,
    ensures
        r.secs == start.secs + minutes * 60,
        r.nanos == start.nanos,
{
    Instant { secs: start.secs + (minutes as i64) * 60, nanos: start.nanos }
}

/// The message refusing an event that overlaps `n` scheduled events.
pub open spec fn conflict_message(n: nat) -> Seq<char> {
    "Schedule conflict: "@ + decimal_text(n) + " existing events conflict with this time"@
}

/// An event may be scheduled only where it overlaps no scheduled event of
/// the judge; `conflicts` is how many it overlaps.
pub fn check_no_conflicts(conflicts: usize) -> (r: Result<(), ApiError>)
    ensures
        conflicts == 0 ==> r is Ok,
        conflicts > 0 ==> (r matches Err(e) && is_bad_request(
            e,
            conflict_message(conflicts as nat),
        )),
{
    if conflicts == 0 {
        Ok(())
    } else {
        let mut m = String::from_str("Schedule conflict: ");
        let n = u64_text(conflicts as u64);
        m.append(n.as_str());
        m.append(" existing events conflict with this time");
        Err(ApiError::BadRequest(m))
    }
}

/// The parts of a calendar event that a status update may record.
pub struct EventRecord {
    pub actual_start: Option<Instant>,
    pub actual_end: Option<Instant>,
    pub notes: String,
}

/// What a status update records besides the status.
pub struct EventUpdate {
    pub actual_start: Option<Instant>,
    pub actual_end: Option<Instant>,
    pub notes: Option<String>,
}

/// Records an event update: each value given replaces the event's, the
/// others stay. The flag says whether anything was given, in which case the
/// event is saved again.
pub fn apply_event_update(event: EventRecord, update: EventUpdate) -> (r: (EventRecord, bool))
    ensures
        r.0.actual_start == (match update.actual_start {
            Some(s) => Some(s),
            None => event.actual_start,
        }),
        r.0.actual_end == (match update.actual_end {
            Some(e) => Some(e),
            None => event.actual_end,
        }),
        r.0.notes == (match update.notes {
            Some(n) => n,
            None => event.notes,
        }),
        r.1 == (update.actual_start is Some || update.actual_end is Some
            || update.notes is Some),
{
    let changed = update.actual_start.is_some() || update.actual_end.is_some()
        || update.notes.is_some();
    let actual_start = match update.actual_start {
        Some(s) => Some(s),
        None => event.actual_start,
    };
    let actual_end = match update.actual_end {
        Some(e) => Some(e),
        None => event.actual_end,
    };
    let notes = match update.notes {
        Some(n) => n,
        None => event.notes,
    };
    (EventRecord { actual_start, actual_end, notes }, changed)
}

/// The length of the slot looked for: the `duration` parameter in minutes
/// when it parses as a `u32`, 60 otherwise.
pub fn slot_minutes(duration: Option<&str>) -> (n: u32)
    ensures
        match duration {
            Some(s) => match parse_unsigned(s@, u32::MAX as nat) {
                Some(v) => n == v,
                None => n == 60,
            },
            None => n == 60,
        },
{
    match duration {
        Some(s) => match parse_u32(s) {
            Some(v) => v,
            None => 60,
        },
        None => 60,
    }
}

/// How far ahead Speedy Trial deadlines count as approaching, in days.
pub fn approaching_threshold_days() -> (n: i64)
    ensures
        n == 14,
{
    14
}

/// The IDs a docket or calendar request can carry in its path.
pub enum DocketParam {
    Case,
    Entry,
    Event,
    Judge,
}

/// The message for a missing or malformed ID.
pub open spec fn docket_id_message(p: DocketParam) -> Seq<char> {
    match p {
        DocketParam::Case => "Invalid case ID"@,
        DocketParam::Entry => "Invalid entry ID"@,
        DocketParam::Event => "Invalid event ID"@,
        DocketParam::Judge => "Invalid judge ID"@,
    }
}

/// Reads an ID from the path; missing and malformed IDs get the same
/// message.
pub fn docket_param(p: DocketParam, v: Option<&str>) -> (r: Result<u128, ApiError>)
    ensures
        match v {
            Some(s) => match uuid_parse_str(s@) {
                Some(u) => r == Ok::<u128, ApiError>(u),
                None => r matches Err(e) && is_bad_request(e, docket_id_message(p)),
            },
            None => r matches Err(e) && is_bad_request(e, docket_id_message(p)),
        },
{
    match p {
        DocketParam::Case => uuid_param(v, "Invalid case ID"),
        DocketParam::Entry => uuid_param(v, "Invalid entry ID"),
        DocketParam::Event => uuid_param(v, "Invalid event ID"),
        DocketParam::Judge => uuid_param(v, "Invalid judge ID"),
    }
}

/// Path values a docket listing needs.
pub enum DocketFilter {
    EntryType,
    SearchText,
    Courtroom,
}

/// The message for a missing path value.
pub open spec fn docket_filter_message(f: DocketFilter) -> Seq<char> {
    match f {
        DocketFilter::EntryType => "Entry type required"@,
        DocketFilter::SearchText => "Search text required"@,
        DocketFilter::Courtroom => "Courtroom required"@,
    }
}

/// A path value that must be given.
pub fn docket_filter(f: DocketFilter, v: Option<&str>) -> (r: Result<String, ApiError>)
    ensures
        v matches Some(s) ==> (r matches Ok(t) && t@ == s@),
        v is None ==> (r matches Err(e) && is_bad_request(e, docket_filter_message(f))),
{
    match f {
        DocketFilter::EntryType => required_param(v, "Entry type required"),
        DocketFilter::SearchText => required_param(v, "Search text required"),
        DocketFilter::Courtroom => required_param(v, "Courtroom required"),
    }
}

/// The records a docket request looks up.
pub enum DocketRecord {
    Entry,
    Event,
    SpeedyTrialClock,
}

/// The message for a record that does not exist.
pub open spec fn docket_missing_message(k: DocketRecord) -> Seq<char> {
    match k {
        DocketRecord::Entry => "Docket entry not found"@,
        DocketRecord::Event => "Event not found"@,
        DocketRecord::SpeedyTrialClock => "Speedy Trial clock not found"@,
    }
}

/// A record that must exist.
pub fn docket_record<T>(k: DocketRecord, found: Option<T>) -> (r: Result<T, ApiError>)
    ensures
        found matches Some(t) ==> r == Ok::<T, ApiError>(t),
        found is None ==> (r matches Err(e) && is_not_found(e, docket_missing_message(k))),
{
    match k {
        DocketRecord::Entry => found_or(found, "Docket entry not found"),
        DocketRecord::Event => found_or(found, "Event not found"),
        DocketRecord::SpeedyTrialClock => found_or(found, "Speedy Trial clock not found"),
    }
}

} // verus!
