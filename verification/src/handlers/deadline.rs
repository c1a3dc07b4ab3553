//! Deadlines and their extensions: which deadlines may be extended, what a
//! granted extension changes, and the defaults of deadline queries.
use vstd::prelude::*;
use crate::error::{ApiError, is_bad_request, is_not_found, bad_request};
use crate::ids::{uuid_parse_str, uuid_param, required_param, found_or};
use crate::parse::{parse_signed64, parse_i64};
use crate::time::{Instant, rfc3339_instant, parse_rfc3339};

verus! {

/// A new status for a deadline; `S` is the deadline status.
pub struct StatusUpdate<S> {
    pub status: S,
}

/// A page of deadlines; `D` is the deadline record.
pub struct SearchResponse<D> {
    pub deadlines: Vec<D>,
    pub total: usize,
}

/// The reminders sent: how many, and to whom.
pub struct ReminderResponse {
    pub sent_count: usize,
    pub recipients: Vec<String>,
}

/// A ruling on an extension request; `S` is the extension status.
pub struct RuleOnExtensionRequest<S> {
    pub status: S,
    pub order_text: Option<String>,
}

/// The pending extension requests, each with its deadline; `E` is the
/// extension record.
pub struct PendingExtensionsResponse<E> {
    pub extensions: Vec<(u128, E)>,
    pub total: usize,
}

/// Whether a deadline may be extended: it must be extendable, and it must
/// not be jurisdictional (checked in that order).
pub fn check_extendable(is_extendable: bool, is_jurisdictional: bool) -> (r: Result<(), ApiError>)
    ensures
        !is_extendable ==> (r matches Err(e) && is_bad_request(
            e,
            "This deadline is not extendable"@,
        )),
        is_extendable && is_jurisdictional ==> (r matches Err(e) && is_bad_request(
            e,
            "Jurisdictional deadlines cannot be extended"@,
        )),
        is_extendable && !is_jurisdictional ==> r is Ok,
{
    if !is_extendable {
        return Err(bad_request("This deadline is not extendable"));
    }
    if is_jurisdictional {
        return Err(bad_request("Jurisdictional deadlines cannot be extended"));
    }
    Ok(())
}

/// The IDs a deadline request can carry in its path.
pub enum DeadlineParam {
    Deadline,
    Case,
    Extension,
    Reminder,
}

/// The message for a missing or malformed ID.
pub open spec fn invalid_id_message(p: DeadlineParam) -> Seq<char> {
    match p {
        DeadlineParam::Deadline => "Invalid deadline ID"@,
        DeadlineParam::Case => "Invalid case ID"@,
        DeadlineParam::Extension => "Invalid extension ID"@,
        DeadlineParam::Reminder => "Invalid reminder ID"@,
    }
}

/// Reads an ID from the path: missing and malformed IDs are both answered
/// with the ID's `Invalid … ID` message.
pub fn deadline_param(p: DeadlineParam, v: Option<&str>) -> (r: Result<u128, ApiError>)
    ensures
        match v {
            Some(s) => match uuid_parse_str(s@) {
                Some(u) => r == Ok::<u128, ApiError>(u),
                None => r matches Err(e) && is_bad_request(e, invalid_id_message(p)),
            },
            None => r matches Err(e) && is_bad_request(e, invalid_id_message(p)),
        },
{
    match p {
        DeadlineParam::Deadline => uuid_param(v, "Invalid deadline ID"),
        DeadlineParam::Case => uuid_param(v, "Invalid case ID"),
        DeadlineParam::Extension => uuid_param(v, "Invalid extension ID"),
        DeadlineParam::Reminder => uuid_param(v, "Invalid reminder ID"),
    }
}

/// The records a deadline request looks up.
pub enum DeadlineRecord {
    Deadline,
    Extension,
}

/// A deadline or extension that must exist.
pub fn deadline_record<T>(kind: DeadlineRecord, found: Option<T>) -> (r: Result<T, ApiError>)
    ensures
        found matches Some(t) ==> r == Ok::<T, ApiError>(t),
        found is None ==> (r matches Err(e) && is_not_found(
            e,
            match kind {
                DeadlineRecord::Deadline => "Deadline not found"@,
                DeadlineRecord::Extension => "Extension not found"@,
            },
        )),
{
    match kind {
        DeadlineRecord::Deadline => found_or(found, "Deadline not found"),
        DeadlineRecord::Extension => found_or(found, "Extension not found"),
    }
}

/// The deadline type of a by-type listing, which must be given.
pub fn deadline_type_param(v: Option<&str>) -> (r: Result<String, ApiError>)
    ensures
        v matches Some(s) ==> (r matches Ok(t) && t@ == s@),
        v is None ==> (r matches Err(e) && is_bad_request(e, "Deadline type required"@)),
{
    required_param(v, "Deadline type required")
}

/// The recipient of a reminder listing, which must be given.
pub fn recipient_param(v: Option<&str>) -> (r: Result<String, ApiError>)
    ensures
        v matches Some(s) ==> (r matches Ok(t) && t@ == s@),
        v is None ==> (r matches Err(e) && is_bad_request(e, "Recipient required"@)),
{
    required_param(v, "Recipient required")
}

/// Whether a deadline's extension requests include the given one.
pub open spec fn has_extension<T>(exts: Seq<(u128, T)>, id: u128) -> bool {
    exists|j: int| 0 <= j < exts.len() && exts[j].0 == id
}

/// The first position in `exts` of the extension `id`.
pub open spec fn is_first_extension<T>(exts: Seq<(u128, T)>, id: u128, j: int) -> bool {
    &&& 0 <= j < exts.len()
    &&& exts[j].0 == id
    &&& forall|k: int| 0 <= k < j ==> exts[k].0 != id
}

fn find_extension<T: Copy>(exts: &Vec<(u128, T)>, id: u128) -> (r: Option<T>)
    ensures
        match r {
            Some(d) => exists|j: int| is_first_extension(exts@, id, j) && exts@[j].1 == d,
            None => !has_extension(exts@, id),
        },
{
    let mut j: usize = 0;
    while j < exts.len()
        invariant
            j <= exts@.len(),
            forall|k: int| 0 <= k < j ==> exts@[k].0 != id,
        decreases exts.len() - j,
    {
        if exts[j].0 == id {
            assert(is_first_extension(exts@, id, j as int));
            return Some(exts[j].1);
        }
        j = j + 1;
    }
    None
}

/// What granting the extension `id` changes among the pending deadlines,
/// given as the extension requests (ID and requested due date) of each: the
/// first deadline that holds the request gets the requested due date and
/// becomes extended. The result is that deadline's position and its new due
/// date, or `None` when no pending deadline holds the request.
pub fn granted_extension<T: Copy>(pending: &Vec<Vec<(u128, T)>>, id: u128) -> (r: Option<
    (usize, T),
>)
    ensures
        match r {
            Some((i, d)) => {
                &&& i < pending@.len()
                &&& exists|j: int| is_first_extension(pending@[i as int]@, id, j) && pending@[i as int]@[j].1 == d
                &&& forall|k: int| 0 <= k < i ==> !has_extension(#[trigger] pending@[k]@, id)
            },
            None => forall|k: int| 0 <= k < pending@.len() ==> !has_extension(#[trigger] pending@[k]@, id),
        },
{
    let mut i: usize = 0;
    while i < pending.len()
        invariant
            i <= pending@.len(),
            forall|k: int| 0 <= k < i ==> !has_extension(#[trigger] pending@[k]@, id),
        decreases pending.len() - i,
    {
        match find_extension(&pending[i], id) {
            Some(d) => {
                return Some((i, d));
            },
            None => {},
        }
        i = i + 1;
    }
    None
}

/// A pending deadline as an extension ruling sees it: its due date and
/// status, the extension requests it holds (ID and requested due date), and
/// the rest of its record, `R`.
pub struct PendingDeadline<D, S, R> {
    pub due_date: D,
    pub status: S,
    pub extension_requests: Vec<(u128, D)>,
    pub rest: R,
}

/// What a ruling on an extension writes: the extension's new status, and
/// the deadline to save, if any.
pub struct ExtensionRuling<X, D, S, R> {
    pub extension_status: (u128, X),
    pub saved_deadline: Option<PendingDeadline<D, S, R>>,
}

/// Whether `new_due` is the due date the first request for the extension
/// `id` held by the deadline asks for.
pub open spec fn requested_due_date<D, S, R>(d: PendingDeadline<D, S, R>, id: u128, new_due: D) -> bool {
    exists|j: int| #[trigger] is_first_extension(d.extension_requests@, id, j) && d.extension_requests@[j].1 == new_due
}

/// Rules on the extension `id`: it is given `status` in every case. When
/// the ruling grants it (`granted`), the first pending deadline holding the
/// request is saved with the requested due date and the status `extended`,
/// its other fields kept; no other deadline is saved, and none when the
/// ruling does not grant it.
pub fn rule_on_extension_effects<X, D: Copy, S, R>(
    id: u128,
    status: X,
    granted: bool,
    extended: S,
    pending: Vec<PendingDeadline<D, S, R>>,
) -> (r: ExtensionRuling<X, D, S, R>)
    ensures
        r.extension_status == (id, status),
        !granted ==> r.saved_deadline is None,
        granted ==> ((forall|k: int| 0 <= k < pending@.len() ==> !has_extension(#[trigger] pending@[k].extension_requests@, id))
            <==> r.saved_deadline is None),
        r.saved_deadline matches Some(s) ==> exists|i: int|
            0 <= i < pending@.len() && (forall|k: int| 0 <= k < i ==> !has_extension(#[trigger] pending@[k].extension_requests@, id))
                && requested_due_date(#[trigger] pending@[i], id, s.due_date) && s.status == extended
                && s.extension_requests == pending@[i].extension_requests && s.rest == pending@[i].rest,
{
    if !granted {
        return ExtensionRuling { extension_status: (id, status), saved_deadline: None };
    }
    let ghost all = pending@;
    let mut v = pending;
    let mut i: usize = 0;
    while i < v.len()
        invariant
            granted,
            v@ == all,
            all == pending@,
            i <= all.len(),
            forall|k: int| 0 <= k < i ==> !has_extension(#[trigger] all[k].extension_requests@, id),
        decreases v.len() - i,
    {
        match find_extension(&v[i].extension_requests, id) {
            Some(d) => {
                let deadline = v.remove(i);
                proof {
                    assert(deadline == all[i as int]);
                    assert(requested_due_date(all[i as int], id, d));
                    assert(has_extension(all[i as int].extension_requests@, id));
                }
                let saved = PendingDeadline {
                    due_date: d,
                    status: extended,
                    extension_requests: deadline.extension_requests,
                    rest: deadline.rest,
                };
                return ExtensionRuling { extension_status: (id, status), saved_deadline: Some(saved) };
            },
            None => {},
        }
        i = i + 1;
    }
    ExtensionRuling { extension_status: (id, status), saved_deadline: None }
}

/// The answer to sending the pending reminders: their number and
/// recipients, in order.
pub fn reminder_response(recipients: Vec<String>) -> (r: ReminderResponse)
    ensures
        r.sent_count == recipients@.len(),
        r.recipients == recipients,
{
    ReminderResponse { sent_count: recipients.len(), recipients }
}

/// The pending extensions with their number.
pub fn pending_extensions_response<E>(extensions: Vec<(u128, E)>) -> (r: PendingExtensionsResponse<
    E,
>)
    ensures
        r.total == extensions@.len(),
        r.extensions == extensions,
{
    PendingExtensionsResponse { total: extensions.len(), extensions }
}

/// The window of upcoming deadlines, in days: the `days` parameter when it
/// parses as an `i64`, 30 otherwise.
pub fn upcoming_days(days: Option<&str>) -> (n: i64)
    ensures
        match days {
            Some(s) => match parse_signed64(s@) {
                Some(v) => n == v,
                None => n == 30,
            },
            None => n == 30,
        },
{
    match days {
        Some(s) => match parse_i64(s) {
            Some(v) => v,
            None => 30,
        },
        None => 30,
    }
}

/// Thirty days, in seconds.
pub open spec fn thirty_days() -> int {
    2_592_000int
}

/// The period a compliance report covers: `start` and `end` when they are
/// RFC 3339 times, otherwise thirty days before `now` and `now`.
pub fn report_window(start: Option<&str>, end: Option<&str>, now: Instant) -> (r: (
    Instant,
    Instant,
))
    requires
        now.secs >= i64::MIN + 2_592_000,
    ensures
        r.0 == match start {
            Some(s) => match rfc3339_instant(s@) {
                Some(t) => t,
                None => Instant { secs: (now.secs - thirty_days()) as i64, nanos: now.nanos },
            },
            None => Instant { secs: (now.secs - thirty_days()) as i64, nanos: now.nanos },
        },
        r.1 == match end {
            Some(s) => match rfc3339_instant(s@) {
                Some(t) => t,
                None => now,
            },
            None => now,
        },
{
    let default_start = Instant { secs: now.secs - 2_592_000, nanos: now.nanos };
    let s = match start {
        Some(text) => match parse_rfc3339(text) {
            Some(t) => t,
            None => default_start,
        },
        None => default_start,
    };
    let e = match end {
        Some(text) => match parse_rfc3339(text) {
            Some(t) => t,
            None => now,
        },
        None => now,
    };
    (s, e)
}

/// A federal rule of procedure with its response period.
pub struct FederalRule {
    pub rule_number: String,
    pub title: String,
    pub days_to_respond: u32,
    pub is_calendar_days: bool,
    pub includes_weekends: bool,
    pub service_adds_days: u32,
}

fn rule(
    number: &str,
    title: &str,
    days: u32,
    calendar: bool,
    weekends: bool,
    service: u32,
) -> (r: FederalRule)
    ensures
        r.rule_number@ == number@,
        r.title@ == title@,
        r.days_to_respond == days,
        r.is_calendar_days == calendar,
        r.includes_weekends == weekends,
        r.service_adds_days == service,
{
    FederalRule {
        rule_number: String::from_str(number),
        title: String::from_str(title),
        days_to_respond: days,
        is_calendar_days: calendar,
        includes_weekends: weekends,
        service_adds_days: service,
    }
}

/// The federal rules the deadline calculator knows, with their periods.
pub fn federal_rules() -> (v: Vec<FederalRule>)
    ensures
        v@.len() == 3,
        v@[0].rule_number@ == "FRCP 12(a)(1)(A)"@ && v@[0].title@ == "Answer to complaint"@
            && v@[0].days_to_respond == 21 && v@[0].is_calendar_days && !v@[0].includes_weekends
            && v@[0].service_adds_days == 3,
        v@[1].rule_number@ == "FRCP 56(b)"@ && v@[1].title@ == "Motion for summary judgment"@
            && v@[1].days_to_respond == 30 && !v@[1].is_calendar_days
            && !v@[1].includes_weekends && v@[1].service_adds_days == 0,
        v@[2].rule_number@ == "FRCrP 45(c)"@ && v@[2].title@
            == "Speedy Trial - Trial must commence"@ && v@[2].days_to_respond == 70
            && v@[2].is_calendar_days && v@[2].includes_weekends && v@[2].service_adds_days == 0,
{
    let mut v: Vec<FederalRule> = Vec::new();
    v.push(rule("FRCP 12(a)(1)(A)", "Answer to complaint", 21, true, false, 3));
    v.push(rule("FRCP 56(b)", "Motion for summary judgment", 30, false, false, 0));
    v.push(rule("FRCrP 45(c)", "Speedy Trial - Trial must commence", 70, true, true, 0));
    v
}

} // verus!
