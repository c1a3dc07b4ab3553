//! Points in time, read from RFC 3339 text with chrono.
use vstd::prelude::*;

verus! {

/// A point in time in UTC: whole seconds since the Unix epoch and the
/// nanoseconds past that second.
#[derive(Clone, Copy)]
pub struct Instant {
    pub secs: i64,
    pub nanos: u32,
}

/// What `chrono::DateTime::parse_from_rfc3339` reads from a text, converted
/// to UTC and given as (seconds since the epoch, nanoseconds), or `None`
/// where chrono rejects the text.
pub uninterp spec fn rfc3339_utc(s: Seq<char>) -> Option<(i64, u32)>;

/// Calls `chrono::DateTime::parse_from_rfc3339`, converts the result to UTC
/// (`with_timezone(&Utc)`) and returns its `timestamp()` and
/// `timestamp_subsec_nanos()`. Which texts chrono accepts is left to chrono:
/// the contract names the result and states nothing more of it.
#[verifier::external_body]
fn parse_rfc3339_parts(s: &str) -> (r: Option<(i64, u32)>)
    ensures
        r == rfc3339_utc(s@),
{
    match chrono::DateTime::parse_from_rfc3339(s) {
        Ok(d) => {
            let u = d.with_timezone(&chrono::Utc);
            Some((u.timestamp(), u.timestamp_subsec_nanos()))
        },
        Err(_) => None,
    }
}

/// The instant an RFC 3339 text denotes, if chrono accepts it.
pub open spec fn rfc3339_instant(s: Seq<char>) -> Option<Instant> {
    match rfc3339_utc(s) {
        Some((secs, nanos)) => Some(Instant { secs, nanos }),
        None => None,
    }
}

/// Parses an RFC 3339 timestamp into an instant in UTC.
pub fn parse_rfc3339(s: &str) -> (r: Option<Instant>)
    ensures
        r == rfc3339_instant(s@),
{
    match parse_rfc3339_parts(s) {
        Some((secs, nanos)) => Some(Instant { secs, nanos }),
        None => None,
    }
}

/// Parses an optional RFC 3339 timestamp: an absent text gives `Ok(None)`,
/// a valid one `Ok(Some(instant))`, and a text that is not RFC 3339 gives
/// `Err(())`.
pub fn parse_optional_rfc3339(s: Option<&str>) -> (r: Result<Option<Instant>, ()>)
    ensures
        s is None ==> r == Ok::<Option<Instant>, ()>(None),
        s matches Some(t) ==> r == match rfc3339_instant(t@) {
            Some(i) => Ok::<Option<Instant>, ()>(Some(i)),
            None => Err(()),
        },
{
    match s {
        None => Ok(None),
        Some(t) => match parse_rfc3339(t) {
            Some(i) => Ok(Some(i)),
            None => Err(()),
        },
    }
}

/// The instant an optional RFC 3339 text denotes, or `default` when the
/// text is absent or chrono rejects it.
pub open spec fn instant_or(s: Option<Seq<char>>, default: Instant) -> Instant {
    match s {
        Some(t) => match rfc3339_instant(t) {
            Some(i) => i,
            None => default,
        },
        None => default,
    }
}

/// Reads an optional RFC 3339 text, falling back to `default`.
pub fn parse_rfc3339_or(s: Option<&str>, default: Instant) -> (r: Instant)
    ensures
        r == instant_or(
            match s {
                Some(t) => Some(t@),
                None => None,
            },
            default,
        ),
{
    match s {
        Some(t) => match parse_rfc3339(t) {
            Some(i) => i,
            None => default,
        },
        None => default,
    }
}

/// The instant `days` whole days after `t` (before it, for negative
/// `days`).
pub fn add_days(t: Instant, days: i64) -> (r: Instant)
    requires
        i64::MIN <= t.secs + days * 86400 <= i64::MAX,
    ensures
        r.secs == t.secs + days * 86400,
        r.nanos == t.nanos,
{
    proof {
        assert(days * 86400 <= i64::MAX - i64::MIN) by (nonlinear_arith)
            requires
                i64::MIN <= t.secs + days * 86400 <= i64::MAX,
                i64::MIN <= t.secs <= i64::MAX,
        ;
    }
    let d: i128 = (days as i128) * 86400;
    let s: i128 = (t.secs as i128) + d;
    Instant { secs: s as i64, nanos: t.nanos }
}

/// The period a listing covers: from `start` (default `now`) to `end`
/// (default thirty days after `now`).
pub fn coming_window(start: Option<&str>, end: Option<&str>, now: Instant) -> (r: (Instant, Instant))
    requires
        now.secs + 2_592_000 <= i64::MAX,
    ensures
        r.0 == instant_or(
            match start {
                Some(t) => Some(t@),
                None => None,
            },
            now,
        ),
        r.1 == instant_or(
            match end {
                Some(t) => Some(t@),
                None => None,
            },
            Instant { secs: (now.secs + 2_592_000) as i64, nanos: now.nanos },
        ),
{
    let later = add_days(now, 30);
    (parse_rfc3339_or(start, now), parse_rfc3339_or(end, later))
}

/// The whole days from `start` to `end` as chrono counts them: both
/// rebuilt with `DateTime::<Utc>::from_timestamp`, subtracted, and
/// `TimeDelta::num_days` taken; `None` where chrono cannot rebuild one of
/// them.
pub uninterp spec fn chrono_days_between(start: Instant, end: Instant) -> Option<i64>;

/// The whole days from `start` to `end`: the exact difference, truncated
/// toward zero to whole seconds, then to whole days.
pub open spec fn whole_days_between(start: Instant, end: Instant) -> int {
    let ns = (end.secs - start.secs) * 1_000_000_000 + (end.nanos - start.nanos);
    let secs = if ns >= 0 {
        ns / 1_000_000_000
    } else {
        -((-ns) / 1_000_000_000)
    };
    if secs >= 0 {
        secs / 86400
    } else {
        -((-secs) / 86400)
    }
}

/// Instants chrono represents as ordinary (non-leap) times: under a second
/// of nanoseconds, and within about 250,000 years of 1970, well inside
/// chrono's dates.
pub open spec fn ordinary_instant(t: Instant) -> bool {
    t.nanos < 1_000_000_000 && -8_000_000_000_000 <= t.secs <= 8_000_000_000_000
}

/// Calls `chrono::DateTime::<Utc>::from_timestamp` on both instants, then
/// `(end - start).num_days()`. For ordinary instants that is
/// `whole_days_between` (chrono's `TimeDelta::num_seconds` truncates
/// toward zero, and `num_days` divides that by 86,400); for others
/// (leap-second nanoseconds, dates near chrono's limits) the result is only
/// named.
#[verifier::external_body]
pub(crate) fn days_between(start: Instant, end: Instant) -> (r: Option<i64>)
    ensures
        r == chrono_days_between(start, end),
        ordinary_instant(start) && ordinary_instant(end) ==> r == Some(whole_days_between(start, end) as i64),
{
    match (
        chrono::DateTime::<chrono::Utc>::from_timestamp(start.secs, start.nanos),
        chrono::DateTime::<chrono::Utc>::from_timestamp(end.secs, end.nanos),
    ) {
        (Some(a), Some(b)) => Some((b - a).num_days()),
        _ => None,
    }
}

/// The RFC 3339 text chrono writes for an instant in UTC
/// (`DateTime::<Utc>::to_rfc3339`), or `None` where chrono cannot represent
/// the instant.
pub uninterp spec fn rfc3339_text(t: Instant) -> Option<Seq<char>>;

/// Calls `chrono::DateTime::<Utc>::from_timestamp` and `to_rfc3339`. The
/// contract names the text through `rfc3339_text`; its exact form (offset
/// `+00:00`, fractional digits) is chrono's.
#[verifier::external_body]
pub(crate) fn format_rfc3339(t: Instant) -> (r: Option<String>)
    ensures
        match r {
            Some(s) => rfc3339_text(t) == Some(s@),
            None => rfc3339_text(t) is None,
        },
{
    chrono::DateTime::<chrono::Utc>::from_timestamp(t.secs, t.nanos).map(|d| d.to_rfc3339())
}

} // verus!
