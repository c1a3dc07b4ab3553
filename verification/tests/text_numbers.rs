use court_api::ids::{optional_uuid, parse_uuid, uuid_param, required_param, found_or};
use court_api::error::ApiError;
use court_api::parse::{i64_text, parse_bool, parse_i64, parse_u32, parse_usize, u64_text};
use court_api::text::{chars_of, trim_chars};
use court_api::time::{add_days, coming_window, parse_optional_rfc3339, parse_rfc3339, parse_rfc3339_or, Instant};

fn trimmed(s: &str) -> String {
    trim_chars(&chars_of(s)).into_iter().collect()
}

#[test]
fn decimal_text_of_numbers() {
    assert_eq!(u64_text(0), "0");
    assert_eq!(u64_text(7), "7");
    assert_eq!(u64_text(1234567890), "1234567890");
    assert_eq!(u64_text(u64::MAX), "18446744073709551615");
    assert_eq!(i64_text(-42), "-42");
    assert_eq!(i64_text(i64::MIN), "-9223372036854775808");
    assert_eq!(i64_text(i64::MAX), "9223372036854775807");
}

#[test]
fn decimal_text_reads_back() {
    for n in [0u64, 9, 10, 99, 100, 65535, 4294967295] {
        assert_eq!(parse_usize(&u64_text(n)), Some(n as usize));
    }
    for n in [-1i64, 0, 17, -9000, i64::MIN, i64::MAX] {
        assert_eq!(parse_i64(&i64_text(n)), Some(n));
    }
}

#[test]
fn parse_numbers_like_from_str() {
    assert_eq!(parse_usize("+12"), Some(12));
    assert_eq!(parse_usize(""), None);
    assert_eq!(parse_usize("-1"), None);
    assert_eq!(parse_usize(" 1"), None);
    assert_eq!(parse_u32("4294967295"), Some(u32::MAX));
    assert_eq!(parse_u32("4294967296"), None);
    assert_eq!(parse_i64("-9223372036854775808"), Some(i64::MIN));
    assert_eq!(parse_i64("9223372036854775808"), None);
    assert_eq!(parse_bool("true"), Some(true));
    assert_eq!(parse_bool("false"), Some(false));
    assert_eq!(parse_bool("True"), None);
}

#[test]
fn trim_removes_surrounding_whitespace_only() {
    assert_eq!(trimmed("  civil rights \t"), "civil rights");
    assert_eq!(trimmed("\u{3000}x\u{a0}"), "x");
    assert_eq!(trimmed("   "), "");
    assert_eq!(trimmed("a b"), "a b");
}

#[test]
fn uuids_are_read_by_the_uuid_crate() {
    let u = parse_uuid("123e4567-e89b-12d3-a456-426614174000");
    assert_eq!(u, Some(0x123e4567_e89b_12d3_a456_426614174000u128));
    assert_eq!(parse_uuid("123E4567E89B12D3A456426614174000"), u);
    assert_eq!(parse_uuid("not-a-uuid"), None);
    assert_eq!(optional_uuid(None), None);
}

#[test]
fn uuid_param_errors_share_one_message() {
    assert!(matches!(uuid_param(None, "Invalid rule ID"), Err(ApiError::BadRequest(m)) if m == "Invalid rule ID"));
    assert!(matches!(uuid_param(Some("x"), "Invalid rule ID"), Err(ApiError::BadRequest(m)) if m == "Invalid rule ID"));
    assert!(matches!(uuid_param(Some("00000000-0000-0000-0000-000000000001"), "m"), Ok(1)));
    assert!(matches!(required_param(None, "Status required"), Err(ApiError::BadRequest(m)) if m == "Status required"));
    assert!(matches!(required_param(Some("active"), "m"), Ok(s) if s == "active"));
    assert!(matches!(found_or(None::<u8>, "Rule not found"), Err(ApiError::NotFound(m)) if m == "Rule not found"));
    assert!(matches!(found_or(Some(3u8), "m"), Ok(3)));
}

#[test]
fn rfc3339_is_read_by_chrono_in_utc() {
    let t = parse_rfc3339("2024-01-02T03:04:05.5+01:00").unwrap();
    assert_eq!(t.secs, 1704161045);
    assert_eq!(t.nanos, 500_000_000);
    assert!(parse_rfc3339("2024-13-01T00:00:00Z").is_none());
    assert!(matches!(parse_optional_rfc3339(None), Ok(None)));
    assert!(parse_optional_rfc3339(Some("yesterday")).is_err());
}

#[test]
fn time_defaults_and_windows() {
    let now = Instant { secs: 1_000_000_000, nanos: 7 };
    let later = add_days(now, 30);
    assert_eq!(later.secs, 1_002_592_000);
    assert_eq!(add_days(now, -365).secs, 1_000_000_000 - 31_536_000);
    let d = parse_rfc3339_or(Some("bad"), now);
    assert_eq!(d.secs, now.secs);
    let (s, e) = coming_window(None, Some("1970-01-02T00:00:00Z"), now);
    assert_eq!(s.secs, now.secs);
    assert_eq!(e.secs, 86400);
    let (_, e2) = coming_window(None, None, now);
    assert_eq!(e2.secs, 1_002_592_000);
}
