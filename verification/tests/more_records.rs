use court_api::error::ApiError;
use court_api::handlers::criminal_case::{
    case_by_number_found, case_filing_context, case_found, clock_started, defendant_found, path_param,
    speedy_trial_status, CaseMissingStyle,
};
use court_api::handlers::features::{feature_path_param, store_error, tracker_seed, SeedStatus};
use court_api::time::Instant;
use court_api::handlers::filing::{case_type_or_default, invalid_filing_json, nef_docket_text, rules_load_failed};

fn not_found_message<T>(r: Result<T, ApiError>) -> String {
    match r {
        Err(ApiError::NotFound(m)) => m,
        _ => panic!("expected not found"),
    }
}

#[test]
fn missing_cases_are_reported_by_id() {
    assert_eq!(not_found_message(case_found::<u8>(None, 255, CaseMissingStyle::WithId)),
        "Case with id 00000000-0000-0000-0000-0000000000ff not found");
    assert_eq!(not_found_message(case_found::<u8>(None, 1, CaseMissingStyle::Plain)),
        "Case 00000000-0000-0000-0000-000000000001 not found");
    assert!(matches!(case_found(Some(9u8), 1, CaseMissingStyle::Plain), Ok(9)));
    assert_eq!(not_found_message(case_by_number_found::<u8>(None, "24-cr-1")), "Case with number 24-cr-1 not found");
    assert_eq!(not_found_message(defendant_found::<u8>(None, 2, 3)),
        "Defendant 00000000-0000-0000-0000-000000000002 not found in case 00000000-0000-0000-0000-000000000003");
    assert_eq!(not_found_message(clock_started::<u8>(None)), "Speedy trial clock not initialized for this case");
    assert!(matches!(path_param(None, "status"), Err(ApiError::Internal(m)) if m == "Missing path parameter 'status'"));
}

#[test]
fn new_cases_are_checked_in_their_district() {
    let c = case_filing_context("SDNY", Some(16));
    assert_eq!(c.jurisdiction_id, "sdny");
    assert_eq!(c.document_type, "case_initiation");
    assert_eq!(c.filer_role, "clerk");
    assert_eq!(c.assigned_judge.as_deref(), Some("00000000-0000-0000-0000-000000000010"));
    assert!(case_filing_context("ndca", None).assigned_judge.is_none());
}

#[test]
fn filing_texts() {
    assert_eq!(case_type_or_default(None), "criminal");
    assert_eq!(case_type_or_default(Some("civil")), "civil");
    assert_eq!(nef_docket_text("Motion to Dismiss", "AUSA Lee"), "Motion to Dismiss filed by AUSA Lee");
    assert!(matches!(invalid_filing_json("eof"), ApiError::BadRequest(m) if m == "Invalid JSON: eof"));
    assert!(matches!(rules_load_failed("kv"), ApiError::Internal(m) if m == "Failed to load rules: kv"));
}

#[test]
fn feature_store_and_tracker() {
    assert!(matches!(store_error("closed"), ApiError::Internal(m) if m == "Store error: closed"));
    assert!(matches!(feature_path_param(None), Err(ApiError::BadRequest(m)) if m == "Feature path required"));
    assert!(tracker_seed(false).is_empty());
    let seed = tracker_seed(true);
    assert_eq!(seed.len(), 4);
    assert_eq!((seed[1].name, seed[1].module, seed[1].estimated_hours, seed[1].actual_hours), ("Judge Assignment", "judge", 30, Some(32)));
    assert!(seed.iter().all(|f| f.progress_percentage == 100 && matches!(f.status, SeedStatus::Completed)
        && f.blockers.is_empty() && f.dependencies.is_empty()));
}

#[test]
fn speedy_trial_status_reports_the_deadline_in_rfc3339() {
    let s = speedy_trial_status(12, 58, false, true, Instant { secs: 86400, nanos: 0 }, 2).unwrap();
    assert_eq!(s.trial_start_deadline, "1970-01-02T00:00:00+00:00");
    assert_eq!((s.days_elapsed, s.days_remaining, s.is_tolled, s.waived, s.excludable_delays_count), (12, 58, false, true, 2));
    assert!(speedy_trial_status(0, 70, false, false, Instant { secs: i64::MAX, nanos: 0 }, 0).is_none());
}
