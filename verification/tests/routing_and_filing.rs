use court_api::handlers::docs::{docs_path, try_server_info};
use court_api::error::ApiError;
use court_api::handlers::config::{
    clear_confirmation, district_from_header, district_from_path, invalid_json_body, judge_from_header,
    judge_from_path, optional_value, overrides_found, update_confirmation, url_clear_confirmation,
    url_update_confirmation, ConfigScope,
};
use court_api::handlers::filing::{
    collect_deadline_results, deadline_computations, extract_district, filing_gate, filing_next, filing_receipt,
    list_jurisdictions, validation_response, ApplicableRule, FilingGate, FilingNext, RuleAction,
};
use court_api::time::Instant;
use court_api::handlers::url_district::add_district_header;

fn bad(r: Result<String, ApiError>) -> String {
    match r {
        Err(ApiError::BadRequest(m)) => m,
        _ => panic!("expected a bad request"),
    }
}

#[test]
fn district_header_is_required_and_not_empty() {
    assert_eq!(district_from_header(Some("SDNY")).ok(), Some("SDNY".to_string()));
    assert_eq!(bad(district_from_header(Some(""))), "X-Court-District header is required");
    assert_eq!(bad(district_from_header(None)), "X-Court-District header is required");
    assert_eq!(bad(judge_from_header(Some(""))), "X-Judge-ID header is required");
    assert_eq!(bad(district_from_path(None)), "District parameter is required in URL");
    assert_eq!(bad(judge_from_path(Some(""))), "Judge ID is required in URL");
    assert_eq!(optional_value(Some("")), None);
    assert_eq!(optional_value(Some("judge-123")), Some("judge-123".to_string()));
}

#[test]
fn override_lookups_and_confirmations() {
    assert!(matches!(overrides_found(Ok(Some(5u8)), ConfigScope::District), Ok(5)));
    assert!(matches!(overrides_found::<u8>(Ok(None), ConfigScope::District),
        Err(ApiError::NotFound(m)) if m == "No district overrides found"));
    assert!(matches!(overrides_found::<u8>(Ok(None), ConfigScope::Judge),
        Err(ApiError::NotFound(m)) if m == "No judge overrides found"));
    assert!(matches!(overrides_found::<u8>(Err(ApiError::Internal("x".to_string())), ConfigScope::Judge),
        Err(ApiError::Internal(m)) if m == "x"));
    assert_eq!(update_confirmation(ConfigScope::Judge), "Judge configuration updated successfully");
    assert_eq!(clear_confirmation(ConfigScope::District), "District overrides cleared successfully");
    assert_eq!(url_update_confirmation(ConfigScope::District, "sdny"), "District sdny configuration updated successfully");
    assert_eq!(url_clear_confirmation(ConfigScope::Judge, "j1"), "Judge j1 overrides cleared successfully");
    assert!(matches!(invalid_json_body("eof"), ApiError::BadRequest(m) if m == "Invalid JSON in request body: eof"));
}

#[test]
fn path_district_replaces_the_district_header() {
    let headers = vec![
        ("accept".to_string(), b"*/*".to_vec()),
        ("X-Court-District".to_string(), b"edny".to_vec()),
        ("x-judge-id".to_string(), b"j7".to_vec()),
    ];
    let out = add_district_header(headers, Some("sdny")).ok().unwrap();
    assert_eq!(out.len(), 3);
    assert_eq!(out[0].0, "accept");
    assert_eq!(out[1].0, "x-judge-id");
    assert_eq!(out[2], ("x-court-district".to_string(), b"sdny".to_vec()));
    let districts = out.iter().filter(|(n, _)| n.eq_ignore_ascii_case("x-court-district")).count();
    assert_eq!(districts, 1);
}

#[test]
fn path_district_is_required() {
    assert!(matches!(add_district_header(vec![], None),
        Err(ApiError::BadRequest(m)) if m == "District parameter is required in URL"));
    let out = add_district_header(vec![], Some("ndca")).ok().unwrap();
    assert_eq!(out, vec![("x-court-district".to_string(), b"ndca".to_vec())]);
}

#[test]
fn filing_district_comes_from_first_usable_header() {
    let headers = vec![
        ("Content-Type".to_string(), b"application/json".to_vec()),
        ("X-Tenant-ID".to_string(), vec![0xff, 0xfe]),
        ("X-COURT-DISTRICT".to_string(), b"ARWD".to_vec()),
    ];
    assert_eq!(extract_district(&headers).ok(), Some("arwd".to_string()));
    let none = vec![("accept".to_string(), b"x".to_vec())];
    assert!(matches!(extract_district(&none),
        Err(ApiError::BadRequest(m)) if m == "Missing required header: X-Court-District or X-Tenant-ID"));
}

#[test]
fn filing_gates_run_privacy_first() {
    assert!(matches!(filing_gate(Some(false), true), FilingGate::PrivacyViolation));
    assert!(matches!(filing_gate(Some(true), true), FilingGate::BlockedByRules));
    assert!(matches!(filing_gate(None, true), FilingGate::BlockedByRules));
    assert!(matches!(filing_gate(None, false), FilingGate::Accepted));
    let v = validation_response("report", false, true);
    assert!(v.would_accept && v.privacy_clean);
    assert!(!validation_response("report", true, true).would_accept);
    assert!(!validation_response("report", false, false).would_accept);
}

#[test]
fn deadline_results_split_into_deadlines_and_warnings() {
    let mut deadlines = vec![1u32];
    let mut warnings = vec!["earlier".to_string()];
    collect_deadline_results(
        vec![Ok(2u32), Err("no calendar".to_string()), Ok(3), Err("bad rule".to_string())],
        &mut deadlines,
        &mut warnings,
    );
    assert_eq!(deadlines, vec![1, 2, 3]);
    assert_eq!(warnings, vec![
        "earlier".to_string(),
        "Deadline computation failed: no calendar".to_string(),
        "Deadline computation failed: bad rule".to_string(),
    ]);
}

#[test]
fn jurisdictions_with_rule_packs() {
    assert_eq!(list_jurisdictions().jurisdictions, vec!["arwd", "sdny", "edny", "ndca"]);
}

#[test]
fn documentation_server_comes_from_runtime_headers() {
    assert_eq!(try_server_info(true, Some("http://127.0.0.1:3000/docs/index.html"), None),
        Some(("http://127.0.0.1:3000/".to_string(), "Local Development Server".to_string())));
    // The url crate reports no port when it is the scheme's default.
    assert_eq!(try_server_info(true, Some("http://localhost:80/"), None), None);
    assert_eq!(try_server_info(true, Some("not a url"), None), None);
    assert_eq!(try_server_info(true, None, Some("api.example.com")), None);
    assert_eq!(try_server_info(false, None, Some("api.example.com")),
        Some(("https://api.example.com/".to_string(), "Production Server".to_string())));
    assert_eq!(try_server_info(false, None, None), None);
    assert_eq!(docs_path(Some("/docs/swagger-ui.css")), "swagger-ui.css");
    assert_eq!(docs_path(Some("/docs/a/docs/b")), "ab");
    assert_eq!(docs_path(None), "/");
}

fn rules() -> Vec<ApplicableRule> {
    vec![
        ApplicableRule {
            citation: Some("FRCP 12(a)".to_string()),
            actions: vec![
                RuleAction::GenerateDeadline { description: "Answer due".to_string(), days_from_trigger: 21 },
                RuleAction::Other,
            ],
        },
        ApplicableRule {
            citation: None,
            actions: vec![RuleAction::GenerateDeadline { description: "Reply due".to_string(), days_from_trigger: 7 }],
        },
    ]
}

#[test]
fn accepted_filings_compute_one_deadline_per_deadline_action() {
    let v = deadline_computations(rules(), 20240105u32, 'e', &"sdny".to_string());
    assert_eq!(v.len(), 2);
    assert_eq!((v[0].trigger_date, v[0].period_days, v[0].service_method), (20240105, 21, 'e'));
    assert_eq!((v[0].description.as_str(), v[0].rule_citation.as_str()), ("Answer due", "FRCP 12(a)"));
    assert_eq!((v[1].description.as_str(), v[1].rule_citation.as_str()), ("Reply due", ""));
    assert_eq!(v[1].jurisdiction, "sdny");
    assert!(matches!(filing_next(Some(false), true, rules(), 1u8, None, 'e', &"x".to_string()),
        FilingNext::PrivacyViolation));
    assert!(matches!(filing_next(None, true, rules(), 1u8, None, 'e', &"x".to_string()), FilingNext::BlockedByRules));
    match filing_next(Some(true), false, rules(), 1u8, Some('m'), 'e', &"x".to_string()) {
        FilingNext::ComputeDeadlines(v) => {
            assert_eq!(v.len(), 2);
            assert_eq!(v[1].service_method, 'm');
        }
        _ => panic!("an accepted filing computes deadlines"),
    }
    match filing_next(None, false, rules(), 1u8, None, 'e', &"x".to_string()) {
        FilingNext::ComputeDeadlines(v) => assert_eq!(v[0].service_method, 'e'),
        _ => panic!("an accepted filing computes deadlines"),
    }
}

#[test]
fn accepted_filings_get_a_receipt_and_a_notice() {
    let now = Instant { secs: 1_700_000_000, nanos: 5 };
    let r = filing_receipt(42, now, "24-cv-1".to_string(), "Motion".to_string(), "Ann Lee".to_string(), 9u8);
    assert_eq!((r.filing_id, r.case_number.as_str(), r.document_type.as_str()), (42, "24-cv-1", "Motion"));
    assert!(r.docket_number.is_none());
    assert_eq!(r.compliance_report, 9);
    let nef = r.nef.unwrap();
    assert_eq!(nef.docket_text, "Motion filed by Ann Lee");
    assert_eq!(nef.recipients.len(), 1);
    assert_eq!(nef.recipients[0].name, "Ann Lee");
    assert!(nef.recipients[0].email.is_none());
    assert!(matches!(nef.recipients[0].served_at, Some(t) if t.secs == now.secs && t.nanos == 5));
    assert_eq!((r.filed_at.secs, nef.filed_at.secs), (1_700_000_000, 1_700_000_000));
}
