use court_api::error::ApiError;
use court_api::handlers::case_response::{
    begin_create_case, case_response, created_case, CaseRecord, ClockRecord, DefendantRecord, EvidenceRecord,
};
use court_api::handlers::criminal_case::CreateCaseRequest;
use court_api::handlers::deadline::{rule_on_extension_effects, PendingDeadline};
use court_api::handlers::docket::{excluded_days, record_excludable_delay, AddExcludableDelayRequest};
use court_api::handlers::rules::{update_rule, RuleRecord, RuleUpdate};
use court_api::time::Instant;

fn at(secs: i64) -> Instant {
    Instant { secs, nanos: 0 }
}

fn deadline(due: u32, requests: Vec<(u128, u32)>, tag: char) -> PendingDeadline<u32, &'static str, char> {
    PendingDeadline { due_date: due, status: "Pending", extension_requests: requests, rest: tag }
}

#[test]
fn granted_extensions_save_the_first_deadline_holding_them() {
    let pending = vec![deadline(10, vec![(1, 11)], 'a'), deadline(20, vec![(5, 25), (5, 26)], 'b'),
        deadline(30, vec![(5, 35)], 'c')];
    let r = rule_on_extension_effects(5, "Granted", true, "Extended", pending);
    assert_eq!(r.extension_status, (5, "Granted"));
    let saved = r.saved_deadline.unwrap();
    assert_eq!((saved.due_date, saved.status, saved.rest), (25, "Extended", 'b'));
    assert_eq!(saved.extension_requests, vec![(5, 25), (5, 26)]);
    let r = rule_on_extension_effects(5, "Denied", false, "Extended", vec![deadline(20, vec![(5, 25)], 'b')]);
    assert_eq!(r.extension_status, (5, "Denied"));
    assert!(r.saved_deadline.is_none());
    let r = rule_on_extension_effects(9, "Granted", true, "Extended", vec![deadline(20, vec![(5, 25)], 'b')]);
    assert!(r.saved_deadline.is_none());
}

#[test]
fn excludable_delays_are_appended_with_their_days() {
    let mut delays = Vec::new();
    let ok = record_excludable_delay(&mut delays, AddExcludableDelayRequest {
        start_date: at(0),
        end_date: Some(at(3 * 86400 + 5)),
        reason: "competency",
        statutory_reference: "18 U.S.C. 3161(h)(1)(A)".to_string(),
        order_reference: None,
    });
    assert!(ok);
    let ok = record_excludable_delay(&mut delays, AddExcludableDelayRequest {
        start_date: at(100),
        end_date: None,
        reason: "interlocutory appeal",
        statutory_reference: "18 U.S.C. 3161(h)(1)(C)".to_string(),
        order_reference: Some("ECF 12".to_string()),
    });
    assert!(ok);
    assert_eq!(delays.len(), 2);
    assert_eq!((delays[0].days_excluded, delays[0].reason), (3, "competency"));
    assert_eq!((delays[1].days_excluded, delays[1].start_date.secs), (0, 100));
    assert_eq!(delays[1].order_reference.as_deref(), Some("ECF 12"));
    // Days count the exact difference, truncated toward zero.
    assert_eq!(excluded_days(Instant { secs: 0, nanos: 500 }, Some(Instant { secs: 86400, nanos: 499 })), Some(0));
    assert_eq!(excluded_days(Instant { secs: 86400, nanos: 1 }, Some(at(0))), Some(-1));
    assert_eq!(excluded_days(at(2 * 86400), Some(Instant { secs: 1, nanos: 0 })), Some(-1));
}

fn rule() -> RuleRecord<u8, u8, u8, u8, u8, u8, u8, i64> {
    RuleRecord {
        name: "Answer".to_string(),
        description: "d".to_string(),
        source: 1,
        category: 2,
        triggers: vec![3],
        conditions: vec![],
        actions: vec![4],
        priority: 5,
        status: 6,
        jurisdiction: Some("sdny".to_string()),
        citation: None,
        effective_date: None,
        expiration_date: Some(9),
        supersedes_rule_id: None,
        updated_at: 0,
    }
}

#[test]
fn rule_updates_set_only_the_fields_given() {
    let u = RuleUpdate {
        name: Some("Reply".to_string()),
        description: None,
        source: None,
        category: Some(7),
        triggers: None,
        conditions: Some(vec![8]),
        actions: None,
        priority: None,
        status: None,
        jurisdiction: None,
        citation: Some("FRCP 12".to_string()),
        effective_date: None,
        expiration_date: None,
        supersedes_rule_id: Some(4),
    };
    let r = update_rule(rule(), u, 1000);
    assert_eq!((r.name.as_str(), r.description.as_str(), r.category, r.source), ("Reply", "d", 7, 1));
    assert_eq!((r.conditions, r.actions), (vec![8], vec![4]));
    assert_eq!((r.jurisdiction.as_deref(), r.citation.as_deref()), (Some("sdny"), Some("FRCP 12")));
    assert_eq!((r.expiration_date, r.supersedes_rule_id, r.updated_at), (Some(9), Some(4), 1000));
}

fn case() -> CaseRecord<&'static str, &'static str, &'static str, &'static str> {
    CaseRecord {
        id: 1,
        case_number: "24-cr-1".to_string(),
        title: "US v. Doe".to_string(),
        description: String::new(),
        crime_type: "Fraud",
        status: "Open",
        priority: "High",
        assigned_judge_id: Some(2),
        district_code: "SDNY".to_string(),
        location: "NY".to_string(),
        opened_at: at(0),
        updated_at: at(86400),
        closed_at: None,
        defendants: vec![DefendantRecord {
            id: 3,
            name: "Doe".to_string(),
            aliases: vec!["J".to_string()],
            usm_number: None,
            fbi_number: None,
            custody_status: "InCustody".to_string(),
            counts: 2,
        }],
        evidence: vec![EvidenceRecord {
            id: 4,
            description: "phone".to_string(),
            evidence_type: "Digital",
            is_sealed: false,
            custody_transfers: 3,
            created_at: at(60),
        }],
        notes: 5,
        docket_entries: 6,
        is_sealed: false,
        sealed_date: None,
        sealed_by: None,
        seal_reason: None,
        speedy_trial: Some(ClockRecord {
            days_elapsed: 1,
            days_remaining: 69,
            is_tolled: false,
            waived: false,
            trial_start_deadline: at(70 * 86400),
            excludable_delays: 0,
        }),
        victims: 7,
    }
}

#[test]
fn stored_cases_are_reported_with_counts_and_rfc3339_dates() {
    let r = case_response(case()).unwrap();
    assert_eq!((r.id, r.case_number.as_str(), r.status), (1, "24-cr-1", "Open"));
    assert_eq!(r.opened_at, "1970-01-01T00:00:00+00:00");
    assert_eq!(r.updated_at, "1970-01-02T00:00:00+00:00");
    assert_eq!((r.evidence_count, r.notes_count, r.docket_entries_count, r.victims_count), (1, 5, 6, 7));
    assert_eq!((r.defendants[0].counts_count, r.defendants[0].custody_status.as_str()), (2, "InCustody"));
    assert_eq!((r.evidence[0].custody_transfers_count, r.evidence[0].created_at.as_str()), (3, "1970-01-01T00:01:00+00:00"));
    assert_eq!(r.speedy_trial_status.unwrap().trial_start_deadline, "1970-03-12T00:00:00+00:00");
    let mut far = case();
    far.opened_at = at(i64::MAX);
    assert!(case_response(far).is_none());
}

#[test]
fn new_cases_are_checked_then_reported_with_their_location() {
    let mut req = CreateCaseRequest {
        title: " ".to_string(),
        description: String::new(),
        crime_type: "fraud".to_string(),
        district_code: "SDNY".to_string(),
        assigned_judge_id: None,
        judge_initials: "ABC".to_string(),
        location: "NY".to_string(),
    };
    assert!(matches!(begin_create_case("compliance=true", &req),
        Err(ApiError::BadRequest(m)) if m == "Case title cannot be empty"));
    req.title = "US v. Doe".to_string();
    assert_eq!(begin_create_case("compliance=TRUE", &req).ok(), Some(true));
    assert_eq!(begin_create_case("", &req).ok(), Some(false));
    let c = created_case(case(), true, Ok::<u8, ApiError>(9)).unwrap();
    assert_eq!(c.location, "/api/cases/00000000-0000-0000-0000-000000000001");
    assert_eq!(c.compliance_report, Some(9));
    let c = created_case(case(), true, Err::<u8, ApiError>(ApiError::Internal("rules".to_string()))).unwrap();
    assert!(c.compliance_report.is_none());
    assert!(created_case(case(), false, Ok::<u8, ApiError>(9)).unwrap().compliance_report.is_none());
}
