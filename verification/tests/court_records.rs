use court_api::error::ApiError;
use court_api::handlers::admin::{initialized_stores, store_name, tenant_or_default, tenant_stats, TenantStore};
use court_api::handlers::attorney::{
    looked_up, metrics_period, quoted, stored, top_limit, value_or_empty, waiver_flag, AttorneyRecord,
};
use court_api::handlers::criminal_case::{
    case_id_lenient, case_location, classify_notification_error, default_judge_initials,
    default_notification_method, default_victim_type, parse_case_query, parse_compliance_flag,
    parse_speedy_trial_dates, validate_create_case, CreateCaseRequest, NotificationMethod,
    StartSpeedyTrialRequest, VictimType,
};
use court_api::handlers::deadline::{
    check_extendable, deadline_param, federal_rules, granted_extension, reminder_response, report_window,
    upcoming_days, DeadlineParam,
};
use court_api::handlers::docket::{
    apply_event_update, check_no_conflicts, event_end, excluded_days, slot_minutes, start_speedy_trial,
    EventRecord, EventUpdate, InitSpeedyTrialRequest,
};
use court_api::handlers::features::{
    features_response, update_feature, AdvancedFeatures, CoreFeatures, ExperimentalFeatures, JudicialFeatures,
};
use court_api::handlers::health::{health_report, StorageProbe};
use court_api::handlers::judge::{conflict_check_response, rule_on_recusal, judge_param, JudgeParam};
use court_api::handlers::opinion::{
    apply_opinion_update, check_draft_owner, check_publishable, next_draft_version, next_headnote_number,
    parse_keywords, OpinionFields, UpdateOpinionRequest,
};
use court_api::handlers::order::{
    apply_order_update, check_required_variables, issue_order, named_record, order_page, sign_order,
    OrderFields, OrderLifecycle, OrderRecord, TemplateVariable, UpdateOrderRequest,
};
use court_api::handlers::rules::{evaluate_rules, rule_id, rule_page};
use court_api::time::Instant;
use court_api::update::{patch, patch_optional};

fn bad_message<T>(r: Result<T, ApiError>) -> String {
    match r {
        Err(ApiError::BadRequest(m)) => m,
        _ => panic!("expected a bad request"),
    }
}

fn at(secs: i64) -> Instant {
    Instant { secs, nanos: 0 }
}

#[test]
fn partial_updates_keep_what_they_do_not_name() {
    assert_eq!(patch(5, None), 5);
    assert_eq!(patch(5, Some(6)), 6);
    assert_eq!(patch_optional(Some(1), None), Some(1));
    assert_eq!(patch_optional(None, Some(2)), Some(2));
    let order = OrderFields {
        title: "Old".to_string(),
        content: "Body".to_string(),
        status: 1u8,
        is_sealed: false,
        effective_date: Some(at(10)),
        expiration_date: None,
    };
    let u = UpdateOrderRequest {
        title: Some("New".to_string()),
        content: None,
        status: None,
        is_sealed: Some(true),
        effective_date: None,
        expiration_date: Some(at(20)),
    };
    let o = apply_order_update(order, u);
    assert_eq!(o.title, "New");
    assert_eq!(o.content, "Body");
    assert_eq!(o.status, 1);
    assert!(o.is_sealed);
    assert_eq!(o.effective_date.unwrap().secs, 10);
    assert_eq!(o.expiration_date.unwrap().secs, 20);
    let none = UpdateOrderRequest { title: None, content: None, status: None, is_sealed: None,
        effective_date: None, expiration_date: None };
    let same = apply_order_update(o, none);
    assert_eq!(same.title, "New");
    assert_eq!(same.expiration_date.unwrap().secs, 20);
}

#[test]
fn opinion_updates_and_numbering() {
    let o = OpinionFields {
        title: "T".to_string(),
        syllabus: "S".to_string(),
        content: "C".to_string(),
        disposition: 'a',
        status: 0u8,
        keywords: vec!["x".to_string()],
    };
    let u = UpdateOpinionRequest { title: None, syllabus: Some("S2".to_string()), content: None,
        disposition: None, status: Some(2u8), keywords: Some(vec![]) };
    let o = apply_opinion_update(o, u);
    assert_eq!((o.title.as_str(), o.syllabus.as_str(), o.status, o.disposition), ("T", "S2", 2, 'a'));
    assert!(o.keywords.is_empty());
    assert_eq!(next_headnote_number(0), 1);
    assert_eq!(next_headnote_number(4), 5);
    assert_eq!(next_draft_version(None), 1);
    assert_eq!(next_draft_version(Some(3)), 4);
    assert!(check_publishable(true).is_ok());
    assert_eq!(bad_message(check_publishable(false)), "Opinion must be filed before publishing");
    assert_eq!(bad_message(check_draft_owner("op-1", "op-2")), "Draft does not belong to this opinion");
    assert!(check_draft_owner("op-1", "op-1").is_ok());
    assert_eq!(parse_keywords(" fourth amendment, search ,,seizure"),
        vec!["fourth amendment", "search", "", "seizure"]);
}

#[test]
fn orders_are_signed_once_and_issued_only_when_signed() {
    let fresh = OrderLifecycle { signed: false, issued: false };
    assert_eq!(bad_message(issue_order(OrderLifecycle { signed: false, issued: false })),
        "Order must be signed before issuing");
    let signed = sign_order(fresh).ok().unwrap();
    assert!(signed.signed && !signed.issued);
    assert_eq!(bad_message(sign_order(OrderLifecycle { signed: true, issued: false })), "Order already signed");
    let issued = issue_order(signed).ok().unwrap();
    assert!(issued.signed && issued.issued);
}

#[test]
fn templates_need_their_required_variables() {
    let vars = vec![
        TemplateVariable { name: "defendant".to_string(), required: true },
        TemplateVariable { name: "date".to_string(), required: false },
        TemplateVariable { name: "judge".to_string(), required: true },
        TemplateVariable { name: "court".to_string(), required: true },
    ];
    assert!(check_required_variables(&vars, &vec!["defendant".to_string(), "judge".to_string(), "court".to_string()]).is_ok());
    assert_eq!(bad_message(check_required_variables(&vars, &vec!["defendant".to_string()])),
        "Missing required variable: judge");
    assert_eq!(order_page(None, None), (100, 0));
    assert_eq!(order_page(Some("5"), Some("x")), (5, 0));
    assert!(matches!(named_record::<u8>(OrderRecord::Order, "o-9", None),
        Err(ApiError::NotFound(m)) if m == "Order o-9 not found"));
}

#[test]
fn extensions_and_deadlines() {
    assert!(check_extendable(true, false).is_ok());
    assert_eq!(bad_message(check_extendable(false, true)), "This deadline is not extendable");
    assert_eq!(bad_message(check_extendable(true, true)), "Jurisdictional deadlines cannot be extended");
    let pending = vec![vec![(1u128, 100i64)], vec![(2, 200), (3, 300), (3, 301)], vec![(3, 400)]];
    assert_eq!(granted_extension(&pending, 3), Some((1, 300)));
    assert_eq!(granted_extension(&pending, 9), None);
    assert_eq!(upcoming_days(None), 30);
    assert_eq!(upcoming_days(Some("-5")), -5);
    assert_eq!(upcoming_days(Some("soon")), 30);
    let r = reminder_response(vec!["a@x".to_string(), "b@x".to_string()]);
    assert_eq!(r.sent_count, 2);
    assert_eq!(bad_message(deadline_param(DeadlineParam::Extension, Some("x"))), "Invalid extension ID");
    let (s, e) = report_window(None, Some("bad"), at(5_000_000));
    assert_eq!((s.secs, e.secs), (5_000_000 - 2_592_000, 5_000_000));
    let rules = federal_rules();
    assert_eq!(rules.len(), 3);
    assert_eq!(rules[2].days_to_respond, 70);
}

#[test]
fn calendar_and_speedy_trial() {
    assert!(check_no_conflicts(0).is_ok());
    assert_eq!(bad_message(check_no_conflicts(2)), "Schedule conflict: 2 existing events conflict with this time");
    assert_eq!(event_end(at(1000), 90).secs, 1000 + 5400);
    assert_eq!(slot_minutes(None), 60);
    assert_eq!(slot_minutes(Some("45")), 45);
    assert_eq!(excluded_days(at(0), None), Some(0));
    assert_eq!(excluded_days(at(0), Some(at(3 * 86400 + 5))), Some(3));
    assert_eq!(excluded_days(at(10 * 86400), Some(at(86400 / 2))), Some(-9));
    let req = InitSpeedyTrialRequest { arrest_date: None, indictment_date: None, arraignment_date: Some(at(77)) };
    let c = start_speedy_trial(&req).ok().unwrap();
    assert_eq!((c.indictment_date.secs, c.days_remaining, c.days_elapsed), (77, 70, 0));
    let none = InitSpeedyTrialRequest { arrest_date: None, indictment_date: None, arraignment_date: None };
    assert_eq!(bad_message(start_speedy_trial(&none)), "Arraignment date required");
    let ev = EventRecord { actual_start: None, actual_end: Some(at(9)), notes: "n".to_string() };
    let (ev, changed) = apply_event_update(ev, EventUpdate { actual_start: Some(at(3)), actual_end: None, notes: None });
    assert!(changed);
    assert_eq!((ev.actual_start.unwrap().secs, ev.actual_end.unwrap().secs, ev.notes.as_str()), (3, 9, "n"));
    let (_, changed) = apply_event_update(ev, EventUpdate { actual_start: None, actual_end: None, notes: None });
    assert!(!changed);
}

#[test]
fn recusals_reassign_only_when_granted_with_a_replacement() {
    let r = rule_on_recusal(1, 2, "prior representation", None, "Granted", true, Some(3), true, at(500));
    assert_eq!((r.status, r.ruling_date.secs), ("Granted", 500));
    assert_eq!(r.replacement_judge_id, Some(3));
    let a = r.reassignment.unwrap();
    assert_eq!((a.case_id, a.judge_id, a.previous_judge_id), (1, 3, 2));
    assert_eq!(a.reason, "Reassigned due to recusal: prior representation");
    assert_eq!(a.reassignment_reason, "Recusal granted");
    assert_eq!((r.unassign_from, r.assign_to), (Some(2), Some(3)));
    let r = rule_on_recusal(1, 2, "g", Some(8), "Denied", false, Some(3), true, at(7));
    assert_eq!((r.unassign_from, r.assign_to), (None, None));
    assert_eq!((r.status, r.ruling_date.secs), ("Denied", 7));
    assert_eq!(r.replacement_judge_id, Some(8));
    assert!(r.reassignment.is_none());
    let r = rule_on_recusal(1, 2, "g", None, "Granted", true, Some(3), false, at(9));
    assert_eq!(r.replacement_judge_id, Some(3));
    assert!(r.reassignment.is_none());
    let c = conflict_check_response(vec![(5u128, 'x'), (5, 'y'), (6, 'z')]);
    assert!(c.conflicts_found);
    assert_eq!(c.judges_with_conflicts, vec![5, 5, 6]);
    assert!(!conflict_check_response::<char>(vec![]).conflicts_found);
    assert_eq!(bad_message(judge_param(JudgeParam::Recusal, None)), "Invalid recusal ID");
}

#[test]
fn rules_attorneys_and_tenants() {
    let e = evaluate_rules();
    assert_eq!((e.message.as_str(), e.evaluated_count), ("Rule evaluation is not yet implemented (Phase 2)", 0));
    assert_eq!(rule_page(None, Some("10")), (0, 10));
    assert_eq!(rule_page(Some("-1"), None), (0, 50));
    assert_eq!(bad_message(rule_id(Some("12"))), "Invalid rule ID");
    assert!(matches!(looked_up::<u8>(Ok(None), AttorneyRecord::BarNumber, "NY123"),
        Err(ApiError::NotFound(m)) if m == "Attorney with bar number NY123 not found"));
    assert!(matches!(looked_up::<u8>(Err("kv".to_string()), AttorneyRecord::Party, "p"),
        Err(ApiError::StorageError(m)) if m == "kv"));
    assert!(matches!(stored::<u8>(Err("full".to_string())), Err(ApiError::StorageError(m)) if m == "full"));
    assert!(waiver_flag(Some("true")));
    assert!(!waiver_flag(Some("TRUE")));
    assert!(!waiver_flag(None));
    assert_eq!(top_limit(None), 10);
    assert_eq!(top_limit(Some("3")), 3);
    assert_eq!(metrics_period(None, Some("2025-06-30")), ("2024-01-01".to_string(), "2025-06-30".to_string()));
    assert_eq!(quoted("active"), "\"active\"");
    assert_eq!(value_or_empty(None), "");
    assert_eq!(tenant_or_default(None), "default");
    assert_eq!(store_name(TenantStore::Docket, "sdny"), "docket_sdny");
    assert_eq!(initialized_stores(), vec!["cases", "deadlines", "docket", "judges"]);
    let s = tenant_stats(Ok(4), Err("x".to_string()), Ok(2));
    assert_eq!((s.cases, s.pending_deadlines, s.docket_entries, s.judges), (4, 0, 0, 2));
}

#[test]
fn health_follows_storage() {
    let (code, h) = health_report(StorageProbe::Connected, "0.1.0", "t".to_string());
    assert_eq!((code, h.status, h.storage), (200, "healthy", "connected"));
    let (code, h) = health_report(StorageProbe::Disconnected, "0.1.0", "t".to_string());
    assert_eq!((code, h.status, h.storage), (503, "degraded", "disconnected"));
    let (code, h) = health_report(StorageProbe::Error, "0.1.0", "t".to_string());
    assert_eq!((code, h.status, h.storage), (503, "degraded", "error"));
}

fn features() -> JudicialFeatures {
    JudicialFeatures {
        core: CoreFeatures { case_management: true, basic_docket: true, party_management: false },
        advanced: AdvancedFeatures {
            judge_assignment: false,
            automated_scheduling: false,
            deadline_tracking: true,
            statistical_reporting: false,
            sentencing_calculator: false,
        },
        experimental: ExperimentalFeatures {
            mdl_proceedings: false,
            ai_assisted_research: false,
            automated_transcription: false,
            predictive_analytics: false,
        },
    }
}

#[test]
fn switched_features_show_in_the_report() {
    let mut f = features();
    assert!(update_feature(&mut f, "reporting", true).is_ok());
    assert!(update_feature(&mut f, "case_management", false).is_ok());
    let r = features_response(&f, vec![]);
    assert!(r.reporting && !r.case_management && r.docket_management && r.deadline_tracking);
    assert!(!r.document_filing && !r.audit_logging);
    assert_eq!(bad_message(update_feature(&mut f, "teleportation", true)), "Unknown feature: teleportation");
    assert!(f.advanced.statistical_reporting);
}

#[test]
fn criminal_case_checks() {
    assert_eq!(default_judge_initials(), "UNK");
    assert!(matches!(default_victim_type(), VictimType::Individual));
    assert!(matches!(default_notification_method(), NotificationMethod::Email));
    let mut req = CreateCaseRequest {
        title: " ".to_string(),
        description: String::new(),
        crime_type: "fraud".to_string(),
        district_code: String::new(),
        assigned_judge_id: None,
        judge_initials: "ABC".to_string(),
        location: "NY".to_string(),
    };
    assert_eq!(bad_message(validate_create_case(&req)), "Case title cannot be empty");
    req.title = "US v. Doe".to_string();
    assert_eq!(bad_message(validate_create_case(&req)), "District code is required");
    req.district_code = "SDNY".to_string();
    assert!(validate_create_case(&req).is_ok());
    assert!(parse_compliance_flag("a=1&compliance=TRUE"));
    assert!(!parse_compliance_flag("compliance=yes&compliance=true"));
    assert!(!parse_compliance_flag(""));
    let q = parse_case_query("status=open&page=3&limit=10&active=false").ok().unwrap();
    assert_eq!((q.status.as_deref(), q.offset, q.limit, q.is_active), (Some("open"), 20, 10, Some(false)));
    assert_eq!(bad_message(parse_case_query("judge=abc")), "Invalid judge ID format");
}

#[test]
fn case_pages_are_counted_in_the_final_limit() {
    let q = parse_case_query("page=3&limit=10").ok().unwrap();
    assert_eq!((q.offset, q.limit), (20, 10));
    let q = parse_case_query("limit=10&page=3").ok().unwrap();
    assert_eq!((q.offset, q.limit), (20, 10));
    let q = parse_case_query("page=2").ok().unwrap();
    assert_eq!((q.offset, q.limit), (20, 20));
    let q = parse_case_query("limit=100").ok().unwrap();
    assert_eq!((q.offset, q.limit), (0, 100));
    assert_eq!(bad_message(parse_case_query("page=0")), "Invalid page number");
    assert_eq!(bad_message(parse_case_query("limit=500")), "Invalid limit value");
    assert_eq!(bad_message(parse_case_query("limit=0")), "Invalid limit value");
    assert_eq!(bad_message(parse_case_query("active=maybe&page=0")), "Invalid active value");
    assert_eq!(bad_message(parse_case_query("page=9223372036854775807&limit=100")), "Invalid page number");
}

#[test]
fn case_query_messages_for_the_remaining_steps() {
    assert_eq!(bad_message(case_id_lenient(None)), "Missing case ID");
    assert_eq!(case_location(1), "/api/cases/00000000-0000-0000-0000-000000000001");
    assert!(matches!(classify_notification_error("Victim not found".to_string()), ApiError::NotFound(_)));
    assert!(matches!(classify_notification_error("opted out".to_string()), ApiError::BadRequest(_)));
    let dates = StartSpeedyTrialRequest {
        arrest_date: None,
        indictment_date: Some("2024-02-01T00:00:00Z".to_string()),
        arraignment_date: Some("later".to_string()),
    };
    assert_eq!(bad_message(parse_speedy_trial_dates(&dates)), "Invalid arraignment date format");
}
