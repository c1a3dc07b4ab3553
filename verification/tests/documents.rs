use base64::Engine;
use court_api::handlers::federal_forms::{
    form_case, form_disposition, standard_conditions, test_case, test_judgment, test_release_parties,
    test_waiver, FederalForm, TestCase,
};
use court_api::handlers::pdf::{
    assigned_judge, auto_rule16b_docket_entry, docket_entry_missing, fetched, find_docket_entry,
    invalid_request, minute_entry_disposition, minute_entry_sources, auto_rule16b_record, auto_rule16b_reply,
    CaseStatusUpdate, DocketEntryKind, order_disposition, requested_judge, rule16b_disposition, Record,
};
use court_api::handlers::pdf_batch::{
    batch_reply, batch_response, default_output_format, document_filename, generated_document,
    generator_for, output_format, zip_batch_reply, BatchReply, DocumentRequest, Generator, OutputFormat,
};
use court_api::handlers::pdf_hexagonal::{
    begin_batch, begin_document, begin_signed_rule16b, build_reply, choose_signature,
    create_document_request, document_type_label, failure_reply, finish_batch, on_generated, on_service,
    parsed_body, prepare_batch, refusal, signature_found, signature_judge_id, signature_stored,
    signed_rule16b_document, signature_lookup, signed_rule16b_reply, wants_pdf, DocumentError, DocumentMetadata, DocumentRequestDto, DocumentType,
    GeneratedBatchDocument, GeneratedPdf, GenerationKind, PdfFailure, PdfReply, PdfStep, Rule16bRequest,
};
use court_api::handlers::pdf_working::{
    court_order_disposition, minute_entry_case_disposition, rule16b_case_disposition, test_case_for,
    working_request, GenerateMinuteEntryRequest, GenerateOrderRequest, GenerateRule16bRequest,
};

fn ok() -> Result<(), String> {
    Ok(())
}

fn no(m: &str) -> Result<(), String> {
    Err(m.to_string())
}

fn gen_pdf() -> GeneratedPdf {
    GeneratedPdf {
        filename: "order.pdf".to_string(),
        pdf_data: vec![1, 2, 3],
        document_id: "id-1".to_string(),
    }
}

fn waiver(case: &str) -> DocumentRequestDto {
    DocumentRequestDto::WaiverIndictment {
        case_number: case.to_string(),
        defendant_name: "D".to_string(),
        charges: "C".to_string(),
    }
}

fn order(case: &str, sig: Option<&str>) -> DocumentRequestDto {
    DocumentRequestDto::CourtOrder {
        case_number: case.to_string(),
        defendant_names: "A, B".to_string(),
        judge_name: "Hon. J".to_string(),
        order_title: "T".to_string(),
        order_content: "C".to_string(),
        signature_base64: sig.map(|s| s.to_string()),
    }
}

#[test]
fn document_requests_check_case_number_then_judge() {
    assert!(matches!(create_document_request(order("1", None), "sdny".to_string(), no("bad case"), no("bad judge")),
        Err(DocumentError::InvalidCaseNumber(m)) if m == "bad case"));
    assert!(matches!(create_document_request(order("1", None), "sdny".to_string(), ok(), no("bad judge")),
        Err(DocumentError::InvalidJudgeName(m)) if m == "bad judge"));
    // A waiver of indictment names no judge.
    assert!(create_document_request(waiver("1"), "sdny".to_string(), ok(), no("bad judge")).is_ok());
    let p = create_document_request(order("24-cr-1", Some("sig")), "sdny".to_string(), ok(), ok()).ok().unwrap();
    assert_eq!(p.case_number, "24-cr-1");
    assert_eq!(p.district, "sdny");
    assert!(matches!(p.document_type, DocumentType::CourtOrder));
    match p.metadata {
        DocumentMetadata::CourtOrder { signature: Some(s), judge_name, .. } => {
            assert_eq!(s.judge_name, "Hon. J");
            assert_eq!(s.signature_base64, "sig");
            assert_eq!(judge_name, "Hon. J");
        }
        _ => panic!("expected a signed court order"),
    }
}

#[test]
fn batches_stop_at_the_first_refused_document() {
    let r = prepare_batch(vec![waiver("1"), order("2", None), waiver("3")], &"edny".to_string(),
        vec![ok(), ok(), no("third")], vec![ok(), no("second judge"), ok()]);
    assert!(matches!(r, Err(DocumentError::InvalidJudgeName(m)) if m == "second judge"));
    let fine = prepare_batch(vec![waiver("1"), waiver("2")], &"edny".to_string(), vec![ok(), ok()],
        vec![no("x"), no("y")]);
    let docs = fine.ok().unwrap();
    assert_eq!(docs.len(), 2);
    assert_eq!(docs[1].case_number, "2");
}

#[test]
fn reply_format_follows_path_then_accept_header() {
    assert!(wants_pdf(Some("pdf"), Some("application/json")));
    assert!(!wants_pdf(Some("json"), Some("application/pdf")));
    assert!(wants_pdf(None, Some("text/html, application/pdf;q=0.9")));
    assert!(!wants_pdf(None, None));
    let g = || GeneratedPdf {
        filename: "order.pdf".to_string(),
        pdf_data: vec![1, 2, 3],
        document_id: "id-1".to_string(),
    };
    match build_reply(true, g(), "court_order", "24-cr-1".to_string()) {
        PdfReply::Raw { content_disposition, pdf } => {
            assert_eq!(content_disposition, "attachment; filename=\"order.pdf\"");
            assert_eq!(pdf, vec![1, 2, 3]);
        }
        _ => panic!("expected raw bytes"),
    }
    match build_reply(false, g(), "court_order", "24-cr-1".to_string()) {
        PdfReply::Json(j) => {
            assert_eq!(j.size_bytes, 3);
            assert_eq!(j.pdf_base64, "AQID");
            assert_eq!(j.document_type, "court_order");
            assert_eq!(j.case_number, "24-cr-1");
        }
        _ => panic!("expected JSON"),
    }
}

#[test]
fn failures_become_json_errors() {
    let r = failure_reply(&PdfFailure::InvalidBody("eof".to_string()));
    assert_eq!(r.status, 400);
    assert_eq!(r.body, "{\"error\": \"Invalid request: eof\"}");
    let r = failure_reply(&PdfFailure::ServiceUnavailable("kv".to_string()));
    assert_eq!((r.status, r.body.as_str()), (500, "{\"error\": \"Service initialization failed: kv\"}"));
    let r = failure_reply(&PdfFailure::SignatureNotFound);
    assert_eq!((r.status, r.body.as_str()), (404, "{\"error\": \"Signature not found\"}"));
    let r = failure_reply(&PdfFailure::SignedGenerationFailed("x".to_string()));
    assert_eq!(r.body, "{\"error\": \"Failed to generate PDF: x\"}");
    let r = failure_reply(&PdfFailure::BatchFailed("y".to_string()));
    assert_eq!(r.body, "{\"error\": \"Batch generation failed: y\"}");
}

#[test]
fn signatures_are_stored_and_found_by_judge_uuid() {
    assert!(matches!(signature_judge_id("123e4567-e89b-12d3-a456-426614174000"), Ok(_)));
    match signature_judge_id("judge-1") {
        Err(PdfFailure::InvalidJudgeId(m)) => assert!(!m.is_empty()),
        _ => panic!("expected an invalid judge id"),
    }
    assert!(matches!(signature_found(Ok(Some(1u8))), Ok(1)));
    assert!(matches!(signature_found::<u8>(Ok(None)), Err(PdfFailure::SignatureNotFound)));
    assert!(matches!(signature_found::<u8>(Err("io".to_string())), Err(PdfFailure::RetrieveFailed(m)) if m == "io"));
    assert_eq!(signature_stored(Ok(())).ok().unwrap(), "{\"message\": \"Signature stored successfully\"}");
    assert_eq!(choose_signature(None, Some("stored".to_string())), Some("stored".to_string()));
    assert_eq!(choose_signature(Some("given".to_string()), Some("stored".to_string())), Some("given".to_string()));
    assert_eq!(document_type_label(&DocumentType::ConditionsRelease), "conditions_release");
}

#[test]
fn unparsed_bodies_are_refused_with_400() {
    match parsed_body::<u8>(Err("expected value".to_string())) {
        Err(PdfFailure::InvalidBody(m)) => assert_eq!(m, "expected value"),
        _ => panic!("expected an invalid body"),
    }
    assert!(matches!(parsed_body(Ok(5u8)), Ok(5)));
    let step = begin_document(Ok("sdny".to_string()), Err("eof".to_string()), ok(), ok());
    match step {
        PdfStep::Fail(r) => assert_eq!((r.status, r.body.as_str()), (400, "{\"error\": \"Invalid request: eof\"}")),
        _ => panic!("expected a refusal"),
    }
}

#[test]
fn document_requests_run_their_checks_in_order() {
    match begin_document(Err("Unknown district".to_string()), Err("eof".to_string()), no("c"), no("j")) {
        PdfStep::Fail(r) => assert_eq!((r.status, r.body.as_str()), (400, "{\"error\": \"Unknown district\"}")),
        _ => panic!("the district is checked first"),
    }
    match begin_document(Ok("sdny".to_string()), Ok(order("1", None)), no("Invalid case number"), no("j")) {
        PdfStep::Fail(r) => assert_eq!((r.status, r.body.as_str()), (400, "{\"error\": \"Invalid case number\"}")),
        _ => panic!("the case number is checked before the judge"),
    }
    let doc = match begin_document(Ok("sdny".to_string()), Ok(order("24-cr-1", None)), ok(), ok()) {
        PdfStep::CreateService(p) => p,
        _ => panic!("a valid request sets up the service"),
    };
    assert_eq!(doc.case_number, "24-cr-1");
    match on_service(doc, Err("kv down".to_string())) {
        PdfStep::Fail(r) => assert_eq!((r.status, r.body.as_str()),
            (500, "{\"error\": \"Service initialization failed: kv down\"}")),
        _ => panic!("a missing service fails"),
    }
    let doc = match begin_document(Ok("sdny".to_string()), Ok(waiver("7")), ok(), ok()) {
        PdfStep::CreateService(p) => p,
        _ => panic!("a valid waiver sets up the service"),
    };
    assert!(matches!(on_service(doc, ok()), PdfStep::Generate(p) if p.case_number == "7"));
    match on_generated(Err("boom".to_string()), GenerationKind::Document, true, "court_order", "1".to_string()) {
        PdfStep::Fail(r) => assert_eq!((r.status, r.body.as_str()), (500, "{\"error\": \"Generation failed: boom\"}")),
        _ => panic!("a generation error fails"),
    }
    match on_generated(Err("boom".to_string()), GenerationKind::SignedRule16b, false, "rule16b", "1".to_string()) {
        PdfStep::Fail(r) => assert_eq!(r.body, "{\"error\": \"Failed to generate PDF: boom\"}"),
        _ => panic!("a generation error fails"),
    }
    match on_generated(Ok(gen_pdf()), GenerationKind::Document, false, "court_order", "1".to_string()) {
        PdfStep::Reply(PdfReply::Json(j)) => assert_eq!((j.size_bytes, j.pdf_base64.as_str()), (3, "AQID")),
        _ => panic!("expected a JSON reply"),
    }
    match refusal(DocumentError::InvalidJudgeName("no judge".to_string())) {
        PdfFailure::InvalidDocument(m) => assert_eq!(m, "no judge"),
        _ => panic!("a refusal is an invalid document"),
    }
}

#[test]
fn signed_rule16b_orders_use_the_stored_signature() {
    let req = Rule16bRequest {
        case_number: "24-cr-3".to_string(),
        defendant_names: "A".to_string(),
        judge_name: "Hon. K".to_string(),
        trial_date: None,
        discovery_deadline: None,
        motion_deadline: None,
        pretrial_conference_date: None,
        signature_base64: None,
        judge_id: None,
    };
    assert!(matches!(begin_signed_rule16b(Ok("sdny".to_string()), Err::<Rule16bRequest, String>("eof".to_string())),
        Err(r) if r.status == 400 && r.body == "{\"error\": \"Invalid request: eof\"}"));
    let run = begin_signed_rule16b(Ok("sdny".to_string()), Ok(req)).ok().unwrap();
    match signed_rule16b_document(run, Ok(Some("stored-sig".to_string())), ok(), ok()) {
        PdfStep::Generate(p) => match p.metadata {
            DocumentMetadata::Rule16b { signature: Some(s), .. } => assert_eq!(s.signature_base64, "stored-sig"),
            _ => panic!("expected a signed order"),
        },
        _ => panic!("expected a document to generate"),
    }
}

#[test]
fn batches_refuse_before_generating_and_report_in_order() {
    let r = begin_batch(Ok("edny".to_string()), Ok(vec![waiver("1"), order("2", None)]),
        vec![ok(), ok()], vec![ok(), no("Judge name cannot be empty")]);
    match r {
        Err(reply) => assert_eq!((reply.status, reply.body.as_str()),
            (400, "{\"error\": \"Judge name cannot be empty\"}")),
        Ok(_) => panic!("the second document is refused"),
    }
    assert!(matches!(begin_batch(Ok("edny".to_string()), Err("eof".to_string()), vec![], vec![]),
        Err(r) if r.body == "{\"error\": \"Invalid request: eof\"}"));
    let docs = begin_batch(Ok("edny".to_string()), Ok(vec![waiver("1")]), vec![ok()], vec![ok()]).ok().unwrap();
    assert_eq!(docs.len(), 1);
    assert!(matches!(finish_batch(Err("kv".to_string()), Ok(vec![])),
        Err(r) if r.status == 500 && r.body == "{\"error\": \"Service initialization failed: kv\"}"));
    assert!(matches!(finish_batch(ok(), Err("disk".to_string())),
        Err(r) if r.body == "{\"error\": \"Batch generation failed: disk\"}"));
    let done = finish_batch(ok(), Ok(vec![GeneratedBatchDocument {
        case_number: "1".to_string(),
        document_type: DocumentType::WaiverIndictment,
        generated: gen_pdf(),
    }])).ok().unwrap();
    assert_eq!(done.total_generated, 1);
    assert_eq!(done.documents[0].document_type, "waiver_indictment");
    assert_eq!(done.documents[0].size_bytes, 3);
}

#[test]
fn batch_documents_are_named_and_encoded() {
    let doc = DocumentRequest::MinuteEntry {
        case_number: "24-cr-7".to_string(),
        defendant_names: "X".to_string(),
        judge_name: "Y".to_string(),
        minute_text: "Z".to_string(),
    };
    assert!(matches!(generator_for(&doc), Generator::MinuteEntry));
    assert_eq!(document_filename(&doc), "minute-entry-24-cr-7.pdf");
    let g = generated_document(&doc, &b"Man".to_vec());
    assert_eq!(g.pdf_base64, "TWFu");
    assert_eq!(g.size_bytes, 3);
    assert_eq!(g.document_type, "minute_entry");
    let r = batch_response(&vec![doc], &vec![b"hi".to_vec()]);
    assert_eq!(r.total_generated, 1);
    assert_eq!(r.documents[0].pdf_base64, "aGk=");
    assert_eq!(default_output_format(), "base64");
    let signed = DocumentRequest::Rule16b {
        case_number: "1".to_string(),
        defendant_names: "A".to_string(),
        judge_name: "B".to_string(),
        signature_base64: Some("s".to_string()),
    };
    assert!(matches!(generator_for(&signed), Generator::Rule16bSigned));
}

#[test]
fn stored_case_documents() {
    assert!(matches!(fetched(Ok(Some(1u8)), Record::Case), Ok(1)));
    let r = fetched::<u8>(Ok(None), Record::Judge).err().unwrap();
    assert_eq!((r.status, r.body.as_str()), (404, "Judge not found"));
    let r = fetched::<u8>(Err("disk".to_string()), Record::Case).err().unwrap();
    assert_eq!((r.status, r.body.as_str()), (500, "Error fetching case: disk"));
    let r = requested_judge("nope").err().unwrap();
    assert_eq!((r.status, r.body.as_str()), (400, "Invalid judge ID format"));
    let r = assigned_judge(None).err().unwrap();
    assert_eq!((r.status, r.body.as_str()), (404, "No judge assigned to case"));
    let r = assigned_judge(Some("judge")).err().unwrap();
    assert_eq!((r.status, r.body.as_str()), (400, "Invalid judge ID format in case"));
    assert_eq!(find_docket_entry(&vec![4, 7, 7], 7), Some(1));
    assert_eq!(find_docket_entry(&vec![4, 7], 9), None);
    assert_eq!(docket_entry_missing().body, "Docket entry not found");
    assert_eq!(invalid_request("eof").body, "Invalid request: eof");
    assert_eq!(rule16b_disposition("24-cr-1"), "inline; filename=\"Rule_16b_Order_24-cr-1.pdf\"");
    assert_eq!(order_disposition("Order to Show Cause"), "inline; filename=\"Order_to_Show_Cause.pdf\"");
    assert_eq!(minute_entry_disposition("24-cr-1", -3), "inline; filename=\"Minute_Entry_24-cr-1_-3.pdf\"");
    assert_eq!(minute_entry_disposition("24-cr-1", 12), "inline; filename=\"Minute_Entry_24-cr-1_12.pdf\"");
    let (text, filer) = auto_rule16b_docket_entry();
    assert!(text.starts_with("Scheduling Order pursuant to Fed. R. Crim. P. 16(b)"));
    assert_eq!(filer, "Clerk of Court");
}

#[test]
fn federal_forms_test_data() {
    assert_eq!(form_case(None), "24-cr-00789");
    assert_eq!(form_case(Some("1")), "1");
    assert_eq!(form_disposition(FederalForm::CriminalJudgment, "24-cr-1"),
        "attachment; filename=\"criminal-judgment-24-cr-1.pdf\"");
    assert!(matches!(test_case("23-cr-00456"), TestCase::Narcotics));
    assert!(matches!(test_case("x"), TestCase::Other));
    assert_eq!(test_waiver(TestCase::Other), ("Test Defendant", "18 U.S.C. § 371 (Conspiracy)"));
    assert_eq!(test_release_parties(TestCase::WireFraud).1, "Hon. Sarah Johnson");
    assert_eq!(standard_conditions().len(), 8);
    let j = test_judgment(TestCase::Narcotics);
    assert_eq!(j.sentence, "36 months imprisonment");
    assert_eq!(test_case_for(None).2, "Hon. Sarah Johnson");
    assert_eq!(test_case_for(Some("99-cr-1")).1, "Unknown Defendant");
}

#[test]
fn documents_generated_from_names() {
    let r = working_request::<u8>(Err("missing field".to_string())).err().unwrap();
    assert_eq!((r.status, r.body.as_str()), (400, "Invalid request: missing field"));
    let o = GenerateOrderRequest {
        case_number: "24-cr-1".to_string(),
        judge_name: "J".to_string(),
        order_title: "Order to Continue".to_string(),
        order_content: "C".to_string(),
    };
    assert_eq!(court_order_disposition(&o), "inline; filename=\"Order_to_Continue.pdf\"");
    let m = GenerateMinuteEntryRequest {
        case_number: "24-cr-2".to_string(),
        docket_entry_description: "d".to_string(),
        judge_name: "J".to_string(),
    };
    assert_eq!(minute_entry_case_disposition(&m), "inline; filename=\"Minute_Entry_24-cr-2.pdf\"");
    let r16 = GenerateRule16bRequest {
        case_number: "24-cr-3".to_string(),
        defendant_names: "A".to_string(),
        judge_name: "J".to_string(),
    };
    assert_eq!(rule16b_case_disposition(&r16), "inline; filename=\"Rule_16b_Order_24-cr-3.pdf\"");
}

#[test]
fn batch_output_formats() {
    assert!(matches!(output_format("base64", false), OutputFormat::Base64));
    assert!(matches!(output_format("urls", false), OutputFormat::Urls));
    assert!(matches!(output_format("combined", true), OutputFormat::Combined { separate_pages: true }));
    assert!(matches!(output_format("zip", true), OutputFormat::Base64));
    assert_eq!(zip_batch_reply(), (501, "ZIP generation not yet implemented. Use /api/pdf/batch for base64-encoded PDFs.".to_string()));
    let doc = DocumentRequest::MinuteEntry {
        case_number: "24-cr-7".to_string(),
        defendant_names: "X".to_string(),
        judge_name: "Y".to_string(),
        minute_text: "Z".to_string(),
    };
    let docs = vec![doc];
    let pdfs = vec![b"hi".to_vec()];
    match batch_reply(OutputFormat::Urls, &docs, &pdfs, vec!["https://files/1".to_string()], &vec![]) {
        BatchReply::Links(l) => {
            assert_eq!(l.total_generated, 1);
            assert_eq!(l.documents[0].url, "https://files/1");
            assert_eq!(l.documents[0].filename, "minute-entry-24-cr-7.pdf");
            assert_eq!(l.documents[0].size_bytes, 2);
        }
        _ => panic!("expected links"),
    }
    match batch_reply(OutputFormat::Combined { separate_pages: false }, &docs, &pdfs, vec![], &b"Man".to_vec()) {
        BatchReply::Combined(c) => {
            assert_eq!(c.filename, "combined-documents.pdf");
            assert_eq!(c.pdf_base64, "TWFu");
            assert_eq!((c.size_bytes, c.total_generated, c.separate_pages), (3, 1, false));
        }
        _ => panic!("expected one combined PDF"),
    }
    assert!(matches!(batch_reply(OutputFormat::Base64, &docs, &pdfs, vec![], &vec![]),
        BatchReply::Inline(b) if b.documents[0].pdf_base64 == "aGk="));
}

#[test]
fn reported_pdfs_decode_to_the_generated_bytes() {
    let doc = DocumentRequest::WaiverIndictment {
        case_number: "24-cr-9".to_string(),
        defendant_name: "D".to_string(),
        charges: "C".to_string(),
    };
    for n in 0..7usize {
        let bytes: Vec<u8> = (0..n).map(|i| (i * 97 + 13) as u8).collect();
        let g = generated_document(&doc, &bytes);
        let back = base64::engine::general_purpose::STANDARD.decode(&g.pdf_base64).unwrap();
        assert_eq!(back, bytes);
        assert_eq!(g.size_bytes, back.len());
    }
}

#[test]
fn minute_entries_read_entries_then_judge() {
    let judge = "123e4567-e89b-12d3-a456-426614174000";
    let r = minute_entry_sources(Err("kv".to_string()), 3, "nope").err().unwrap();
    assert_eq!((r.status, r.body.as_str()), (500, "Error fetching docket entries: kv"));
    let r = minute_entry_sources(Ok(vec![1, 2]), 3, "nope").err().unwrap();
    assert_eq!((r.status, r.body.as_str()), (404, "Docket entry not found"));
    let r = minute_entry_sources(Ok(vec![1, 3]), 3, "nope").err().unwrap();
    assert_eq!((r.status, r.body.as_str()), (400, "Invalid judge ID format"));
    let (i, u) = minute_entry_sources(Ok(vec![1, 3, 3]), 3, judge).ok().unwrap();
    assert_eq!((i, u), (1, 0x123e4567_e89b_12d3_a456_426614174000u128));
}

#[test]
fn signed_rule16b_orders_fall_back_on_the_fixed_judge() {
    let req = |sig: Option<&str>| Rule16bRequest {
        case_number: "24-cr-3".to_string(),
        defendant_names: "A".to_string(),
        judge_name: "Hon. K".to_string(),
        trial_date: None,
        discovery_deadline: None,
        motion_deadline: None,
        pretrial_conference_date: None,
        signature_base64: sig.map(|s| s.to_string()),
        judge_id: Some("00000000-0000-0000-0000-000000000009".to_string()),
    };
    let run = begin_signed_rule16b(Ok("sdny".to_string()), Ok(req(None))).ok().unwrap();
    assert_eq!(signature_lookup(&run), Some(0x123e4567_e89b_12d3_a456_426614174000u128));
    let run = begin_signed_rule16b(Ok("sdny".to_string()), Ok(req(Some("given")))).ok().unwrap();
    assert_eq!(signature_lookup(&run), None);
    match signed_rule16b_reply(Ok(gen_pdf()), false, "24-cr-3".to_string()) {
        PdfStep::Reply(PdfReply::Json(j)) => {
            assert_eq!(j.document_type, "rule16b-signed");
            assert_eq!(j.pdf_base64, "AQID");
        }
        _ => panic!("expected a JSON reply"),
    }
    match signed_rule16b_reply(Err("x".to_string()), false, "1".to_string()) {
        PdfStep::Fail(r) => assert_eq!((r.status, r.body.as_str()), (500, "{\"error\": \"Failed to generate PDF: x\"}")),
        _ => panic!("expected a failure"),
    }
}

#[test]
fn automatic_rule16b_orders_record_an_order_and_activate_the_case() {
    let rec = auto_rule16b_record("case-7");
    assert_eq!(rec.case_id, "case-7");
    assert!(matches!(rec.entry_type, DocketEntryKind::Order));
    assert!(rec.docket_text.starts_with("Scheduling Order pursuant to Fed. R. Crim. P. 16(b)"));
    assert_eq!(rec.filed_by, "Clerk of Court");
    assert!(matches!(rec.case_status, CaseStatusUpdate::Active));
    let ok_reply = auto_rule16b_reply("24-cr-1", vec![7], Ok(()), Ok(()));
    let failed_reply = auto_rule16b_reply("24-cr-1", vec![7], Err("kv".to_string()), Err("kv".to_string()));
    assert_eq!(ok_reply, failed_reply);
    assert_eq!(ok_reply.0, "inline; filename=\"Rule_16b_Order_24-cr-1.pdf\"");
}
