//! PDF generation requests: turning request bodies into document requests,
//! the order in which a request is checked, and choosing the reply format.
use vstd::prelude::*;
use crate::text::{chars_of, chars_contains, contains_seq};
use crate::ids::{uuid_parse_result, parse_uuid_text};
use crate::handlers::pdf_batch::{base64_standard, encode_base64};

verus! {

/// Request for a Rule 16(b) scheduling order.
pub struct Rule16bRequest {
    pub case_number: String,
    pub defendant_names: String,
    pub judge_name: String,
    pub trial_date: Option<String>,
    pub discovery_deadline: Option<String>,
    pub motion_deadline: Option<String>,
    pub pretrial_conference_date: Option<String>,
    pub signature_base64: Option<String>,
    pub judge_id: Option<String>,
}

/// Request for a court order.
pub struct CourtOrderRequest {
    pub case_number: String,
    pub defendant_names: String,
    pub judge_name: String,
    pub order_title: String,
    pub order_content: String,
    pub date: Option<String>,
    pub signature_base64: Option<String>,
    pub judge_id: Option<String>,
}

/// Request for a minute entry.
pub struct MinuteEntryRequest {
    pub case_number: String,
    pub defendant_names: String,
    pub judge_name: String,
    pub minute_text: String,
    pub hearing_date: Option<String>,
    pub hearing_type: Option<String>,
    pub court_reporter: Option<String>,
    pub next_hearing: Option<String>,
}

/// Request for a waiver of indictment.
pub struct WaiverIndictmentRequest {
    pub case_number: String,
    pub defendant_name: String,
    pub charges: String,
}

/// Request for an order setting conditions of release.
pub struct ConditionsReleaseRequest {
    pub case_number: String,
    pub defendant_name: String,
    pub judge_name: String,
    pub conditions: Vec<String>,
}

/// Request for a judgment in a criminal case.
pub struct CriminalJudgmentRequest {
    pub case_number: String,
    pub defendant_name: String,
    pub judge_name: String,
    pub plea: String,
    pub counts: String,
    pub sentence: String,
}

/// A generated document reported as JSON.
pub struct PdfResponse {
    pub case_number: String,
    pub document_type: String,
    pub filename: String,
    pub pdf_base64: String,
    pub size_bytes: usize,
    pub document_id: String,
}

/// One document of a batch, tagged by its kind.
pub enum DocumentRequestDto {
    Rule16b {
        case_number: String,
        defendant_names: String,
        judge_name: String,
        signature_base64: Option<String>,
    },
    CourtOrder {
        case_number: String,
        defendant_names: String,
        judge_name: String,
        order_title: String,
        order_content: String,
        signature_base64: Option<String>,
    },
    MinuteEntry {
        case_number: String,
        defendant_names: String,
        judge_name: String,
        minute_text: String,
    },
    WaiverIndictment { case_number: String, defendant_name: String, charges: String },
    ConditionsRelease {
        case_number: String,
        defendant_name: String,
        judge_name: String,
        conditions: Vec<String>,
    },
    CriminalJudgment {
        case_number: String,
        defendant_name: String,
        judge_name: String,
        plea: String,
        counts: String,
        sentence: String,
    },
}

/// A batch of documents to generate.
pub struct BatchPdfRequest {
    pub documents: Vec<DocumentRequestDto>,
}

/// The result of a batch.
pub struct BatchPdfResponse {
    pub documents: Vec<PdfResponse>,
    pub total_generated: usize,
}

/// Request to store a judge's signature.
pub struct StoreSignatureRequest {
    pub judge_id: String,
    pub signature_base64: String,
}

/// The kinds of court document.
pub enum DocumentType {
    Rule16b,
    CourtOrder,
    MinuteEntry,
    WaiverIndictment,
    ConditionsRelease,
    CriminalJudgment,
}

/// A judge's electronic signature attached to a document.
pub struct ElectronicSignature {
    pub judge_name: String,
    pub signature_base64: String,
}

/// What is printed on a document, by kind.
pub enum DocumentMetadata {
    Rule16b {
        defendant_names: String,
        judge_name: String,
        signature: Option<ElectronicSignature>,
    },
    CourtOrder {
        defendant_names: String,
        judge_name: String,
        order_title: String,
        order_content: String,
        signature: Option<ElectronicSignature>,
    },
    MinuteEntry { defendant_names: String, judge_name: String, minute_text: String },
    WaiverIndictment { defendant_name: String, charges: String },
    ConditionsRelease { defendant_name: String, judge_name: String, conditions: Vec<String> },
    CriminalJudgment {
        defendant_name: String,
        judge_name: String,
        plea: String,
        counts: String,
        sentence: String,
    },
}

/// A validated request for the document generator.
pub struct PreparedDocument {
    pub case_number: String,
    pub document_type: DocumentType,
    pub district: String,
    pub metadata: DocumentMetadata,
}

/// Why a document request was refused.
pub enum DocumentError {
    /// The case number was refused by the case-number rules, with their
    /// message.
    InvalidCaseNumber(String),
    /// The judge name was refused by the judge-name rules, with their
    /// message.
    InvalidJudgeName(String),
}

/// The message a refusal is reported with.
pub open spec fn document_error_text(e: DocumentError) -> Seq<char> {
    match e {
        DocumentError::InvalidCaseNumber(m) => m@,
        DocumentError::InvalidJudgeName(m) => m@,
    }
}

/// The document type of a request.
pub open spec fn dto_type(dto: DocumentRequestDto) -> DocumentType {
    match dto {
        DocumentRequestDto::Rule16b { .. } => DocumentType::Rule16b,
        DocumentRequestDto::CourtOrder { .. } => DocumentType::CourtOrder,
        DocumentRequestDto::MinuteEntry { .. } => DocumentType::MinuteEntry,
        DocumentRequestDto::WaiverIndictment { .. } => DocumentType::WaiverIndictment,
        DocumentRequestDto::ConditionsRelease { .. } => DocumentType::ConditionsRelease,
        DocumentRequestDto::CriminalJudgment { .. } => DocumentType::CriminalJudgment,
    }
}

/// Whether a request names a judge (all kinds but the waiver of indictment).
pub open spec fn dto_names_judge(dto: DocumentRequestDto) -> bool {
    !(dto is WaiverIndictment)
}

/// The case number of a request.
pub open spec fn dto_case_number(dto: DocumentRequestDto) -> String {
    match dto {
        DocumentRequestDto::Rule16b { case_number, .. } => case_number,
        DocumentRequestDto::CourtOrder { case_number, .. } => case_number,
        DocumentRequestDto::MinuteEntry { case_number, .. } => case_number,
        DocumentRequestDto::WaiverIndictment { case_number, .. } => case_number,
        DocumentRequestDto::ConditionsRelease { case_number, .. } => case_number,
        DocumentRequestDto::CriminalJudgment { case_number, .. } => case_number,
    }
}

/// The signature attached for a supplied signature image: signed in the
/// name of the document's judge.
pub open spec fn signature_for(judge_name: String, sig: Option<String>) -> Option<
    ElectronicSignature,
> {
    match sig {
        Some(s) => Some(ElectronicSignature { judge_name, signature_base64: s }),
        None => None,
    }
}

/// The metadata a request carries over to the document.
pub open spec fn dto_metadata(dto: DocumentRequestDto) -> DocumentMetadata {
    match dto {
        DocumentRequestDto::Rule16b {
            defendant_names,
            judge_name,
            signature_base64,
            ..
        } => DocumentMetadata::Rule16b {
            defendant_names,
            judge_name,
            signature: signature_for(judge_name, signature_base64),
        },
        DocumentRequestDto::CourtOrder {
            defendant_names,
            judge_name,
            order_title,
            order_content,
            signature_base64,
            ..
        } => DocumentMetadata::CourtOrder {
            defendant_names,
            judge_name,
            order_title,
            order_content,
            signature: signature_for(judge_name, signature_base64),
        },
        DocumentRequestDto::MinuteEntry {
            defendant_names,
            judge_name,
            minute_text,
            ..
        } => DocumentMetadata::MinuteEntry { defendant_names, judge_name, minute_text },
        DocumentRequestDto::WaiverIndictment {
            defendant_name,
            charges,
            ..
        } => DocumentMetadata::WaiverIndictment { defendant_name, charges },
        DocumentRequestDto::ConditionsRelease {
            defendant_name,
            judge_name,
            conditions,
            ..
        } => DocumentMetadata::ConditionsRelease { defendant_name, judge_name, conditions },
        DocumentRequestDto::CriminalJudgment {
            defendant_name,
            judge_name,
            plea,
            counts,
            sentence,
            ..
        } => DocumentMetadata::CriminalJudgment {
            defendant_name,
            judge_name,
            plea,
            counts,
            sentence,
        },
    }
}

fn sign(judge_name: &String, sig: Option<String>) -> (r: Option<ElectronicSignature>)
    ensures
        r == signature_for(*judge_name, sig),
{
    match sig {
        Some(s) => Some(ElectronicSignature { judge_name: judge_name.clone(), signature_base64: s }),
        None => None,
    }
}

/// Turns a request into a document request for `district`.
/// `case_number_check` and `judge_name_check` are the outcomes of the
/// case-number and judge-name rules on the request's case number and judge
/// name (the message of a refusal). The case number is checked first; a
/// waiver of indictment names no judge.
pub fn create_document_request(
    dto: DocumentRequestDto,
    district: String,
    case_number_check: Result<(), String>,
    judge_name_check: Result<(), String>,
) -> (r: Result<PreparedDocument, DocumentError>)
    ensures
        r == prepared_spec(dto, district, case_number_check, judge_name_check),
{
    match case_number_check {
        Err(m) => {
            return Err(DocumentError::InvalidCaseNumber(m));
        },
        Ok(()) => {},
    }
    let names_judge = match &dto {
        DocumentRequestDto::WaiverIndictment { .. } => false,
        _ => true,
    };
    if names_judge {
        match judge_name_check {
            Err(m) => {
                return Err(DocumentError::InvalidJudgeName(m));
            },
            Ok(()) => {},
        }
    }
    let (case_number, document_type, metadata) = match dto {
        DocumentRequestDto::Rule16b {
            case_number,
            defendant_names,
            judge_name,
            signature_base64,
        } => {
            let signature = sign(&judge_name, signature_base64);
            (
                case_number,
                DocumentType::Rule16b,
                DocumentMetadata::Rule16b { defendant_names, judge_name, signature },
            )
        },
        DocumentRequestDto::CourtOrder {
            case_number,
            defendant_names,
            judge_name,
            order_title,
            order_content,
            signature_base64,
        } => {
            let signature = sign(&judge_name, signature_base64);
            (
                case_number,
                DocumentType::CourtOrder,
                DocumentMetadata::CourtOrder {
                    defendant_names,
                    judge_name,
                    order_title,
                    order_content,
                    signature,
                },
            )
        },
        DocumentRequestDto::MinuteEntry {
            case_number,
            defendant_names,
            judge_name,
            minute_text,
        } => (
            case_number,
            DocumentType::MinuteEntry,
            DocumentMetadata::MinuteEntry { defendant_names, judge_name, minute_text },
        ),
        DocumentRequestDto::WaiverIndictment { case_number, defendant_name, charges } => (
            case_number,
            DocumentType::WaiverIndictment,
            DocumentMetadata::WaiverIndictment { defendant_name, charges },
        ),
        DocumentRequestDto::ConditionsRelease {
            case_number,
            defendant_name,
            judge_name,
            conditions,
        } => (
            case_number,
            DocumentType::ConditionsRelease,
            DocumentMetadata::ConditionsRelease { defendant_name, judge_name, conditions },
        ),
        DocumentRequestDto::CriminalJudgment {
            case_number,
            defendant_name,
            judge_name,
            plea,
            counts,
            sentence,
        } => (
            case_number,
            DocumentType::CriminalJudgment,
            DocumentMetadata::CriminalJudgment {
                defendant_name,
                judge_name,
                plea,
                counts,
                sentence,
            },
        ),
    };
    Ok(PreparedDocument { case_number, document_type, district, metadata })
}

/// The reply format asked for: the `format` path parameter decides when it is
/// present (`pdf` means raw PDF); otherwise an `Accept` header that mentions
/// `application/pdf` does.
pub open spec fn wants_pdf_spec(format: Option<Seq<char>>, accept: Option<Seq<char>>) -> bool {
    match format {
        Some(f) => f == "pdf"@,
        None => match accept {
            Some(a) => contains_seq(a, "application/pdf"@),
            None => false,
        },
    }
}

/// Decides whether to answer with raw PDF bytes.
pub fn wants_pdf(format: Option<&str>, accept: Option<&str>) -> (b: bool)
    ensures
        b == wants_pdf_spec(
            match format {
                Some(f) => Some(f@),
                None => None,
            },
            match accept {
                Some(a) => Some(a@),
                None => None,
            },
        ),
{
    match format {
        Some(f) => {
            let fv = chars_of(f);
            crate::text::chars_eq_str(&fv, "pdf")
        },
        None => match accept {
            Some(a) => {
                let av = chars_of(a);
                let needle = chars_of("application/pdf");
                chars_contains(&av, &needle)
            },
            None => false,
        },
    }
}

/// A document the generator produced.
pub struct GeneratedPdf {
    pub filename: String,
    pub pdf_data: Vec<u8>,
    pub document_id: String,
}

/// The reply to a single-document request.
pub enum PdfReply {
    /// Raw PDF bytes, offered as an attachment.
    Raw { content_disposition: String, pdf: Vec<u8> },
    /// The document described as JSON, with its bytes in base64.
    Json(PdfResponse),
}

/// The reply for a generated document: raw bytes with an
/// `attachment; filename="…"` disposition, or a JSON description holding
/// the bytes in standard base64.
pub fn build_reply(pdf: bool, generated: GeneratedPdf, doc_type: &str, case_number: String) -> (r:
    PdfReply)
    ensures
        pdf ==> (r matches PdfReply::Raw { content_disposition, pdf: bytes } && bytes
            == generated.pdf_data && content_disposition@ == "attachment; filename=\""@
            + generated.filename@ + "\""@),
        !pdf ==> (r matches PdfReply::Json(j) && j.case_number == case_number
            && j.document_type@ == doc_type@ && j.filename == generated.filename
            && j.pdf_base64@ == base64_standard(generated.pdf_data@) && j.size_bytes
            == generated.pdf_data@.len()
            && j.document_id == generated.document_id),
{
    if pdf {
        let mut d = String::from_str("attachment; filename=\"");
        d.append(generated.filename.as_str());
        d.append("\"");
        PdfReply::Raw { content_disposition: d, pdf: generated.pdf_data }
    } else {
        let size = generated.pdf_data.len();
        let text = encode_base64(&generated.pdf_data);
        PdfReply::Json(
            PdfResponse {
                case_number,
                document_type: String::from_str(doc_type),
                filename: generated.filename,
                pdf_base64: text,
                size_bytes: size,
                document_id: generated.document_id,
            },
        )
    }
}

/// The type name a document type is reported under in a batch.
pub open spec fn type_name_spec(t: DocumentType) -> Seq<char> {
    match t {
        DocumentType::Rule16b => "rule16b"@,
        DocumentType::CourtOrder => "court_order"@,
        DocumentType::MinuteEntry => "minute_entry"@,
        DocumentType::WaiverIndictment => "waiver_indictment"@,
        DocumentType::ConditionsRelease => "conditions_release"@,
        DocumentType::CriminalJudgment => "criminal_judgment"@,
    }
}

/// The type name a document type is reported under in a batch.
pub fn document_type_label(t: &DocumentType) -> (s: &'static str)
    ensures
        s@ == type_name_spec(*t),
{
    match t {
        DocumentType::Rule16b => "rule16b",
        DocumentType::CourtOrder => "court_order",
        DocumentType::MinuteEntry => "minute_entry",
        DocumentType::WaiverIndictment => "waiver_indictment",
        DocumentType::ConditionsRelease => "conditions_release",
        DocumentType::CriminalJudgment => "criminal_judgment",
    }
}

/// The signature image a signed Rule 16(b) order is generated with: the one
/// in the request, or else the judge's stored one.
pub fn choose_signature(requested: Option<String>, stored: Option<String>) -> (r: Option<String>)
    ensures
        requested is Some ==> r == requested,
        requested is None ==> r == stored,
{
    match requested {
        Some(s) => Some(s),
        None => stored,
    }
}

/// The request a body holds: a body that does not parse as the expected
/// JSON is refused with 400 `Invalid request: {detail}`, and no document is
/// generated.
pub fn parsed_body<T>(parsed: Result<T, String>) -> (r: Result<T, PdfFailure>)
    ensures
        parsed matches Ok(t) ==> r == Ok::<T, PdfFailure>(t),
        parsed matches Err(e) ==> (r matches Err(PdfFailure::InvalidBody(m)) && m == e),
{
    match parsed {
        Ok(t) => Ok(t),
        Err(e) => Err(PdfFailure::InvalidBody(e)),
    }
}

/// The JSON body of an error answer: `{"error": "<message>"}`.
pub open spec fn error_json(msg: Seq<char>) -> Seq<char> {
    "{\"error\": \""@ + msg + "\"}"@
}

/// An error answer: its status code and JSON body.
pub struct ErrorReply {
    pub status: u16,
    pub body: String,
}

/// Why a document request was not answered with a document.
pub enum PdfFailure {
    /// The district of the request was refused (400, the refusal's text).
    InvalidDistrict(String),
    /// The body is not the expected JSON (400).
    InvalidBody(String),
    /// The document request was refused (400, the refusal's text).
    InvalidDocument(String),
    /// The judge ID is not a UUID (400).
    InvalidJudgeId(String),
    /// The document service could not be set up (500).
    ServiceUnavailable(String),
    /// Generating a document failed (500).
    GenerationFailed(String),
    /// Generating a signed Rule 16(b) order failed (500).
    SignedGenerationFailed(String),
    /// Generating a batch failed (500).
    BatchFailed(String),
    /// Storing a signature failed (500).
    StoreFailed(String),
    /// Looking up a signature failed (500).
    RetrieveFailed(String),
    /// No signature is stored for the judge (404).
    SignatureNotFound,
}

/// The status code of a failure.
pub open spec fn failure_status(f: PdfFailure) -> u16 {
    match f {
        PdfFailure::InvalidDistrict(_) => 400,
        PdfFailure::InvalidBody(_) => 400,
        PdfFailure::InvalidDocument(_) => 400,
        PdfFailure::InvalidJudgeId(_) => 400,
        PdfFailure::SignatureNotFound => 404,
        _ => 500,
    }
}

/// The message of a failure.
pub open spec fn failure_message(f: PdfFailure) -> Seq<char> {
    match f {
        PdfFailure::InvalidDistrict(e) => e@,
        PdfFailure::InvalidBody(e) => "Invalid request: "@ + e@,
        PdfFailure::InvalidDocument(e) => e@,
        PdfFailure::InvalidJudgeId(e) => "Invalid judge ID: "@ + e@,
        PdfFailure::ServiceUnavailable(e) => "Service initialization failed: "@ + e@,
        PdfFailure::GenerationFailed(e) => "Generation failed: "@ + e@,
        PdfFailure::SignedGenerationFailed(e) => "Failed to generate PDF: "@ + e@,
        PdfFailure::BatchFailed(e) => "Batch generation failed: "@ + e@,
        PdfFailure::StoreFailed(e) => "Failed to store signature: "@ + e@,
        PdfFailure::RetrieveFailed(e) => "Failed to retrieve signature: "@ + e@,
        PdfFailure::SignatureNotFound => "Signature not found"@,
    }
}

fn prefixed(prefix: &str, detail: &String) -> (s: String)
    ensures
        s@ == prefix@ + detail@,
{
    let mut s = String::from_str(prefix);
    s.append(detail.as_str());
    s
}

/// The answer to a failure: its status, and its message as the `error`
/// field of a JSON object.
pub fn failure_reply(f: &PdfFailure) -> (r: ErrorReply)
    ensures
        r.status == failure_status(*f),
        r.body@ == error_json(failure_message(*f)),
{
    let (status, msg): (u16, String) = match f {
        PdfFailure::InvalidDistrict(e) => (400, e.clone()),
        PdfFailure::InvalidBody(e) => (400, prefixed("Invalid request: ", e)),
        PdfFailure::InvalidDocument(e) => (400, e.clone()),
        PdfFailure::InvalidJudgeId(e) => (400, prefixed("Invalid judge ID: ", e)),
        PdfFailure::ServiceUnavailable(e) => (500, prefixed("Service initialization failed: ", e)),
        PdfFailure::GenerationFailed(e) => (500, prefixed("Generation failed: ", e)),
        PdfFailure::SignedGenerationFailed(e) => (500, prefixed("Failed to generate PDF: ", e)),
        PdfFailure::BatchFailed(e) => (500, prefixed("Batch generation failed: ", e)),
        PdfFailure::StoreFailed(e) => (500, prefixed("Failed to store signature: ", e)),
        PdfFailure::RetrieveFailed(e) => (500, prefixed("Failed to retrieve signature: ", e)),
        PdfFailure::SignatureNotFound => (404, String::from_str("Signature not found")),
    };
    let mut body = String::from_str("{\"error\": \"");
    body.append(msg.as_str());
    body.append("\"}");
    ErrorReply { status, body }
}

/// The judge a signature is stored for or looked up by.
pub fn signature_judge_id(judge_id: &str) -> (r: Result<u128, PdfFailure>)
    ensures
        match uuid_parse_result(judge_id@) {
            Ok(u) => r == Ok::<u128, PdfFailure>(u),
            Err(e) => r matches Err(PdfFailure::InvalidJudgeId(m)) && m@ == e,
        },
{
    match parse_uuid_text(judge_id) {
        Ok(u) => Ok(u),
        Err(e) => Err(PdfFailure::InvalidJudgeId(e)),
    }
}

/// The answer to a signature lookup: the stored signature, `Signature not
/// found`, or the lookup's failure.
pub fn signature_found<T>(found: Result<Option<T>, String>) -> (r: Result<T, PdfFailure>)
    ensures
        found matches Ok(Some(t)) ==> r == Ok::<T, PdfFailure>(t),
        found matches Ok(None) ==> r matches Err(PdfFailure::SignatureNotFound),
        found matches Err(e) ==> (r matches Err(PdfFailure::RetrieveFailed(m)) && m == e),
{
    match found {
        Ok(Some(t)) => Ok(t),
        Ok(None) => Err(PdfFailure::SignatureNotFound),
        Err(e) => Err(PdfFailure::RetrieveFailed(e)),
    }
}

/// The confirmation body of a stored signature.
pub open spec fn stored_json() -> Seq<char> {
    "{\"message\": \"Signature stored successfully\"}"@
}

/// The answer to storing a signature: the confirmation body, or the store's
/// failure.
pub fn signature_stored(outcome: Result<(), String>) -> (r: Result<String, PdfFailure>)
    ensures
        outcome is Ok ==> (r matches Ok(b) && b@ == stored_json()),
        outcome matches Err(e) ==> (r matches Err(PdfFailure::StoreFailed(m)) && m == e),
{
    match outcome {
        Ok(()) => Ok(String::from_str("{\"message\": \"Signature stored successfully\"}")),
        Err(e) => Err(PdfFailure::StoreFailed(e)),
    }
}

/// What a document request becomes: the prepared document, or the refusal.
pub open spec fn prepared_spec(
    dto: DocumentRequestDto,
    district: String,
    case_number_check: Result<(), String>,
    judge_name_check: Result<(), String>,
) -> Result<PreparedDocument, DocumentError> {
    match case_number_check {
        Err(m) => Err(DocumentError::InvalidCaseNumber(m)),
        Ok(_) => match judge_name_check {
            Err(m) if dto_names_judge(dto) => Err(DocumentError::InvalidJudgeName(m)),
            _ => Ok(
                PreparedDocument {
                    case_number: dto_case_number(dto),
                    document_type: dto_type(dto),
                    district,
                    metadata: dto_metadata(dto),
                },
            ),
        },
    }
}

/// A document request that passes its checks keeps every field of the
/// request under the field of the same name, in the district given; a
/// supplied signature image is signed in the name of the document's judge.
pub proof fn lemma_prepared_document_keeps_fields(
    dto: DocumentRequestDto,
    district: String,
    case_number_check: Result<(), String>,
    judge_name_check: Result<(), String>,
)
    requires
        case_number_check is Ok,
        judge_name_check is Ok || dto is WaiverIndictment,
    ensures
        prepared_spec(dto, district, case_number_check, judge_name_check) matches Ok(p) && p.district
            == district && match dto {
            DocumentRequestDto::Rule16b { case_number, defendant_names, judge_name, signature_base64 } => {
                &&& p.case_number == case_number
                &&& p.document_type is Rule16b
                &&& p.metadata is Rule16b
                &&& p.metadata->Rule16b_defendant_names == defendant_names
                &&& p.metadata->Rule16b_judge_name == judge_name
                &&& (signature_base64 is None ==> p.metadata->Rule16b_signature is None)
                &&& (signature_base64 matches Some(img) ==> p.metadata->Rule16b_signature == Some(
                    ElectronicSignature { judge_name, signature_base64: img },
                ))
            },
            DocumentRequestDto::CourtOrder {
                case_number,
                defendant_names,
                judge_name,
                order_title,
                order_content,
                signature_base64,
            } => {
                &&& p.case_number == case_number
                &&& p.document_type is CourtOrder
                &&& p.metadata is CourtOrder
                &&& p.metadata->CourtOrder_defendant_names == defendant_names
                &&& p.metadata->CourtOrder_judge_name == judge_name
                &&& p.metadata->order_title == order_title
                &&& p.metadata->order_content == order_content
                &&& (signature_base64 is None ==> p.metadata->CourtOrder_signature is None)
                &&& (signature_base64 matches Some(img) ==> p.metadata->CourtOrder_signature == Some(
                    ElectronicSignature { judge_name, signature_base64: img },
                ))
            },
            DocumentRequestDto::MinuteEntry { case_number, defendant_names, judge_name, minute_text } => {
                &&& p.case_number == case_number
                &&& p.document_type is MinuteEntry
                &&& p.metadata is MinuteEntry
                &&& p.metadata->MinuteEntry_defendant_names == defendant_names
                &&& p.metadata->MinuteEntry_judge_name == judge_name
                &&& p.metadata->minute_text == minute_text
            },
            DocumentRequestDto::WaiverIndictment { case_number, defendant_name, charges } => {
                &&& p.case_number == case_number
                &&& p.document_type is WaiverIndictment
                &&& p.metadata is WaiverIndictment
                &&& p.metadata->WaiverIndictment_defendant_name == defendant_name
                &&& p.metadata->charges == charges
            },
            DocumentRequestDto::ConditionsRelease { case_number, defendant_name, judge_name, conditions } => {
                &&& p.case_number == case_number
                &&& p.document_type is ConditionsRelease
                &&& p.metadata is ConditionsRelease
                &&& p.metadata->ConditionsRelease_defendant_name == defendant_name
                &&& p.metadata->ConditionsRelease_judge_name == judge_name
                &&& p.metadata->conditions == conditions
            },
            DocumentRequestDto::CriminalJudgment {
                case_number,
                defendant_name,
                judge_name,
                plea,
                counts,
                sentence,
            } => {
                &&& p.case_number == case_number
                &&& p.document_type is CriminalJudgment
                &&& p.metadata is CriminalJudgment
                &&& p.metadata->CriminalJudgment_defendant_name == defendant_name
                &&& p.metadata->CriminalJudgment_judge_name == judge_name
                &&& p.metadata->plea == plea
                &&& p.metadata->counts == counts
                &&& p.metadata->sentence == sentence
            },
        },
{
}

/// A document request is refused for its case number whenever that check
/// fails, and otherwise for its judge name whenever that check fails and
/// the document names a judge (every kind but the waiver of indictment).
pub proof fn lemma_document_refusals(
    dto: DocumentRequestDto,
    district: String,
    case_number_check: Result<(), String>,
    judge_name_check: Result<(), String>,
)
    ensures
        case_number_check matches Err(m) ==> prepared_spec(dto, district, case_number_check, judge_name_check)
            == Err::<PreparedDocument, DocumentError>(DocumentError::InvalidCaseNumber(m)),
        judge_name_check matches Err(m) ==> (case_number_check is Ok && !(dto is WaiverIndictment) ==> prepared_spec(
            dto,
            district,
            case_number_check,
            judge_name_check,
        ) == Err::<PreparedDocument, DocumentError>(DocumentError::InvalidJudgeName(m))),
        case_number_check is Ok ==> dto is WaiverIndictment ==> prepared_spec(dto, district, case_number_check, judge_name_check) is Ok,
{
}

/// What a batch becomes: every document prepared, in order, or the refusal
/// of the first document refused.
pub open spec fn batch_spec(
    dtos: Seq<DocumentRequestDto>,
    district: String,
    case_valid: Seq<Result<(), String>>,
    judge_valid: Seq<Result<(), String>>,
) -> Result<Seq<PreparedDocument>, DocumentError>
    decreases dtos.len(),
{
    if dtos.len() == 0 {
        Ok(seq![])
    } else {
        let n = dtos.len() - 1;
        match batch_spec(dtos.drop_last(), district, case_valid, judge_valid) {
            Err(e) => Err(e),
            Ok(done) => match prepared_spec(dtos[n], district, case_valid[n], judge_valid[n]) {
                Ok(p) => Ok(done.push(p)),
                Err(e) => Err(e),
            },
        }
    }
}

proof fn lemma_batch_prefix(
    dtos: Seq<DocumentRequestDto>,
    district: String,
    case_valid: Seq<Result<(), String>>,
    judge_valid: Seq<Result<(), String>>,
    k: int,
)
    requires
        0 <= k <= dtos.len(),
        batch_spec(dtos.take(k), district, case_valid, judge_valid) is Err,
    ensures
        batch_spec(dtos, district, case_valid, judge_valid) == batch_spec(
            dtos.take(k),
            district,
            case_valid,
            judge_valid,
        ),
    decreases dtos.len() - k,
{
    if k < dtos.len() {
        assert(dtos.take(k + 1).drop_last() =~= dtos.take(k));
        lemma_batch_prefix(dtos, district, case_valid, judge_valid, k + 1);
    } else {
        assert(dtos.take(k) =~= dtos);
    }
}

/// Prepares every document of a batch for `district`. `case_valid[i]` and
/// `judge_valid[i]` are the verdicts of the case-number and judge-name rules
/// on document `i`. The first document refused stops the batch.
pub fn prepare_batch(
    dtos: Vec<DocumentRequestDto>,
    district: &String,
    case_valid: Vec<Result<(), String>>,
    judge_valid: Vec<Result<(), String>>,
) -> (r: Result<Vec<PreparedDocument>, DocumentError>)
    requires
        case_valid@.len() == dtos@.len(),
        judge_valid@.len() == dtos@.len(),
    ensures
        match batch_spec(dtos@, *district, case_valid@, judge_valid@) {
            Ok(s) => r matches Ok(v) && v@ == s,
            Err(e) => r == Err::<Vec<PreparedDocument>, DocumentError>(e),
        },
{
    let ghost all = dtos@;
    let ghost cvs = case_valid@;
    let ghost jvs = judge_valid@;
    let n = dtos.len();
    let mut rest = dtos;
    let mut rest_cv = case_valid;
    let mut rest_jv = judge_valid;
    let mut out: Vec<PreparedDocument> = Vec::new();
    let mut i: usize = 0;
    while rest.len() > 0
        invariant
            all.len() == cvs.len(),
            all.len() == jvs.len(),
            cvs == case_valid@,
            jvs == judge_valid@,
            rest_cv@ == cvs.skip(i as int),
            rest_jv@ == jvs.skip(i as int),
            0 <= i <= all.len(),
            rest@ == all.skip(i as int),
            i + rest@.len() == all.len(),
            all.len() == n,
            all == dtos@,
            batch_spec(all.take(i as int), *district, case_valid@, judge_valid@) == Ok::<
                Seq<PreparedDocument>,
                DocumentError,
            >(out@),
        decreases rest.len(),
    {
        let dto = rest.remove(0);
        let ghost d = dto;
        proof {
            assert(all.take(i + 1).drop_last() =~= all.take(i as int));
            assert(all.take(i + 1)[i as int] == dto);
        }
        let ghost before_cv = rest_cv@;
        let ghost before_jv = rest_jv@;
        let cv = rest_cv.remove(0);
        let jv = rest_jv.remove(0);
        proof {
            assert(cv == before_cv[0]);
            assert(before_cv[0] == cvs[i as int]);
            assert(before_jv[0] == jvs[i as int]);
        }
        match create_document_request(dto, district.clone(), cv, jv) {
            Ok(p) => {
                out.push(p);
            },
            Err(e) => {
                proof {
                    assert(prepared_spec(d, *district, cv, jv) == Err::<PreparedDocument, DocumentError>(e));
                    assert(batch_spec(all.take(i + 1), *district, case_valid@, judge_valid@) == Err::<Seq<PreparedDocument>, DocumentError>(e));
                    lemma_batch_prefix(all, *district, case_valid@, judge_valid@, i + 1);
                    assert(batch_spec(all, *district, case_valid@, judge_valid@) == Err::<Seq<PreparedDocument>, DocumentError>(e));
                }
                return Err(e);
            },
        }
        i = i + 1;
        proof {
            assert(rest@ =~= all.skip(i as int));
            assert(rest_cv@ =~= cvs.skip(i as int));
            assert(rest_jv@ =~= jvs.skip(i as int));
        }
    }
    proof {
        assert(all.take(i as int) =~= all);
    }
    Ok(out)
}

/// The failure a refused document request is answered with: 400 and the
/// refusal's message.
pub fn refusal(e: DocumentError) -> (f: PdfFailure)
    ensures
        f matches PdfFailure::InvalidDocument(m) && m@ == document_error_text(e),
{
    match e {
        DocumentError::InvalidCaseNumber(m) => PdfFailure::InvalidDocument(m),
        DocumentError::InvalidJudgeName(m) => PdfFailure::InvalidDocument(m),
    }
}

/// What a document request asks for next.
pub enum PdfStep {
    /// Set up the document service, then report with `on_service`.
    CreateService(PreparedDocument),
    /// Generate the document, then report with `on_generated`.
    Generate(PreparedDocument),
    /// Answer with the document.
    Reply(PdfReply),
    /// Answer with an error; nothing more is generated.
    Fail(ErrorReply),
}

/// Whether a step fails with exactly the reply for `f`.
pub open spec fn fails_with(step: PdfStep, f: PdfFailure) -> bool {
    step matches PdfStep::Fail(r) && r.status == failure_status(f) && r.body@ == error_json(
        failure_message(f),
    )
}

/// The first step of a single-document request, in the order the checks
/// run: the district (`Err` holds the refusal's message), the body (`Err`
/// holds the parse error), then the case-number and judge-name rules. Only
/// when all pass is the document service set up.
pub fn begin_document(
    district: Result<String, String>,
    body: Result<DocumentRequestDto, String>,
    case_number_check: Result<(), String>,
    judge_name_check: Result<(), String>,
) -> (step: PdfStep)
    ensures
        district matches Err(e) ==> fails_with(step, PdfFailure::InvalidDistrict(e)),
        body matches Err(e) ==> (district is Ok ==> fails_with(step, PdfFailure::InvalidBody(e))),
        district matches Ok(d) ==> body matches Ok(dto) ==> match prepared_spec(
            dto,
            d,
            case_number_check,
            judge_name_check,
        ) {
            Ok(p) => step == PdfStep::CreateService(p),
            Err(de) => step matches PdfStep::Fail(r) && r.status == 400 && r.body@ == error_json(
                document_error_text(de),
            ),
        },
{
    let d = match district {
        Err(e) => {
            return PdfStep::Fail(failure_reply(&PdfFailure::InvalidDistrict(e)));
        },
        Ok(d) => d,
    };
    let dto = match body {
        Err(e) => {
            return PdfStep::Fail(failure_reply(&PdfFailure::InvalidBody(e)));
        },
        Ok(dto) => dto,
    };
    match create_document_request(dto, d, case_number_check, judge_name_check) {
        Ok(p) => PdfStep::CreateService(p),
        Err(e) => PdfStep::Fail(failure_reply(&refusal(e))),
    }
}

/// The step after setting up the document service: generate the document,
/// or answer 500 `Service initialization failed: {e}`.
pub fn on_service(doc: PreparedDocument, service: Result<(), String>) -> (step: PdfStep)
    ensures
        service is Ok ==> step == PdfStep::Generate(doc),
        service matches Err(e) ==> fails_with(step, PdfFailure::ServiceUnavailable(e)),
{
    match service {
        Ok(()) => PdfStep::Generate(doc),
        Err(e) => PdfStep::Fail(failure_reply(&PdfFailure::ServiceUnavailable(e))),
    }
}

/// How a generation failure is worded.
pub enum GenerationKind {
    /// `Generation failed: {e}`
    Document,
    /// `Failed to generate PDF: {e}` (signed Rule 16(b) orders)
    SignedRule16b,
}

/// The failure for a generation error of the given kind.
pub open spec fn generation_failure(kind: GenerationKind, e: String) -> PdfFailure {
    match kind {
        GenerationKind::Document => PdfFailure::GenerationFailed(e),
        GenerationKind::SignedRule16b => PdfFailure::SignedGenerationFailed(e),
    }
}

/// The last step: answer with the generated document in the format asked
/// for (`build_reply`), or answer 500 for a generation error.
pub fn on_generated(
    generated: Result<GeneratedPdf, String>,
    kind: GenerationKind,
    pdf: bool,
    doc_type: &str,
    case_number: String,
) -> (step: PdfStep)
    ensures
        generated matches Err(e) ==> fails_with(step, generation_failure(kind, e)),
        generated matches Ok(g) ==> (step matches PdfStep::Reply(reply) && (pdf ==> (reply matches PdfReply::Raw { content_disposition, pdf: bytes } && bytes
            == g.pdf_data && content_disposition@ == "attachment; filename=\""@
            + g.filename@ + "\""@)) && (!pdf ==> (reply matches PdfReply::Json(j) && j.case_number == case_number
            && j.document_type@ == doc_type@ && j.filename == g.filename
            && j.pdf_base64@ == base64_standard(g.pdf_data@) && j.size_bytes == g.pdf_data@.len()
            && j.document_id == g.document_id))),
{
    match generated {
        Ok(g) => PdfStep::Reply(build_reply(pdf, g, doc_type, case_number)),
        Err(e) => {
            let f = match kind {
                GenerationKind::Document => PdfFailure::GenerationFailed(e),
                GenerationKind::SignedRule16b => PdfFailure::SignedGenerationFailed(e),
            };
            PdfStep::Fail(failure_reply(&f))
        },
    }
}

/// A signed Rule 16(b) request after its district and body were accepted
/// and the document service was set up.
pub struct SignedRule16bRun {
    pub district: String,
    pub request: Rule16bRequest,
}

/// The first step of a signed Rule 16(b) request: the district, then the
/// body. The document service is set up next; once it is, the request
/// goes on to `signed_rule16b_document`.
pub fn begin_signed_rule16b(district: Result<String, String>, body: Result<Rule16bRequest, String>) -> (r: Result<
    SignedRule16bRun,
    ErrorReply,
>)
    ensures
        district matches Err(e) ==> (r matches Err(reply) && reply.status == 400 && reply.body@
            == error_json(e@)),
        district matches Ok(d) ==> body matches Err(e) ==> (r matches Err(reply) && reply.status
            == 400 && reply.body@ == error_json("Invalid request: "@ + e@)),
        district matches Ok(d) ==> body matches Ok(req) ==> r == Ok::<SignedRule16bRun, ErrorReply>(
            SignedRule16bRun { district: d, request: req },
        ),
{
    let d = match district {
        Err(e) => {
            return Err(failure_reply(&PdfFailure::InvalidDistrict(e)));
        },
        Ok(d) => d,
    };
    match body {
        Err(e) => Err(failure_reply(&PdfFailure::InvalidBody(e))),
        Ok(req) => Ok(SignedRule16bRun { district: d, request: req }),
    }
}

/// The judge whose stored signature a signed Rule 16(b) order falls back
/// on: the fixed judge `123e4567-e89b-12d3-a456-426614174000`.
pub open spec fn signature_judge() -> u128 {
    0x123e4567_e89b_12d3_a456_426614174000u128
}

/// The judge to look up a stored signature for, once the service is set up:
/// the fixed signature judge, and only when the request carries no
/// signature of its own. The request's `judge_id` plays no part.
pub fn signature_lookup(run: &SignedRule16bRun) -> (r: Option<u128>)
    ensures
        run.request.signature_base64 is None ==> r == Some(signature_judge()),
        run.request.signature_base64 is Some ==> r is None,
{
    match run.request.signature_base64 {
        None => Some(0x123e4567_e89b_12d3_a456_426614174000u128),
        Some(_) => None,
    }
}

/// The answer to a signed Rule 16(b) order once generated: the document in
/// the format asked for, reported in JSON as `rule16b-signed`, or 500
/// `Failed to generate PDF: {e}`.
pub fn signed_rule16b_reply(generated: Result<GeneratedPdf, String>, pdf: bool, case_number: String) -> (step:
    PdfStep)
    ensures
        generated matches Err(e) ==> fails_with(step, PdfFailure::SignedGenerationFailed(e)),
        generated matches Ok(g) ==> (step matches PdfStep::Reply(reply) && (pdf ==> (reply matches PdfReply::Raw { content_disposition, pdf: bytes } && bytes
            == g.pdf_data && content_disposition@ == "attachment; filename=\""@
            + g.filename@ + "\""@)) && (!pdf ==> (reply matches PdfReply::Json(j) && j.case_number == case_number
            && j.document_type@ == "rule16b-signed"@ && j.filename == g.filename
            && j.pdf_base64@ == base64_standard(g.pdf_data@) && j.size_bytes == g.pdf_data@.len()
            && j.document_id == g.document_id))),
{
    on_generated(generated, GenerationKind::SignedRule16b, pdf, "rule16b-signed", case_number)
}

/// A signed Rule 16(b) request once the service is set up: the stored
/// signature found through `signature_lookup` is used when the request
/// carries none (a failed lookup counts as none), then the document request is checked. The
/// result is the document to generate, or the 400 refusal.
pub fn signed_rule16b_document(
    run: SignedRule16bRun,
    stored: Result<Option<String>, String>,
    case_number_check: Result<(), String>,
    judge_name_check: Result<(), String>,
) -> (step: PdfStep)
    ensures
        ({
            let sig = match run.request.signature_base64 {
                Some(s) => Some(s),
                None => match stored {
                    Ok(Some(s)) => Some(s),
                    _ => None,
                },
            };
            let dto = DocumentRequestDto::Rule16b {
                case_number: run.request.case_number,
                defendant_names: run.request.defendant_names,
                judge_name: run.request.judge_name,
                signature_base64: sig,
            };
            match prepared_spec(dto, run.district, case_number_check, judge_name_check) {
                Ok(p) => step == PdfStep::Generate(p),
                Err(de) => step matches PdfStep::Fail(r) && r.status == 400 && r.body@ == error_json(
                    document_error_text(de),
                ),
            }
        }),
{
    let found = match stored {
        Ok(Some(s)) => Some(s),
        _ => None,
    };
    let sig = choose_signature(run.request.signature_base64, found);
    let dto = DocumentRequestDto::Rule16b {
        case_number: run.request.case_number,
        defendant_names: run.request.defendant_names,
        judge_name: run.request.judge_name,
        signature_base64: sig,
    };
    match create_document_request(dto, run.district, case_number_check, judge_name_check) {
        Ok(p) => PdfStep::Generate(p),
        Err(e) => PdfStep::Fail(failure_reply(&refusal(e))),
    }
}

/// A document of a generated batch: its case number and type, as the
/// generator reports them, and the document.
pub struct GeneratedBatchDocument {
    pub case_number: String,
    pub document_type: DocumentType,
    pub generated: GeneratedPdf,
}

/// The first step of a batch: the district, the body, then every document
/// in order; the first refusal answers 400 and nothing is generated.
/// Otherwise the documents are handed to the service.
pub fn begin_batch(
    district: Result<String, String>,
    body: Result<Vec<DocumentRequestDto>, String>,
    case_valid: Vec<Result<(), String>>,
    judge_valid: Vec<Result<(), String>>,
) -> (r: Result<Vec<PreparedDocument>, ErrorReply>)
    requires
        body matches Ok(docs) ==> case_valid@.len() == docs@.len() && judge_valid@.len()
            == docs@.len(),
    ensures
        district matches Err(e) ==> (r matches Err(reply) && reply.status == 400 && reply.body@
            == error_json(e@)),
        body matches Err(e) ==> (district is Ok ==> (r matches Err(reply) && reply.status == 400
            && reply.body@ == error_json("Invalid request: "@ + e@))),
        district matches Ok(d) ==> body matches Ok(docs) ==> match batch_spec(
            docs@,
            d,
            case_valid@,
            judge_valid@,
        ) {
            Ok(s) => r matches Ok(v) && v@ == s,
            Err(de) => r matches Err(reply) && reply.status == 400 && reply.body@ == error_json(
                document_error_text(de),
            ),
        },
{
    let d = match district {
        Err(e) => {
            return Err(failure_reply(&PdfFailure::InvalidDistrict(e)));
        },
        Ok(d) => d,
    };
    let docs = match body {
        Err(e) => {
            return Err(failure_reply(&PdfFailure::InvalidBody(e)));
        },
        Ok(docs) => docs,
    };
    match prepare_batch(docs, &d, case_valid, judge_valid) {
        Ok(v) => Ok(v),
        Err(e) => Err(failure_reply(&refusal(e))),
    }
}

/// How a generated batch document is reported.
pub open spec fn reports_batch_document(r: PdfResponse, g: GeneratedBatchDocument) -> bool {
    &&& r.case_number == g.case_number
    &&& r.document_type@ == type_name_spec(g.document_type)
    &&& r.filename == g.generated.filename
    &&& r.pdf_base64@ == base64_standard(g.generated.pdf_data@)
    &&& r.size_bytes == g.generated.pdf_data@.len()
    &&& r.document_id == g.generated.document_id
}

/// The answer to a batch once the service ran: 500 when the service could
/// not be set up or the batch failed, otherwise every generated document in
/// order with their number.
pub fn finish_batch(
    service: Result<(), String>,
    generated: Result<Vec<GeneratedBatchDocument>, String>,
) -> (r: Result<BatchPdfResponse, ErrorReply>)
    ensures
        service matches Err(e) ==> (r matches Err(reply) && reply.status == 500 && reply.body@
            == error_json("Service initialization failed: "@ + e@)),
        generated matches Err(e) ==> (service is Ok ==> (r matches Err(reply) && reply.status
            == 500 && reply.body@ == error_json("Batch generation failed: "@ + e@))),
        generated matches Ok(gs) ==> (service is Ok ==> (r matches Ok(resp)
            && resp.total_generated == gs@.len() && resp.documents@.len() == gs@.len()
            && forall|i: int|
            0 <= i < gs@.len() ==> reports_batch_document(
                #[trigger] resp.documents@[i],
                gs@[i],
            ))),
{
    match service {
        Err(e) => {
            return Err(failure_reply(&PdfFailure::ServiceUnavailable(e)));
        },
        Ok(()) => {},
    }
    let gs = match generated {
        Err(e) => {
            return Err(failure_reply(&PdfFailure::BatchFailed(e)));
        },
        Ok(gs) => gs,
    };
    let ghost all = gs@;
    let total = gs.len();
    let mut rest = gs;
    let mut out: Vec<PdfResponse> = Vec::new();
    let mut i: usize = 0;
    while rest.len() > 0
        invariant
            all.len() == total,
            rest@ == all.skip(i as int),
            i + rest@.len() == all.len(),
            out@.len() == i,
            forall|k: int| 0 <= k < i ==> reports_batch_document(#[trigger] out@[k], all[k]),
        decreases rest.len(),
    {
        let g = rest.remove(0);
        proof {
            assert(g == all[i as int]);
        }
        let label = document_type_label(&g.document_type);
        let size = g.generated.pdf_data.len();
        let text = encode_base64(&g.generated.pdf_data);
        out.push(
            PdfResponse {
                case_number: g.case_number,
                document_type: String::from_str(label),
                filename: g.generated.filename,
                pdf_base64: text,
                size_bytes: size,
                document_id: g.generated.document_id,
            },
        );
        i = i + 1;
        proof {
            assert(rest@ =~= all.skip(i as int));
        }
    }
    let n = out.len();
    Ok(BatchPdfResponse { documents: out, total_generated: n })
}

} // verus!
