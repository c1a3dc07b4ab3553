//! Batch generation of court documents: which generator each requested
//! document goes to, and how the generated PDFs are reported back.
use vstd::prelude::*;
use base64::Engine;

verus! {

/// The output format used when a batch request does not name one.
pub fn default_output_format() -> (s: String)
    ensures
        s@ == "base64"@,
{
    String::from_str("base64")
}

/// One document of a batch, tagged by its kind.
pub enum DocumentRequest {
    Rule16b {
        case_number: String,
        defendant_names: String,
        judge_name: String,
        signature_base64: Option<String>,
    },
    CourtOrder {
        case_number: String,
        defendant_names: String,
        judge_name: String,
        order_title: String,
        order_content: String,
        signature_base64: Option<String>,
    },
    MinuteEntry {
        case_number: String,
        defendant_names: String,
        judge_name: String,
        minute_text: String,
    },
    WaiverIndictment { case_number: String, defendant_name: String, charges: String },
    ConditionsRelease {
        case_number: String,
        defendant_name: String,
        judge_name: String,
        conditions: Vec<String>,
    },
    CriminalJudgment {
        case_number: String,
        defendant_name: String,
        judge_name: String,
        plea: String,
        counts: String,
        sentence: String,
    },
}

/// A batch of documents to generate.
pub struct BatchPdfRequest {
    pub documents: Vec<DocumentRequest>,
    /// How to return the PDFs: "base64" (default), "urls", "combined"; see
    /// `output_format` and `batch_reply`.
    pub output_format: String,
    /// For the combined format: whether each document starts on its own
    /// pages in the single document.
    pub combine_pages: bool,
}

/// One generated document as reported to the client.
pub struct GeneratedDocument {
    pub document_type: String,
    pub case_number: String,
    pub filename: String,
    pub pdf_base64: String,
    pub size_bytes: usize,
}

/// The result of a batch.
pub struct BatchPdfResponse {
    pub documents: Vec<GeneratedDocument>,
    pub total_generated: usize,
}

/// The generator a document is rendered with.
pub enum Generator {
    Rule16bSigned,
    Rule16b,
    CourtOrderSigned,
    CourtOrder,
    MinuteEntry,
    WaiverOfIndictment,
    ConditionsOfRelease,
    CriminalJudgment,
}

/// The generator for a document: the signed variants of the Rule 16(b)
/// order and of the court order are used when a signature is supplied.
pub open spec fn generator_spec(doc: DocumentRequest) -> Generator {
    match doc {
        DocumentRequest::Rule16b { signature_base64, .. } => if signature_base64 is Some {
            Generator::Rule16bSigned
        } else {
            Generator::Rule16b
        },
        DocumentRequest::CourtOrder { signature_base64, .. } => if signature_base64 is Some {
            Generator::CourtOrderSigned
        } else {
            Generator::CourtOrder
        },
        DocumentRequest::MinuteEntry { .. } => Generator::MinuteEntry,
        DocumentRequest::WaiverIndictment { .. } => Generator::WaiverOfIndictment,
        DocumentRequest::ConditionsRelease { .. } => Generator::ConditionsOfRelease,
        DocumentRequest::CriminalJudgment { .. } => Generator::CriminalJudgment,
    }
}

/// Chooses the generator for a document.
pub fn generator_for(doc: &DocumentRequest) -> (g: Generator)
    ensures
        g == generator_spec(*doc),
{
    match doc {
        DocumentRequest::Rule16b { signature_base64, .. } => if signature_base64.is_some() {
            Generator::Rule16bSigned
        } else {
            Generator::Rule16b
        },
        DocumentRequest::CourtOrder { signature_base64, .. } => if signature_base64.is_some() {
            Generator::CourtOrderSigned
        } else {
            Generator::CourtOrder
        },
        DocumentRequest::MinuteEntry { .. } => Generator::MinuteEntry,
        DocumentRequest::WaiverIndictment { .. } => Generator::WaiverOfIndictment,
        DocumentRequest::ConditionsRelease { .. } => Generator::ConditionsOfRelease,
        DocumentRequest::CriminalJudgment { .. } => Generator::CriminalJudgment,
    }
}

/// Every document is rendered by a generator of its own kind, and a
/// court order or Rule 16(b) order is rendered by the signing generator
/// exactly when a signature is supplied.
pub proof fn lemma_generator_follows_kind_and_signature(doc: DocumentRequest)
    ensures
        doc matches DocumentRequest::Rule16b { signature_base64, .. } ==> ((generator_spec(doc) is Rule16b
            || generator_spec(doc) is Rule16bSigned) && (generator_spec(doc) is Rule16bSigned
            <==> signature_base64 is Some)),
        doc matches DocumentRequest::CourtOrder { signature_base64, .. } ==> ((generator_spec(doc) is CourtOrder
            || generator_spec(doc) is CourtOrderSigned) && (generator_spec(doc) is CourtOrderSigned
            <==> signature_base64 is Some)),
        doc is MinuteEntry ==> generator_spec(doc) is MinuteEntry,
        doc is WaiverIndictment ==> generator_spec(doc) is WaiverOfIndictment,
        doc is ConditionsRelease ==> generator_spec(doc) is ConditionsOfRelease,
        doc is CriminalJudgment ==> generator_spec(doc) is CriminalJudgment,
{
}

/// The case number a document belongs to.
pub open spec fn case_number_spec(doc: DocumentRequest) -> Seq<char> {
    match doc {
        DocumentRequest::Rule16b { case_number, .. } => case_number@,
        DocumentRequest::CourtOrder { case_number, .. } => case_number@,
        DocumentRequest::MinuteEntry { case_number, .. } => case_number@,
        DocumentRequest::WaiverIndictment { case_number, .. } => case_number@,
        DocumentRequest::ConditionsRelease { case_number, .. } => case_number@,
        DocumentRequest::CriminalJudgment { case_number, .. } => case_number@,
    }
}

/// The type name a document is reported under.
pub open spec fn document_type_spec(doc: DocumentRequest) -> Seq<char> {
    match doc {
        DocumentRequest::Rule16b { .. } => "rule16b"@,
        DocumentRequest::CourtOrder { .. } => "court_order"@,
        DocumentRequest::MinuteEntry { .. } => "minute_entry"@,
        DocumentRequest::WaiverIndictment { .. } => "waiver_indictment"@,
        DocumentRequest::ConditionsRelease { .. } => "conditions_release"@,
        DocumentRequest::CriminalJudgment { .. } => "criminal_judgment"@,
    }
}

/// The start of a document's file name.
pub open spec fn filename_prefix_spec(doc: DocumentRequest) -> Seq<char> {
    match doc {
        DocumentRequest::Rule16b { .. } => "rule16b-"@,
        DocumentRequest::CourtOrder { .. } => "court-order-"@,
        DocumentRequest::MinuteEntry { .. } => "minute-entry-"@,
        DocumentRequest::WaiverIndictment { .. } => "waiver-indictment-"@,
        DocumentRequest::ConditionsRelease { .. } => "conditions-release-"@,
        DocumentRequest::CriminalJudgment { .. } => "criminal-judgment-"@,
    }
}

/// A document's file name: its kind, its case number and `.pdf`.
pub open spec fn filename_spec(doc: DocumentRequest) -> Seq<char> {
    filename_prefix_spec(doc) + case_number_spec(doc) + ".pdf"@
}

/// The case number a document belongs to.
pub fn case_number_of(doc: &DocumentRequest) -> (s: &String)
    ensures
        s@ == case_number_spec(*doc),
{
    match doc {
        DocumentRequest::Rule16b { case_number, .. } => case_number,
        DocumentRequest::CourtOrder { case_number, .. } => case_number,
        DocumentRequest::MinuteEntry { case_number, .. } => case_number,
        DocumentRequest::WaiverIndictment { case_number, .. } => case_number,
        DocumentRequest::ConditionsRelease { case_number, .. } => case_number,
        DocumentRequest::CriminalJudgment { case_number, .. } => case_number,
    }
}

/// The type name a document is reported under.
pub fn document_type_name(doc: &DocumentRequest) -> (s: &'static str)
    ensures
        s@ == document_type_spec(*doc),
{
    match doc {
        DocumentRequest::Rule16b { .. } => "rule16b",
        DocumentRequest::CourtOrder { .. } => "court_order",
        DocumentRequest::MinuteEntry { .. } => "minute_entry",
        DocumentRequest::WaiverIndictment { .. } => "waiver_indictment",
        DocumentRequest::ConditionsRelease { .. } => "conditions_release",
        DocumentRequest::CriminalJudgment { .. } => "criminal_judgment",
    }
}

/// A document's file name.
pub fn document_filename(doc: &DocumentRequest) -> (s: String)
    ensures
        s@ == filename_spec(*doc),
{
    let prefix = match doc {
        DocumentRequest::Rule16b { .. } => "rule16b-",
        DocumentRequest::CourtOrder { .. } => "court-order-",
        DocumentRequest::MinuteEntry { .. } => "minute-entry-",
        DocumentRequest::WaiverIndictment { .. } => "waiver-indictment-",
        DocumentRequest::ConditionsRelease { .. } => "conditions-release-",
        DocumentRequest::CriminalJudgment { .. } => "criminal-judgment-",
    };
    let mut s = String::from_str(prefix);
    s.append(case_number_of(doc).as_str());
    s.append(".pdf");
    s
}

/// The character of the standard base64 alphabet (`A`-`Z`, `a`-`z`,
/// `0`-`9`, `+`, `/`) for a six-bit value.
pub open spec fn base64_digit(v: int) -> char {
    if v < 26 {
        (65 + v) as char
    } else if v < 52 {
        (71 + v) as char
    } else if v < 62 {
        (v - 4) as char
    } else if v == 62 {
        '+'
    } else {
        '/'
    }
}

/// The six-bit value of a character of the standard base64 alphabet.
pub open spec fn base64_value(c: char) -> int {
    let n = c as int;
    if 65 <= n <= 90 {
        n - 65
    } else if 97 <= n <= 122 {
        n - 71
    } else if 48 <= n <= 57 {
        n + 4
    } else if n == 43 {
        62
    } else {
        63
    }
}

/// Standard base64 with padding: every three bytes become four characters
/// of six bits each, most significant first; a final one or two bytes
/// become two or three characters followed by `=` up to four.
pub open spec fn base64_standard(bytes: Seq<u8>) -> Seq<char>
    decreases bytes.len(),
{
    if bytes.len() == 0 {
        seq![]
    } else if bytes.len() == 1 {
        let a = bytes[0] as int;
        seq![base64_digit(a / 4), base64_digit((a % 4) * 16), '=', '=']
    } else if bytes.len() == 2 {
        let a = bytes[0] as int;
        let b = bytes[1] as int;
        seq![base64_digit(a / 4), base64_digit((a % 4) * 16 + b / 16), base64_digit((b % 16) * 4), '=']
    } else {
        let a = bytes[0] as int;
        let b = bytes[1] as int;
        let c = bytes[2] as int;
        seq![
            base64_digit(a / 4),
            base64_digit((a % 4) * 16 + b / 16),
            base64_digit((b % 16) * 4 + c / 64),
            base64_digit(c % 64),
        ] + base64_standard(bytes.skip(3))
    }
}

/// Decoding padded standard base64: every four characters give back three
/// bytes, or fewer where the group ends in `=`.
pub open spec fn base64_decode(text: Seq<char>) -> Seq<u8>
    decreases text.len(),
{
    if text.len() < 4 {
        seq![]
    } else {
        let w = base64_value(text[0]);
        let x = base64_value(text[1]);
        let y = base64_value(text[2]);
        let z = base64_value(text[3]);
        let first = (w * 4 + x / 16) as u8;
        let second = ((x % 16) * 16 + y / 4) as u8;
        let group = if text[2] == '=' {
            seq![first]
        } else if text[3] == '=' {
            seq![first, second]
        } else {
            seq![first, second, ((y % 4) * 64 + z) as u8]
        };
        group + base64_decode(text.skip(4))
    }
}

proof fn lemma_digit_value(v: int)
    requires
        0 <= v < 64,
    ensures
        base64_value(base64_digit(v)) == v,
        base64_digit(v) != '=',
{
}

proof fn lemma_split_bytes(a: int, b: int, c: int)
    requires
        0 <= a < 256,
        0 <= b < 256,
        0 <= c < 256,
    ensures
        0 <= a / 4 < 64,
        0 <= (a % 4) * 16 + b / 16 < 64,
        0 <= (b % 16) * 4 + c / 64 < 64,
        0 <= c % 64 < 64,
        (a / 4) * 4 + ((a % 4) * 16 + b / 16) / 16 == a,
        (((a % 4) * 16 + b / 16) % 16) * 16 + ((b % 16) * 4 + c / 64) / 4 == b,
        (((b % 16) * 4 + c / 64) % 4) * 64 + c % 64 == c,
{
}

/// Decoding the base64 text of a byte string gives the byte string back.
pub proof fn lemma_base64_round_trip(bytes: Seq<u8>)
    ensures
        base64_decode(base64_standard(bytes)) == bytes,
    decreases bytes.len(),
{
    if bytes.len() == 0 {
    } else {
        let a = bytes[0] as int;
        let b = if bytes.len() >= 2 { bytes[1] as int } else { 0 };
        let c = if bytes.len() >= 3 { bytes[2] as int } else { 0 };
        lemma_split_bytes(a, b, c);
        lemma_digit_value(a / 4);
        lemma_digit_value((a % 4) * 16 + b / 16);
        lemma_digit_value((b % 16) * 4 + c / 64);
        lemma_digit_value(c % 64);
        let text = base64_standard(bytes);
        if bytes.len() == 1 {
            lemma_digit_value((a % 4) * 16);
            assert(text.skip(4) =~= Seq::<char>::empty());
            assert(base64_decode(text.skip(4)) =~= Seq::<u8>::empty());
            assert(text[2] == '=');
            assert(base64_decode(text) =~= seq![(a as u8)]);
            assert(base64_decode(text) =~= bytes);
        } else if bytes.len() == 2 {
            lemma_digit_value((b % 16) * 4);
            assert(text.skip(4) =~= Seq::<char>::empty());
            assert(base64_decode(text.skip(4)) =~= Seq::<u8>::empty());
            assert(text[2] != '=' && text[3] == '=');
            assert(base64_decode(text) =~= seq![(a as u8), (b as u8)]);
            assert(base64_decode(text) =~= bytes);
        } else {
            let rest = bytes.skip(3);
            lemma_base64_round_trip(rest);
            assert(text.skip(4) =~= base64_standard(rest));
            assert(bytes =~= seq![bytes[0], bytes[1], bytes[2]] + rest);
            assert(base64_decode(text) =~= bytes);
        }
    }
}

/// A reported document's base64 text decodes to exactly the bytes the
/// generator produced, and its size is their length.
pub proof fn lemma_reported_pdf_decodes(g: GeneratedDocument, doc: DocumentRequest, pdf: Seq<u8>)
    requires
        reports(g, doc, pdf),
    ensures
        base64_decode(g.pdf_base64@) == pdf,
        g.size_bytes == base64_decode(g.pdf_base64@).len(),
{
    lemma_base64_round_trip(pdf);
}

/// Calls `base64::Engine::encode` on the standard engine
/// (`general_purpose::STANDARD`: the standard alphabet, with padding), which
/// gives the text `base64_standard` describes.
#[verifier::external_body]
pub(crate) fn encode_base64(bytes: &Vec<u8>) -> (s: String)
    ensures
        s@ == base64_standard(bytes@),
{
    base64::engine::general_purpose::STANDARD.encode(bytes)
}

/// How a generated document is reported: its type, case number, file name,
/// base64 text and size.
pub open spec fn reports(g: GeneratedDocument, doc: DocumentRequest, pdf: Seq<u8>) -> bool {
    &&& g.document_type@ == document_type_spec(doc)
    &&& g.case_number@ == case_number_spec(doc)
    &&& g.filename@ == filename_spec(doc)
    &&& g.pdf_base64@ == base64_standard(pdf)
    &&& g.size_bytes == pdf.len()
}

/// Reports one generated document.
pub fn generated_document(doc: &DocumentRequest, pdf: &Vec<u8>) -> (g: GeneratedDocument)
    ensures
        reports(g, *doc, pdf@),
{
    GeneratedDocument {
        document_type: String::from_str(document_type_name(doc)),
        case_number: case_number_of(doc).clone(),
        filename: document_filename(doc),
        pdf_base64: encode_base64(pdf),
        size_bytes: pdf.len(),
    }
}

/// Reports a whole batch: `pdfs[i]` is what the generator of `docs[i]`
/// produced. Documents are reported in request order, and the total is
/// their number.
pub fn batch_response(docs: &Vec<DocumentRequest>, pdfs: &Vec<Vec<u8>>) -> (r: BatchPdfResponse)
    requires
        docs@.len() == pdfs@.len(),
    ensures
        r.documents@.len() == docs@.len(),
        r.total_generated == docs@.len(),
        forall|i: int|
            0 <= i < docs@.len() ==> reports(#[trigger] r.documents@[i], docs@[i], pdfs@[i]@),
{
    let mut out: Vec<GeneratedDocument> = Vec::new();
    let mut i: usize = 0;
    while i < docs.len()
        invariant
            docs@.len() == pdfs@.len(),
            i <= docs@.len(),
            out@.len() == i,
            forall|j: int| 0 <= j < i ==> reports(#[trigger] out@[j], docs@[j], pdfs@[j]@),
        decreases docs.len() - i,
    {
        let g = generated_document(&docs[i], &pdfs[i]);
        out.push(g);
        i = i + 1;
    }
    let n = out.len();
    BatchPdfResponse { documents: out, total_generated: n }
}

/// How the PDFs of a batch come back.
pub enum OutputFormat {
    /// Each document inline, as base64 text.
    Base64,
    /// Each document as the URL it can be fetched from.
    Urls,
    /// One PDF holding every document; `separate_pages` says whether each
    /// document starts on its own pages.
    Combined { separate_pages: bool },
}

/// The output format a request names: `urls` or `combined`; `base64`, the
/// default, for any other name.
pub fn output_format(name: &str, combine_pages: bool) -> (r: OutputFormat)
    ensures
        name@ == "urls"@ ==> r is Urls,
        name@ == "combined"@ ==> r == (OutputFormat::Combined { separate_pages: combine_pages }),
        name@ != "urls"@ && name@ != "combined"@ ==> r is Base64,
{
    proof {
        reveal_strlit("urls");
        reveal_strlit("combined");
        assert("urls"@.len() == 4 && "combined"@.len() == 8);
    }
    let v = crate::text::chars_of(name);
    if crate::text::chars_eq_str(&v, "urls") {
        OutputFormat::Urls
    } else if crate::text::chars_eq_str(&v, "combined") {
        OutputFormat::Combined { separate_pages: combine_pages }
    } else {
        OutputFormat::Base64
    }
}

/// One document of a batch returned by URL.
pub struct DocumentLink {
    pub document_type: String,
    pub case_number: String,
    pub filename: String,
    pub url: String,
    pub size_bytes: usize,
}

/// A batch returned by URL.
pub struct BatchLinkResponse {
    pub documents: Vec<DocumentLink>,
    pub total_generated: usize,
}

/// A batch returned as one PDF.
pub struct CombinedPdfResponse {
    pub filename: String,
    pub pdf_base64: String,
    pub size_bytes: usize,
    pub total_generated: usize,
    pub separate_pages: bool,
}

/// The answer to a batch, in the format asked for.
pub enum BatchReply {
    Inline(BatchPdfResponse),
    Links(BatchLinkResponse),
    Combined(CombinedPdfResponse),
}

/// How a document returned by URL is reported.
pub open spec fn links(l: DocumentLink, doc: DocumentRequest, pdf: Seq<u8>, url: Seq<char>) -> bool {
    &&& l.document_type@ == document_type_spec(doc)
    &&& l.case_number@ == case_number_spec(doc)
    &&& l.filename@ == filename_spec(doc)
    &&& l.url@ == url
    &&& l.size_bytes == pdf.len()
}

fn link_response(docs: &Vec<DocumentRequest>, pdfs: &Vec<Vec<u8>>, urls: Vec<String>) -> (r:
    BatchLinkResponse)
    requires
        docs@.len() == pdfs@.len(),
        urls@.len() == docs@.len(),
    ensures
        r.documents@.len() == docs@.len(),
        r.total_generated == docs@.len(),
        forall|i: int|
            0 <= i < docs@.len() ==> links(#[trigger] r.documents@[i], docs@[i], pdfs@[i]@, urls@[i]@),
{
    let ghost all = urls@;
    let mut rest = urls;
    let mut out: Vec<DocumentLink> = Vec::new();
    let mut i: usize = 0;
    while i < docs.len()
        invariant
            docs@.len() == pdfs@.len(),
            all.len() == docs@.len(),
            i <= docs@.len(),
            rest@ == all.skip(i as int),
            out@.len() == i,
            forall|j: int| 0 <= j < i ==> links(#[trigger] out@[j], docs@[j], pdfs@[j]@, all[j]@),
        decreases docs.len() - i,
    {
        let url = rest.remove(0);
        proof {
            assert(url == all[i as int]);
        }
        out.push(
            DocumentLink {
                document_type: String::from_str(document_type_name(&docs[i])),
                case_number: case_number_of(&docs[i]).clone(),
                filename: document_filename(&docs[i]),
                url,
                size_bytes: pdfs[i].len(),
            },
        );
        i = i + 1;
        proof {
            assert(rest@ =~= all.skip(i as int));
        }
    }
    let n = out.len();
    BatchLinkResponse { documents: out, total_generated: n }
}

/// The answer of the ZIP batch endpoint, which is not implemented: 501
/// with a note pointing to the base64 batch endpoint.
pub fn zip_batch_reply() -> (r: (u16, String))
    ensures
        r.0 == 501,
        r.1@ == "ZIP generation not yet implemented. Use /api/pdf/batch for base64-encoded PDFs."@,
{
    (501, String::from_str("ZIP generation not yet implemented. Use /api/pdf/batch for base64-encoded PDFs."))
}

/// Answers a batch in its output format. `pdfs[i]` is what the generator of
/// `docs[i]` produced; `urls[i]` is where that PDF was stored (read for the
/// `urls` format); `combined` is the single PDF the generator made of all
/// of them, with pages separated as asked (read for the `combined` format,
/// which is named `combined-documents.pdf`).
pub fn batch_reply(
    format: OutputFormat,
    docs: &Vec<DocumentRequest>,
    pdfs: &Vec<Vec<u8>>,
    urls: Vec<String>,
    combined: &Vec<u8>,
) -> (r: BatchReply)
    requires
        docs@.len() == pdfs@.len(),
        format is Urls ==> urls@.len() == docs@.len(),
    ensures
        format is Base64 ==> (r matches BatchReply::Inline(b) && b.documents@.len() == docs@.len()
            && b.total_generated == docs@.len() && forall|i: int|
            0 <= i < docs@.len() ==> reports(#[trigger] b.documents@[i], docs@[i], pdfs@[i]@)),
        format is Urls ==> (r matches BatchReply::Links(l) && l.documents@.len() == docs@.len()
            && l.total_generated == docs@.len() && forall|i: int|
            0 <= i < docs@.len() ==> links(#[trigger] l.documents@[i], docs@[i], pdfs@[i]@, urls@[i]@)),
        format matches OutputFormat::Combined { separate_pages } ==> (r matches BatchReply::Combined(c)
            && c.filename@ == "combined-documents.pdf"@ && c.pdf_base64@ == base64_standard(combined@)
            && c.size_bytes == combined@.len() && c.total_generated == docs@.len()
            && c.separate_pages == separate_pages),
{
    match format {
        OutputFormat::Base64 => BatchReply::Inline(batch_response(docs, pdfs)),
        OutputFormat::Urls => BatchReply::Links(link_response(docs, pdfs, urls)),
        OutputFormat::Combined { separate_pages } => BatchReply::Combined(
            CombinedPdfResponse {
                filename: String::from_str("combined-documents.pdf"),
                pdf_base64: encode_base64(combined),
                size_bytes: combined.len(),
                total_generated: docs.len(),
                separate_pages,
            },
        ),
    }
}

} // verus!
