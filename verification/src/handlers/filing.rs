//! The filing pipeline: the district a filing is made in, the gates a
//! submission passes (privacy scan, court rules), and how computed
//! deadlines and failures are collected.
use vstd::prelude::*;
use crate::time::Instant;
use crate::error::{ApiError, is_bad_request, bad_request};
use crate::text::{lowercase_text, to_lowercase, utf8_text, chars_eq_str, chars_of};

verus! {

/// The jurisdictions that have rule packs configured.
pub struct JurisdictionListResponse {
    pub jurisdictions: Vec<String>,
}

/// Lists the jurisdictions with rule packs: `arwd`, `sdny`, `edny`, `ndca`.
pub fn list_jurisdictions() -> (r: JurisdictionListResponse)
    ensures
        r.jurisdictions@.len() == 4,
        r.jurisdictions@[0]@ == "arwd"@,
        r.jurisdictions@[1]@ == "sdny"@,
        r.jurisdictions@[2]@ == "edny"@,
        r.jurisdictions@[3]@ == "ndca"@,
{
    let mut v: Vec<String> = Vec::new();
    v.push(String::from_str("arwd"));
    v.push(String::from_str("sdny"));
    v.push(String::from_str("edny"));
    v.push(String::from_str("ndca"));
    JurisdictionListResponse { jurisdictions: v }
}

/// The result of a dry-run validation; `R` is the compliance report.
pub struct ValidationResponse<R> {
    pub compliance_report: R,
    pub privacy_clean: bool,
    pub would_accept: bool,
}

/// A filing would be accepted when the rules do not block it and the privacy
/// scan found nothing.
pub open spec fn would_accept(blocked: bool, privacy_clean: bool) -> bool {
    !blocked && privacy_clean
}

/// Builds the dry-run answer from the compliance report, whether it blocks,
/// and the privacy verdict (clean where there was no document text to scan).
pub fn validation_response<R>(report: R, blocked: bool, privacy_clean: bool) -> (r:
    ValidationResponse<R>)
    ensures
        r.compliance_report == report,
        r.privacy_clean == privacy_clean,
        r.would_accept == would_accept(blocked, privacy_clean),
{
    ValidationResponse { compliance_report: report, privacy_clean, would_accept: !blocked && privacy_clean }
}

/// Whether a header name, lower-cased, names the district.
pub open spec fn names_district(name: Seq<char>) -> bool {
    lowercase_text(name) == "x-court-district"@ || lowercase_text(name) == "x-tenant-id"@
}

/// The district of a request: the value, lower-cased, of the first
/// `X-Court-District` or `X-Tenant-ID` header (any letter case) whose value
/// is valid UTF-8.
pub open spec fn district_from_headers(headers: Seq<(Seq<char>, Seq<u8>)>) -> Option<Seq<char>>
    decreases headers.len(),
{
    if headers.len() == 0 {
        None
    } else if names_district(headers[0].0) && vstd::utf8::valid_utf8(headers[0].1) {
        Some(lowercase_text(vstd::utf8::decode_utf8(headers[0].1)))
    } else {
        district_from_headers(headers.drop_first())
    }
}

/// The headers of a request as (name, value bytes) pairs.
pub open spec fn header_model(h: Seq<(String, Vec<u8>)>) -> Seq<(Seq<char>, Seq<u8>)> {
    Seq::new(h.len(), |i: int| (h[i].0@, h[i].1@))
}

/// Whether a header holds a district: its name is `X-Court-District` or
/// `X-Tenant-ID` in any letter case, and its value is valid UTF-8.
pub open spec fn district_header(h: (Seq<char>, Seq<u8>)) -> bool {
    &&& (lowercase_text(h.0) == "x-court-district"@ || lowercase_text(h.0) == "x-tenant-id"@)
    &&& vstd::utf8::valid_utf8(h.1)
}

/// A filing is made in the district of its first district header: the
/// value of the first `X-Court-District` or `X-Tenant-ID` header (any
/// letter case) with a UTF-8 value, lower-cased, whatever follows it.
pub proof fn lemma_first_district_header_decides(
    before: Seq<(Seq<char>, Seq<u8>)>,
    h: (Seq<char>, Seq<u8>),
    after: Seq<(Seq<char>, Seq<u8>)>,
)
    requires
        forall|k: int| 0 <= k < before.len() ==> !district_header(#[trigger] before[k]),
        district_header(h),
    ensures
        district_from_headers(before + seq![h] + after) == Some(
            lowercase_text(vstd::utf8::decode_utf8(h.1)),
        ),
    decreases before.len(),
{
    let all = before + seq![h] + after;
    if before.len() == 0 {
        assert(all[0] == h);
    } else {
        assert(all[0] == before[0]);
        assert(!district_header(before[0]));
        assert(all.drop_first() =~= before.drop_first() + seq![h] + after);
        assert forall|k: int| 0 <= k < before.drop_first().len() implies !district_header(
            #[trigger] before.drop_first()[k],
        ) by {
            assert(before.drop_first()[k] == before[k + 1]);
        }
        lemma_first_district_header_decides(before.drop_first(), h, after);
    }
}

/// A filing whose headers hold no district header names no district, and
/// is refused.
pub proof fn lemma_no_district_header(headers: Seq<(Seq<char>, Seq<u8>)>)
    requires
        forall|k: int| 0 <= k < headers.len() ==> !district_header(#[trigger] headers[k]),
    ensures
        district_from_headers(headers) is None,
    decreases headers.len(),
{
    if headers.len() > 0 {
        assert(!district_header(headers[0]));
        assert forall|k: int| 0 <= k < headers.drop_first().len() implies !district_header(
            #[trigger] headers.drop_first()[k],
        ) by {
            assert(headers.drop_first()[k] == headers[k + 1]);
        }
        lemma_no_district_header(headers.drop_first());
    }
}

/// Reads the district a filing is made in from the request headers.
pub fn extract_district(headers: &Vec<(String, Vec<u8>)>) -> (r: Result<String, ApiError>)
    ensures
        match district_from_headers(header_model(headers@)) {
            Some(d) => r matches Ok(s) && s@ == d,
            None => r matches Err(e) && is_bad_request(
                e,
                "Missing required header: X-Court-District or X-Tenant-ID"@,
            ),
        },
{
    let ghost model = header_model(headers@);
    let mut i: usize = 0;
    assert(model.skip(0) =~= model);
    while i < headers.len()
        invariant
            model == header_model(headers@),
            i <= headers.len(),
            district_from_headers(model) == district_from_headers(model.skip(i as int)),
        decreases headers.len() - i,
    {
        proof {
            assert(model.skip(i as int)[0] == model[i as int]);
            assert(model.skip(i as int).drop_first() =~= model.skip(i + 1));
        }
        let (name, value) = &headers[i];
        let lower = to_lowercase(name.as_str());
        let lc = chars_of(lower.as_str());
        if chars_eq_str(&lc, "x-court-district") || chars_eq_str(&lc, "x-tenant-id") {
            match utf8_text(value.as_slice()) {
                Some(t) => {
                    proof {
                        vstd::utf8::encode_utf8_decode_utf8(t@);
                    }
                    let d = to_lowercase(t.as_str());
                    return Ok(d);
                },
                None => {},
            }
        }
        i = i + 1;
    }
    Err(bad_request("Missing required header: X-Court-District or X-Tenant-ID"))
}

/// The case type of a filing: the `case_type` metadata text, or
/// `criminal` where the metadata gives none.
pub fn case_type_or_default(case_type: Option<&str>) -> (s: String)
    ensures
        case_type matches Some(t) ==> s@ == t@,
        case_type is None ==> s@ == "criminal"@,
{
    match case_type {
        Some(t) => String::from_str(t),
        None => String::from_str("criminal"),
    }
}

/// The docket text of the notice of electronic filing:
/// `{document type} filed by {filer}`.
pub fn nef_docket_text(document_type: &str, filer_name: &str) -> (s: String)
    ensures
        s@ == document_type@ + " filed by "@ + filer_name@,
{
    let mut s = String::from_str(document_type);
    s.append(" filed by ");
    s.append(filer_name);
    s
}

/// The error for a filing body that is not the expected JSON.
pub fn invalid_filing_json(detail: &str) -> (e: ApiError)
    ensures
        is_bad_request(e, "Invalid JSON: "@ + detail@),
{
    let mut m = String::from_str("Invalid JSON: ");
    m.append(detail);
    ApiError::BadRequest(m)
}

/// The error for rules that could not be loaded.
pub fn rules_load_failed(detail: &str) -> (e: ApiError)
    ensures
        e matches ApiError::Internal(m) && m@ == "Failed to load rules: "@ + detail@,
{
    let mut m = String::from_str("Failed to load rules: ");
    m.append(detail);
    ApiError::Internal(m)
}

/// Where a submission stops: at the privacy scan, at the court rules, or
/// nowhere.
pub enum FilingGate {
    /// The document text holds protected information: answered with 422 and
    /// the scan result.
    PrivacyViolation,
    /// A court rule blocks the filing: answered with 422 and the report.
    BlockedByRules,
    /// The filing goes on to deadline computation and is accepted with 201.
    Accepted,
}

/// Decides how far a filing goes, from the privacy result (`None` where
/// there is no document text to check) and whether the rules block it;
/// privacy is checked first.
pub fn filing_gate(privacy_clean: Option<bool>, blocked: bool) -> (g: FilingGate)
    ensures
        privacy_clean == Some(false) ==> g is PrivacyViolation,
        privacy_clean != Some(false) && blocked ==> g is BlockedByRules,
        privacy_clean != Some(false) && !blocked ==> g is Accepted,
{
    match privacy_clean {
        Some(false) => FilingGate::PrivacyViolation,
        _ => if blocked {
            FilingGate::BlockedByRules
        } else {
            FilingGate::Accepted
        },
    }
}

/// The warning recorded when a deadline cannot be computed.
pub open spec fn deadline_warning(err: Seq<char>) -> Seq<char> {
    "Deadline computation failed: "@ + err
}

/// Deadlines computed successfully, in order.
pub open spec fn ok_results<D>(results: Seq<Result<D, String>>) -> Seq<D>
    decreases results.len(),
{
    if results.len() == 0 {
        seq![]
    } else {
        let rest = ok_results(results.drop_last());
        match results.last() {
            Ok(d) => rest.push(d),
            Err(_) => rest,
        }
    }
}

/// Warnings for the deadlines that could not be computed, in order.
pub open spec fn failure_warnings<D>(results: Seq<Result<D, String>>) -> Seq<Seq<char>>
    decreases results.len(),
{
    if results.len() == 0 {
        seq![]
    } else {
        let rest = failure_warnings(results.drop_last());
        match results.last() {
            Ok(_) => rest,
            Err(e) => rest.push(deadline_warning(e@)),
        }
    }
}

/// Every deadline computation is accounted for exactly once: as a computed
/// deadline or as a warning.
pub proof fn lemma_every_outcome_recorded<D>(results: Seq<Result<D, String>>)
    ensures
        ok_results(results).len() + failure_warnings(results).len() == results.len(),
    decreases results.len(),
{
    if results.len() > 0 {
        lemma_every_outcome_recorded(results.drop_last());
    }
}

/// Files the outcomes of deadline computations into the compliance report:
/// each computed deadline is appended to `deadlines`, each failure to
/// `warnings` as `Deadline computation failed: {error}`.
pub fn collect_deadline_results<D>(
    results: Vec<Result<D, String>>,
    deadlines: &mut Vec<D>,
    warnings: &mut Vec<String>,
)
    ensures
        final(deadlines)@ == old(deadlines)@ + ok_results(results@),
        final(warnings)@.len() == old(warnings)@.len() + failure_warnings(results@).len(),
        forall|i: int|
            0 <= i < old(warnings)@.len() ==> #[trigger] final(warnings)@[i] == old(warnings)@[i],
        forall|i: int|
            0 <= i < failure_warnings(results@).len() ==> #[trigger] final(warnings)@[old(
                warnings,
            )@.len() + i]@ == failure_warnings(results@)[i],
{
    let ghost d0 = deadlines@;
    let ghost w0 = warnings@;
    let ghost all = results@;
    let mut rest = results;
    let ghost mut done: Seq<Result<D, String>> = seq![];
    while rest.len() > 0
        invariant
            deadlines@ == d0 + ok_results(done),
            warnings@.len() == w0.len() + failure_warnings(done).len(),
            forall|k: int| 0 <= k < w0.len() ==> #[trigger] warnings@[k] == w0[k],
            forall|k: int|
                0 <= k < failure_warnings(done).len() ==> #[trigger] warnings@[w0.len() + k]@
                    == failure_warnings(done)[k],
            all == done + rest@,
        decreases rest.len(),
    {
        let r = rest.remove(0);
        proof {
            assert(all == done.push(r) + rest@);
            assert(done.push(r).drop_last() =~= done);
        }
        match r {
            Ok(d) => {
                deadlines.push(d);
            },
            Err(e) => {
                let mut w = String::from_str("Deadline computation failed: ");
                w.append(e.as_str());
                warnings.push(w);
            },
        }
        proof {
            done = done.push(r);
        }
    }
    proof {
        assert(done =~= all);
    }
}

/// An action of a court rule, as far as filing needs it: a deadline to
/// compute, or anything else.
pub enum RuleAction {
    GenerateDeadline { description: String, days_from_trigger: i64 },
    Other,
}

/// A court rule that applies to a filing: its citation and its actions.
pub struct ApplicableRule {
    pub citation: Option<String>,
    pub actions: Vec<RuleAction>,
}

/// A deadline to compute for a filing; `D` is the trigger date and `M` the
/// service method.
pub struct DeadlineComputation<D, M> {
    pub trigger_date: D,
    pub period_days: i64,
    pub service_method: M,
    pub jurisdiction: String,
    pub description: String,
    pub rule_citation: String,
}

/// The deadline computation an action asks for, if any: triggered on
/// `today` for the filing's jurisdiction, with the rule's citation (empty
/// where it has none).
pub open spec fn action_deadline<D, M>(
    a: RuleAction,
    citation: Option<String>,
    today: D,
    method: M,
    jurisdiction: Seq<char>,
) -> Option<(D, i64, M, Seq<char>, Seq<char>, Seq<char>)> {
    match a {
        RuleAction::GenerateDeadline { description, days_from_trigger } => Some(
            (
                today,
                days_from_trigger,
                method,
                jurisdiction,
                description@,
                match citation {
                    Some(c) => c@,
                    None => Seq::<char>::empty(),
                },
            ),
        ),
        RuleAction::Other => None,
    }
}

/// The deadline computations of a rule's actions, in order.
pub open spec fn rule_deadlines<D, M>(
    actions: Seq<RuleAction>,
    citation: Option<String>,
    today: D,
    method: M,
    jurisdiction: Seq<char>,
) -> Seq<(D, i64, M, Seq<char>, Seq<char>, Seq<char>)>
    decreases actions.len(),
{
    if actions.len() == 0 {
        seq![]
    } else {
        let rest = rule_deadlines(actions.drop_last(), citation, today, method, jurisdiction);
        match action_deadline(actions.last(), citation, today, method, jurisdiction) {
            Some(d) => rest.push(d),
            None => rest,
        }
    }
}

/// The deadline computations of all applicable rules, rule by rule in their
/// priority order, each rule's actions in order.
pub open spec fn filing_deadlines<D, M>(
    rules: Seq<ApplicableRule>,
    today: D,
    method: M,
    jurisdiction: Seq<char>,
) -> Seq<(D, i64, M, Seq<char>, Seq<char>, Seq<char>)>
    decreases rules.len(),
{
    if rules.len() == 0 {
        seq![]
    } else {
        let r = rules.last();
        filing_deadlines(rules.drop_last(), today, method, jurisdiction) + rule_deadlines(
            r.actions@,
            r.citation,
            today,
            method,
            jurisdiction,
        )
    }
}

/// The plain content of a deadline computation.
pub open spec fn computation_view<D, M>(c: DeadlineComputation<D, M>) -> (D, i64, M, Seq<char>, Seq<char>, Seq<char>) {
    (c.trigger_date, c.period_days, c.service_method, c.jurisdiction@, c.description@, c.rule_citation@)
}

fn citation_text(citation: &Option<String>) -> (s: String)
    ensures
        s@ == match *citation {
            Some(c) => c@,
            None => Seq::<char>::empty(),
        },
{
    match citation {
        Some(c) => c.clone(),
        None => String::new(),
    }
}

fn push_rule_deadlines<D: Copy, M: Copy>(
    rule: ApplicableRule,
    today: D,
    method: M,
    jurisdiction: &String,
    out: &mut Vec<DeadlineComputation<D, M>>,
)
    ensures
        final(out)@.len() == old(out)@.len() + rule_deadlines(rule.actions@, rule.citation, today, method, jurisdiction@).len(),
        forall|k: int| 0 <= k < old(out)@.len() ==> #[trigger] final(out)@[k] == old(out)@[k],
        forall|k: int|
            0 <= k < rule_deadlines(rule.actions@, rule.citation, today, method, jurisdiction@).len()
                ==> computation_view(#[trigger] final(out)@[old(out)@.len() + k]) == rule_deadlines(
                rule.actions@,
                rule.citation,
                today,
                method,
                jurisdiction@,
            )[k],
{
    let ghost start = out@;
    let ghost all = rule.actions@;
    let ghost cit = rule.citation;
    let citation = citation_text(&rule.citation);
    let mut rest = rule.actions;
    let ghost mut done: Seq<RuleAction> = seq![];
    while rest.len() > 0
        invariant
            all == done + rest@,
            out@.len() == start.len() + rule_deadlines(done, cit, today, method, jurisdiction@).len(),
            forall|k: int| 0 <= k < start.len() ==> #[trigger] out@[k] == start[k],
            forall|k: int|
                0 <= k < rule_deadlines(done, cit, today, method, jurisdiction@).len()
                    ==> computation_view(#[trigger] out@[start.len() + k]) == rule_deadlines(
                    done,
                    cit,
                    today,
                    method,
                    jurisdiction@,
                )[k],
            citation@ == match cit {
                Some(c) => c@,
                None => Seq::<char>::empty(),
            },
        decreases rest.len(),
    {
        let a = rest.remove(0);
        proof {
            assert(all == done.push(a) + rest@);
            assert(done.push(a).drop_last() =~= done);
            assert(done.push(a).last() == a);
        }
        match a {
            RuleAction::GenerateDeadline { description, days_from_trigger } => {
                out.push(
                    DeadlineComputation {
                        trigger_date: today,
                        period_days: days_from_trigger,
                        service_method: method,
                        jurisdiction: jurisdiction.clone(),
                        description,
                        rule_citation: citation.clone(),
                    },
                );
            },
            RuleAction::Other => {},
        }
        proof {
            done = done.push(a);
        }
    }
    proof {
        assert(done =~= all);
    }
}

/// The deadlines to compute for an accepted filing: one per
/// deadline-generating action of each applicable rule (in priority order),
/// triggered today, with the filing's service method and jurisdiction and
/// the rule's citation (empty where it has none).
pub fn deadline_computations<D: Copy, M: Copy>(
    rules: Vec<ApplicableRule>,
    today: D,
    method: M,
    jurisdiction: &String,
) -> (r: Vec<DeadlineComputation<D, M>>)
    ensures
        r@.len() == filing_deadlines(rules@, today, method, jurisdiction@).len(),
        forall|k: int|
            0 <= k < r@.len() ==> computation_view(#[trigger] r@[k]) == filing_deadlines(
                rules@,
                today,
                method,
                jurisdiction@,
            )[k],
{
    let ghost all = rules@;
    let mut rest = rules;
    let mut out: Vec<DeadlineComputation<D, M>> = Vec::new();
    let ghost mut done: Seq<ApplicableRule> = seq![];
    while rest.len() > 0
        invariant
            all == done + rest@,
            out@.len() == filing_deadlines(done, today, method, jurisdiction@).len(),
            forall|k: int|
                0 <= k < out@.len() ==> computation_view(#[trigger] out@[k]) == filing_deadlines(
                    done,
                    today,
                    method,
                    jurisdiction@,
                )[k],
        decreases rest.len(),
    {
        let rule = rest.remove(0);
        proof {
            assert(all == done.push(rule) + rest@);
            assert(done.push(rule).drop_last() =~= done);
            assert(done.push(rule).last() == rule);
        }
        let ghost before = out@;
        let ghost rd = rule_deadlines(rule.actions@, rule.citation, today, method, jurisdiction@);
        push_rule_deadlines(rule, today, method, jurisdiction, &mut out);
        proof {
            done = done.push(rule);
            let fd = filing_deadlines(done, today, method, jurisdiction@);
            assert(fd == filing_deadlines(done.drop_last(), today, method, jurisdiction@) + rd);
            assert forall|k: int| 0 <= k < out@.len() implies computation_view(#[trigger] out@[k]) == fd[k] by {
                if k >= before.len() {
                    assert(computation_view(out@[before.len() + (k - before.len())]) == rd[k - before.len()]);
                }
            }
        }
    }
    proof {
        assert(done =~= all);
    }
    out
}

/// What an evaluated filing goes on to.
pub enum FilingNext<D, M> {
    /// Refused with 422 and the privacy scan result.
    PrivacyViolation,
    /// Refused with 422 and the compliance report.
    BlockedByRules,
    /// Accepted: compute these deadlines, file their outcomes into the
    /// report with `collect_deadline_results`, then issue the receipt with
    /// `filing_receipt`.
    ComputeDeadlines(Vec<DeadlineComputation<D, M>>),
}

/// The service method deadlines are computed with: the one the filing
/// names, else electronic service.
pub open spec fn chosen_method<M>(method: Option<M>, electronic: M) -> M {
    match method {
        Some(m) => m,
        None => electronic,
    }
}

/// The decision on a filing once its privacy scan (`None` where it carries
/// no document text) and its rule evaluation are known: a privacy
/// violation refuses it first, a blocking rule next; an accepted filing has
/// one deadline to compute per deadline-generating action of the applicable
/// rules (in priority order), triggered `today`.
pub fn filing_next<D: Copy, M: Copy>(
    privacy_clean: Option<bool>,
    blocked: bool,
    rules: Vec<ApplicableRule>,
    today: D,
    method: Option<M>,
    electronic: M,
    jurisdiction: &String,
) -> (n: FilingNext<D, M>)
    ensures
        privacy_clean == Some(false) ==> n is PrivacyViolation,
        privacy_clean != Some(false) && blocked ==> n is BlockedByRules,
        privacy_clean != Some(false) && !blocked ==> (n matches FilingNext::ComputeDeadlines(v)
            && v@.len() == filing_deadlines(
            rules@,
            today,
            chosen_method(method, electronic),
            jurisdiction@,
        ).len() && forall|k: int|
            0 <= k < v@.len() ==> computation_view(#[trigger] v@[k]) == filing_deadlines(
                rules@,
                today,
                chosen_method(method, electronic),
                jurisdiction@,
            )[k]),
{
    match filing_gate(privacy_clean, blocked) {
        FilingGate::PrivacyViolation => FilingNext::PrivacyViolation,
        FilingGate::BlockedByRules => FilingNext::BlockedByRules,
        FilingGate::Accepted => {
            let m = match method {
                Some(m) => m,
                None => electronic,
            };
            FilingNext::ComputeDeadlines(deadline_computations(rules, today, m, jurisdiction))
        },
    }
}

/// How a notice of electronic filing is delivered.
pub enum DeliveryMethod {
    ElectronicNef,
}

/// A recipient of a notice of electronic filing.
pub struct NefRecipient {
    pub name: String,
    pub email: Option<String>,
    pub delivery_method: DeliveryMethod,
    pub served_at: Option<Instant>,
}

/// A notice of electronic filing.
pub struct NoticeOfElectronicFiling {
    pub filing_id: u128,
    pub case_number: String,
    pub filed_at: Instant,
    pub document_type: String,
    pub filer_name: String,
    pub docket_text: String,
    pub recipients: Vec<NefRecipient>,
}

/// The receipt of an accepted filing; `R` is the compliance report.
pub struct FilingReceipt<R> {
    pub filing_id: u128,
    pub case_number: String,
    pub filed_at: Instant,
    pub document_type: String,
    pub docket_number: Option<String>,
    pub compliance_report: R,
    pub nef: Option<NoticeOfElectronicFiling>,
}

/// The receipt of an accepted filing, made at `now` under `filing_id`: the
/// notice of electronic filing goes to the filer alone, electronically and
/// served at once, with the docket text `{document type} filed by {filer}`;
/// no docket number is assigned yet.
pub fn filing_receipt<R>(
    filing_id: u128,
    now: Instant,
    case_number: String,
    document_type: String,
    filer_name: String,
    compliance_report: R,
) -> (r: FilingReceipt<R>)
    ensures
        r.filing_id == filing_id,
        r.case_number == case_number,
        r.filed_at == now,
        r.document_type == document_type,
        r.docket_number is None,
        r.compliance_report == compliance_report,
        r.nef matches Some(n) && n.filing_id == filing_id && n.case_number == case_number
            && n.filed_at == now && n.document_type == document_type && n.filer_name == filer_name
            && n.docket_text@ == document_type@ + " filed by "@ + filer_name@
            && n.recipients@.len() == 1 && n.recipients@[0].name == filer_name
            && n.recipients@[0].email is None && n.recipients@[0].served_at == Some(now),
{
    let text = nef_docket_text(document_type.as_str(), filer_name.as_str());
    let mut recipients: Vec<NefRecipient> = Vec::new();
    recipients.push(
        NefRecipient {
            name: filer_name.clone(),
            email: None,
            delivery_method: DeliveryMethod::ElectronicNef,
            served_at: Some(now),
        },
    );
    let nef = NoticeOfElectronicFiling {
        filing_id,
        case_number: case_number.clone(),
        filed_at: now,
        document_type: document_type.clone(),
        filer_name,
        docket_text: text,
        recipients,
    };
    FilingReceipt {
        filing_id,
        case_number,
        filed_at: now,
        document_type,
        docket_number: None,
        compliance_report,
        nef: Some(nef),
    }
}

} // verus!
