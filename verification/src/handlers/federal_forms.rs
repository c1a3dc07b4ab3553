//! Federal criminal forms (waiver of indictment, conditions of release,
//! judgment): the case they are generated for, how the file is named, and
//! the test data of the automatic forms.
use vstd::prelude::*;
use crate::text::{chars_of, chars_eq_str};

verus! {

/// Request for a waiver of indictment (AO 455).
pub struct WaiverOfIndictmentRequest {
    pub defendant_name: String,
    pub charges: String,
}

/// Request for an order setting conditions of release (AO 199A).
pub struct ConditionsOfReleaseRequest {
    pub defendant_name: String,
    pub judge_name: String,
    pub conditions: Vec<String>,
}

/// Request for a judgment in a criminal case (AO 245B).
pub struct CriminalJudgmentRequest {
    pub defendant_name: String,
    pub judge_name: String,
    pub plea: String,
    pub counts: String,
    pub sentence: String,
}

/// The case a form is generated for when the path names none.
pub open spec fn default_form_case() -> Seq<char> {
    "24-cr-00789"@
}

/// The case a form is generated for: the path's, or the default.
pub open spec fn form_case_spec(case_id: Option<Seq<char>>) -> Seq<char> {
    match case_id {
        Some(c) => c,
        None => default_form_case(),
    }
}

/// The case named in the path, or the default test case.
pub fn form_case(case_id: Option<&str>) -> (s: &str)
    ensures
        s@ == form_case_spec(
            match case_id {
                Some(c) => Some(c@),
                None => None,
            },
        ),
{
    match case_id {
        Some(c) => c,
        None => "24-cr-00789",
    }
}

/// The federal forms.
pub enum FederalForm {
    WaiverOfIndictment,
    ConditionsOfRelease,
    CriminalJudgment,
}

/// The stem a form's file name starts with.
pub open spec fn form_stem(f: FederalForm) -> Seq<char> {
    match f {
        FederalForm::WaiverOfIndictment => "waiver-indictment-"@,
        FederalForm::ConditionsOfRelease => "conditions-release-"@,
        FederalForm::CriminalJudgment => "criminal-judgment-"@,
    }
}

/// The `Content-Disposition` of a generated form:
/// `attachment; filename="{stem}{case}.pdf"`.
pub fn form_disposition(f: FederalForm, case_id: &str) -> (s: String)
    ensures
        s@ == "attachment; filename=\""@ + form_stem(f) + case_id@ + ".pdf\""@,
{
    let mut s = String::from_str("attachment; filename=\"");
    match f {
        FederalForm::WaiverOfIndictment => s.append("waiver-indictment-"),
        FederalForm::ConditionsOfRelease => s.append("conditions-release-"),
        FederalForm::CriminalJudgment => s.append("criminal-judgment-"),
    }
    s.append(case_id);
    s.append(".pdf\"");
    s
}

/// Which set of test data a case uses.
pub enum TestCase {
    /// `24-cr-00789`
    WireFraud,
    /// `23-cr-00456`
    Narcotics,
    /// Any other case.
    Other,
}

/// The set of test data for a case.
pub open spec fn test_case_spec(case_id: Seq<char>) -> TestCase {
    if case_id == "24-cr-00789"@ {
        TestCase::WireFraud
    } else if case_id == "23-cr-00456"@ {
        TestCase::Narcotics
    } else {
        TestCase::Other
    }
}

/// Picks the set of test data for a case.
pub fn test_case(case_id: &str) -> (t: TestCase)
    ensures
        t == test_case_spec(case_id@),
{
    let v = chars_of(case_id);
    if chars_eq_str(&v, "24-cr-00789") {
        TestCase::WireFraud
    } else if chars_eq_str(&v, "23-cr-00456") {
        TestCase::Narcotics
    } else {
        TestCase::Other
    }
}

/// The defendant and charges of the automatic waiver of indictment.
pub fn test_waiver(t: TestCase) -> (r: (&'static str, &'static str))
    ensures
        t is WireFraud ==> r.0@ == "John Michael Smith"@ && r.1@
            == "18 U.S.C. § 1343 (Wire Fraud) - Count 1\n18 U.S.C. § 1001 (False Statements) - Count 2"@,
        t is Narcotics ==> r.0@ == "Maria Rodriguez"@ && r.1@
            == "21 U.S.C. § 841(a)(1) (Possession with Intent to Distribute)"@,
        t is Other ==> r.0@ == "Test Defendant"@ && r.1@ == "18 U.S.C. § 371 (Conspiracy)"@,
{
    match t {
        TestCase::WireFraud => (
            "John Michael Smith",
            "18 U.S.C. § 1343 (Wire Fraud) - Count 1\n18 U.S.C. § 1001 (False Statements) - Count 2",
        ),
        TestCase::Narcotics => (
            "Maria Rodriguez",
            "21 U.S.C. § 841(a)(1) (Possession with Intent to Distribute)",
        ),
        TestCase::Other => ("Test Defendant", "18 U.S.C. § 371 (Conspiracy)"),
    }
}

/// The defendant and judge of the automatic conditions of release.
pub fn test_release_parties(t: TestCase) -> (r: (&'static str, &'static str))
    ensures
        t is WireFraud ==> r.0@ == "John Michael Smith"@ && r.1@ == "Hon. Sarah Johnson"@,
        t is Narcotics ==> r.0@ == "Maria Rodriguez"@ && r.1@ == "Hon. Michael Davis"@,
        t is Other ==> r.0@ == "Test Defendant"@ && r.1@ == "Hon. District Judge"@,
{
    match t {
        TestCase::WireFraud => ("John Michael Smith", "Hon. Sarah Johnson"),
        TestCase::Narcotics => ("Maria Rodriguez", "Hon. Michael Davis"),
        TestCase::Other => ("Test Defendant", "Hon. District Judge"),
    }
}

/// The standard conditions of the automatic conditions of release.
pub fn standard_conditions() -> (v: Vec<&'static str>)
    ensures
        v@.len() == 8,
        v@[0]@ == "Report to Pretrial Services as directed"@,
        v@[1]@ == "Not commit any federal, state, or local crime"@,
        v@[2]@ == "Surrender all passports and not obtain new travel documents"@,
        v@[3]@ == "Travel restricted to SDNY and EDNY"@,
        v@[4]@ == "Maintain or seek employment"@,
        v@[5]@ == "Not possess firearms or destructive devices"@,
        v@[6]@ == "Submit to drug testing as directed"@,
        v@[7]@ == "Maintain residence as approved by Pretrial Services"@,
{
    let mut v: Vec<&'static str> = Vec::new();
    v.push("Report to Pretrial Services as directed");
    v.push("Not commit any federal, state, or local crime");
    v.push("Surrender all passports and not obtain new travel documents");
    v.push("Travel restricted to SDNY and EDNY");
    v.push("Maintain or seek employment");
    v.push("Not possess firearms or destructive devices");
    v.push("Submit to drug testing as directed");
    v.push("Maintain residence as approved by Pretrial Services");
    v
}

/// The judgment test data: defendant, judge, plea, counts and sentence.
pub struct TestJudgment {
    pub defendant: &'static str,
    pub judge: &'static str,
    pub plea: &'static str,
    pub counts: &'static str,
    pub sentence: &'static str,
}

/// The data of the automatic criminal judgment.
pub fn test_judgment(t: TestCase) -> (r: TestJudgment)
    ensures
        t is WireFraud ==> r.defendant@ == "John Michael Smith"@ && r.judge@
            == "Hon. Sarah Johnson"@ && r.plea@ == "Guilty"@ && r.counts@
            == "Count 1: 18 U.S.C. § 1343 (Wire Fraud)"@ && r.sentence@
            == "60 months imprisonment"@,
        t is Narcotics ==> r.defendant@ == "Maria Rodriguez"@ && r.judge@
            == "Hon. Michael Davis"@ && r.plea@ == "Guilty"@ && r.counts@
            == "Count 1: 21 U.S.C. § 841(a)(1)"@ && r.sentence@ == "36 months imprisonment"@,
        t is Other ==> r.defendant@ == "Test Defendant"@ && r.judge@ == "Hon. District Judge"@
            && r.plea@ == "No Contest"@ && r.counts@ == "Count 1: 18 U.S.C. § 371"@
            && r.sentence@ == "24 months imprisonment"@,
{
    match t {
        TestCase::WireFraud => TestJudgment {
            defendant: "John Michael Smith",
            judge: "Hon. Sarah Johnson",
            plea: "Guilty",
            counts: "Count 1: 18 U.S.C. § 1343 (Wire Fraud)",
            sentence: "60 months imprisonment",
        },
        TestCase::Narcotics => TestJudgment {
            defendant: "Maria Rodriguez",
            judge: "Hon. Michael Davis",
            plea: "Guilty",
            counts: "Count 1: 21 U.S.C. § 841(a)(1)",
            sentence: "36 months imprisonment",
        },
        TestCase::Other => TestJudgment {
            defendant: "Test Defendant",
            judge: "Hon. District Judge",
            plea: "No Contest",
            counts: "Count 1: 18 U.S.C. § 371",
            sentence: "24 months imprisonment",
        },
    }
}

} // verus!
