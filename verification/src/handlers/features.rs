//! Feature flags of the judicial system: switching a flag by its path and
//! reporting the flags.
use vstd::prelude::*;
use crate::error::{ApiError, is_bad_request};
use crate::text::chars_eq_str;
use crate::ids::required_param;

verus! {

/// Core modules.
pub struct CoreFeatures {
    pub case_management: bool,
    pub basic_docket: bool,
    pub party_management: bool,
}

/// Advanced modules.
pub struct AdvancedFeatures {
    pub judge_assignment: bool,
    pub automated_scheduling: bool,
    pub deadline_tracking: bool,
    pub statistical_reporting: bool,
    pub sentencing_calculator: bool,
}

/// Experimental modules.
pub struct ExperimentalFeatures {
    pub mdl_proceedings: bool,
    pub ai_assisted_research: bool,
    pub automated_transcription: bool,
    pub predictive_analytics: bool,
}

/// The switchable flags of the judicial feature configuration.
pub struct JudicialFeatures {
    pub core: CoreFeatures,
    pub advanced: AdvancedFeatures,
    pub experimental: ExperimentalFeatures,
}

/// The feature paths, in a fixed order.
pub open spec fn feature_path(i: int) -> Seq<char> {
    if i == 0 {
        "case_management"@
    } else if i == 1 {
        "judge_assignment"@
    } else if i == 2 {
        "docket_management"@
    } else if i == 3 {
        "calendar_scheduling"@
    } else if i == 4 {
        "deadline_tracking"@
    } else if i == 5 {
        "reporting"@
    } else if i == 6 {
        "party_management"@
    } else if i == 7 {
        "sentencing_calculator"@
    } else if i == 8 {
        "mdl_proceedings"@
    } else if i == 9 {
        "ai_assisted_research"@
    } else if i == 10 {
        "automated_transcription"@
    } else {
        "predictive_analytics"@
    }
}

/// The position of a feature path in the list, the first that matches.
pub open spec fn feature_index(path: Seq<char>) -> Option<int> {
    if path == feature_path(0) {
        Some(0)
    } else if path == feature_path(1) {
        Some(1)
    } else if path == feature_path(2) {
        Some(2)
    } else if path == feature_path(3) {
        Some(3)
    } else if path == feature_path(4) {
        Some(4)
    } else if path == feature_path(5) {
        Some(5)
    } else if path == feature_path(6) {
        Some(6)
    } else if path == feature_path(7) {
        Some(7)
    } else if path == feature_path(8) {
        Some(8)
    } else if path == feature_path(9) {
        Some(9)
    } else if path == feature_path(10) {
        Some(10)
    } else if path == feature_path(11) {
        Some(11)
    } else {
        None
    }
}

/// The flag at a position of the list.
pub open spec fn flag_at(f: JudicialFeatures, i: int) -> bool {
    if i == 0 {
        f.core.case_management
    } else if i == 1 {
        f.advanced.judge_assignment
    } else if i == 2 {
        f.core.basic_docket
    } else if i == 3 {
        f.advanced.automated_scheduling
    } else if i == 4 {
        f.advanced.deadline_tracking
    } else if i == 5 {
        f.advanced.statistical_reporting
    } else if i == 6 {
        f.core.party_management
    } else if i == 7 {
        f.advanced.sentencing_calculator
    } else if i == 8 {
        f.experimental.mdl_proceedings
    } else if i == 9 {
        f.experimental.ai_assisted_research
    } else if i == 10 {
        f.experimental.automated_transcription
    } else {
        f.experimental.predictive_analytics
    }
}

/// The flag a feature path addresses (`docket_management` is the basic
/// docket, `calendar_scheduling` automated scheduling, `reporting`
/// statistical reporting), or `None` for a path that addresses none.
pub open spec fn feature_flag(f: JudicialFeatures, path: Seq<char>) -> Option<bool> {
    match feature_index(path) {
        Some(i) => Some(flag_at(f, i)),
        None => None,
    }
}

/// Two configurations agree on every flag but possibly the one at `path`.
pub open spec fn same_except(a: JudicialFeatures, b: JudicialFeatures, path: Seq<char>) -> bool {
    forall|p: Seq<char>|
        p != path ==> #[trigger] feature_flag(a, p) == feature_flag(b, p)
}

/// Request to switch one feature flag.
pub struct UpdateFeaturesRequest {
    pub feature_path: String,
    pub enabled: bool,
}

/// Request to override a feature flag in the feature manager.
pub struct OverrideRequest {
    pub feature_path: String,
    pub enabled: bool,
}

/// Request to update the implementation status of a tracked feature; the
/// status holds its wire name.
pub struct UpdateRequest {
    pub feature_name: String,
    pub status: Option<String>,
    pub progress: Option<u8>,
}

/// The position of a feature path, computed.
fn feature_index_of(path: &str) -> (r: Option<u8>)
    ensures
        r matches Some(i) ==> feature_index(path@) == Some(i as int),
        r is None ==> feature_index(path@) is None,
{
    let p = crate::text::chars_of(path);
    if chars_eq_str(&p, "case_management") {
        Some(0)
    } else if chars_eq_str(&p, "judge_assignment") {
        Some(1)
    } else if chars_eq_str(&p, "docket_management") {
        Some(2)
    } else if chars_eq_str(&p, "calendar_scheduling") {
        Some(3)
    } else if chars_eq_str(&p, "deadline_tracking") {
        Some(4)
    } else if chars_eq_str(&p, "reporting") {
        Some(5)
    } else if chars_eq_str(&p, "party_management") {
        Some(6)
    } else if chars_eq_str(&p, "sentencing_calculator") {
        Some(7)
    } else if chars_eq_str(&p, "mdl_proceedings") {
        Some(8)
    } else if chars_eq_str(&p, "ai_assisted_research") {
        Some(9)
    } else if chars_eq_str(&p, "automated_transcription") {
        Some(10)
    } else if chars_eq_str(&p, "predictive_analytics") {
        Some(11)
    } else {
        None
    }
}

/// Sets the flag at a position of the list.
fn set_flag_at(features: &mut JudicialFeatures, i: u8, enabled: bool)
    requires
        i < 12,
    ensures
        flag_at(*final(features), i as int) == enabled,
        forall|j: int| 0 <= j < 12 && j != i ==> flag_at(*final(features), j) == flag_at(*old(features), j),
{
    if i == 0 {
        features.core.case_management = enabled;
    } else if i == 1 {
        features.advanced.judge_assignment = enabled;
    } else if i == 2 {
        features.core.basic_docket = enabled;
    } else if i == 3 {
        features.advanced.automated_scheduling = enabled;
    } else if i == 4 {
        features.advanced.deadline_tracking = enabled;
    } else if i == 5 {
        features.advanced.statistical_reporting = enabled;
    } else if i == 6 {
        features.core.party_management = enabled;
    } else if i == 7 {
        features.advanced.sentencing_calculator = enabled;
    } else if i == 8 {
        features.experimental.mdl_proceedings = enabled;
    } else if i == 9 {
        features.experimental.ai_assisted_research = enabled;
    } else if i == 10 {
        features.experimental.automated_transcription = enabled;
    } else {
        features.experimental.predictive_analytics = enabled;
    }
}

/// Sets the flag a path addresses. An unknown path is refused with
/// `Unknown feature: {path}` and leaves the configuration as it was.
pub fn update_feature(features: &mut JudicialFeatures, path: &str, enabled: bool) -> (r: Result<
    (),
    ApiError,
>)
    ensures
        feature_flag(*old(features), path@) is Some ==> r is Ok && feature_flag(
            *final(features),
            path@,
        ) == Some(enabled) && same_except(*old(features), *final(features), path@),
        feature_flag(*old(features), path@) is None ==> (r matches Err(e) && is_bad_request(
            e,
            "Unknown feature: "@ + path@,
        )) && *final(features) == *old(features),
{
    match feature_index_of(path) {
        Some(i) => {
            let ghost before = *features;
            set_flag_at(features, i, enabled);
            proof {
                assert forall|p: Seq<char>| p != path@ implies #[trigger] feature_flag(
                    before,
                    p,
                ) == feature_flag(*features, p) by {
                    match feature_index(p) {
                        Some(j) => {
                            assert(p == feature_path(j));
                            assert(0 <= j < 12);
                            assert(j != i);
                        },
                        None => {},
                    }
                }
            }
            Ok(())
        },
        None => {
            let mut msg = String::from_str("Unknown feature: ");
            msg.append(path);
            Err(ApiError::BadRequest(msg))
        },
    }
}

/// The feature report.
pub struct FeaturesResponse {
    pub enabled_features: Vec<String>,
    pub case_management: bool,
    pub judge_assignment: bool,
    pub docket_management: bool,
    pub calendar_scheduling: bool,
    pub deadline_tracking: bool,
    pub document_filing: bool,
    pub notifications: bool,
    pub reporting: bool,
    pub user_management: bool,
    pub audit_logging: bool,
}

/// Reports the flags; `enabled_features` is the feature manager's list of
/// enabled features. Filing, notifications, user management and audit
/// logging have no flag and are reported off.
pub fn features_response(f: &JudicialFeatures, enabled_features: Vec<String>) -> (r:
    FeaturesResponse)
    ensures
        r.enabled_features == enabled_features,
        r.case_management == f.core.case_management,
        r.judge_assignment == f.advanced.judge_assignment,
        r.docket_management == f.core.basic_docket,
        r.calendar_scheduling == f.advanced.automated_scheduling,
        r.deadline_tracking == f.advanced.deadline_tracking,
        r.reporting == f.advanced.statistical_reporting,
        !r.document_filing && !r.notifications && !r.user_management && !r.audit_logging,
{
    FeaturesResponse {
        enabled_features,
        case_management: f.core.case_management,
        judge_assignment: f.advanced.judge_assignment,
        docket_management: f.core.basic_docket,
        calendar_scheduling: f.advanced.automated_scheduling,
        deadline_tracking: f.advanced.deadline_tracking,
        document_filing: false,
        notifications: false,
        reporting: f.advanced.statistical_reporting,
        user_management: false,
        audit_logging: false,
    }
}

/// The error for a key-value store that failed: `Store error: {detail}`.
pub fn store_error(detail: &str) -> (e: ApiError)
    ensures
        e matches ApiError::Internal(m) && m@ == "Store error: "@ + detail@,
{
    let mut m = String::from_str("Store error: ");
    m.append(detail);
    ApiError::Internal(m)
}

/// The feature path of an `is enabled` query, which must be given.
pub fn feature_path_param(v: Option<&str>) -> (r: Result<String, ApiError>)
    ensures
        v matches Some(s) ==> (r matches Ok(t) && t@ == s@),
        v is None ==> (r matches Err(e) && is_bad_request(e, "Feature path required"@)),
{
    required_param(v, "Feature path required")
}

/// The implementation status a seeded module is recorded with.
pub enum SeedStatus {
    Completed,
}

/// A module recorded as implemented when the implementation tracker is
/// first read.
pub struct SeedFeature {
    pub name: &'static str,
    pub module: &'static str,
    pub status: SeedStatus,
    pub progress_percentage: u8,
    pub estimated_hours: u32,
    pub actual_hours: Option<u32>,
    pub blockers: Vec<String>,
    pub dependencies: Vec<String>,
}

fn seed(name: &'static str, module: &'static str, estimated: u32, actual: u32) -> (f: SeedFeature)
    ensures
        f.name == name,
        f.module == module,
        f.status is Completed,
        f.progress_percentage == 100,
        f.blockers@.len() == 0,
        f.dependencies@.len() == 0,
        f.estimated_hours == estimated,
        f.actual_hours == Some(actual),
{
    SeedFeature {
        name,
        module,
        status: SeedStatus::Completed,
        progress_percentage: 100,
        estimated_hours: estimated,
        actual_hours: Some(actual),
        blockers: Vec::new(),
        dependencies: Vec::new(),
    }
}

/// The modules an empty implementation tracker is filled with, all
/// completed at 100% with no blockers or dependencies: none when the
/// tracker already tracks something.
pub fn tracker_seed(tracker_is_empty: bool) -> (v: Vec<SeedFeature>)
    ensures
        !tracker_is_empty ==> v@.len() == 0,
        tracker_is_empty ==> {
            &&& v@.len() == 4
            &&& v@[0].name@ == "Case Management"@ && v@[0].module@ == "criminal_case"@
                && v@[0].estimated_hours == 40 && v@[0].actual_hours == Some(45u32)
            &&& v@[1].name@ == "Judge Assignment"@ && v@[1].module@ == "judge"@
                && v@[1].estimated_hours == 30 && v@[1].actual_hours == Some(32u32)
            &&& v@[2].name@ == "Docket Management"@ && v@[2].module@ == "docket"@
                && v@[2].estimated_hours == 35 && v@[2].actual_hours == Some(38u32)
            &&& v@[3].name@ == "Deadline Tracking"@ && v@[3].module@ == "deadline"@
                && v@[3].estimated_hours == 25 && v@[3].actual_hours == Some(28u32)
            &&& forall|i: int|
                0 <= i < 4 ==> #[trigger] v@[i].progress_percentage == 100 && v@[i].status is Completed
                    && v@[i].blockers@.len() == 0 && v@[i].dependencies@.len() == 0
        },
{
    let mut v: Vec<SeedFeature> = Vec::new();
    if tracker_is_empty {
        v.push(seed("Case Management", "criminal_case", 40, 45));
        v.push(seed("Judge Assignment", "judge", 30, 32));
        v.push(seed("Docket Management", "docket", 35, 38));
        v.push(seed("Deadline Tracking", "deadline", 25, 28));
    }
    v
}

proof fn lemma_feature_index_of_path(i: int)
    requires
        0 <= i < 6,
    ensures
        feature_index(feature_path(i)) == Some(i),
{
    reveal_strlit("case_management");
    reveal_strlit("judge_assignment");
    reveal_strlit("docket_management");
    reveal_strlit("calendar_scheduling");
    reveal_strlit("deadline_tracking");
    reveal_strlit("reporting");
    assert("case_management"@.len() == 15);
    assert("judge_assignment"@.len() == 16);
    assert("docket_management"@.len() == 17);
    assert("calendar_scheduling"@.len() == 19);
    assert("deadline_tracking"@.len() == 17);
    assert("reporting"@.len() == 9);
    assert("docket_management"@[1] != "deadline_tracking"@[1]);
}

/// The features report shows, for each of its six flags, the flag its
/// feature path addresses; so a flag switched through `update_feature` is
/// what the next report shows.
pub proof fn lemma_report_shows_flags(f: JudicialFeatures, r: FeaturesResponse)
    requires
        r.case_management == f.core.case_management,
        r.judge_assignment == f.advanced.judge_assignment,
        r.docket_management == f.core.basic_docket,
        r.calendar_scheduling == f.advanced.automated_scheduling,
        r.deadline_tracking == f.advanced.deadline_tracking,
        r.reporting == f.advanced.statistical_reporting,
    ensures
        feature_flag(f, "case_management"@) == Some(r.case_management),
        feature_flag(f, "judge_assignment"@) == Some(r.judge_assignment),
        feature_flag(f, "docket_management"@) == Some(r.docket_management),
        feature_flag(f, "calendar_scheduling"@) == Some(r.calendar_scheduling),
        feature_flag(f, "deadline_tracking"@) == Some(r.deadline_tracking),
        feature_flag(f, "reporting"@) == Some(r.reporting),
{
    lemma_feature_index_of_path(0);
    lemma_feature_index_of_path(1);
    lemma_feature_index_of_path(2);
    lemma_feature_index_of_path(3);
    lemma_feature_index_of_path(4);
    lemma_feature_index_of_path(5);
}

} // verus!
