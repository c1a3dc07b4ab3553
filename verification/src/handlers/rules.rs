//! The rules engine endpoints: searching, addressing and evaluating court
//! rules.
use vstd::prelude::*;
use crate::error::{ApiError, is_bad_request, is_not_found, bad_request, not_found};
use crate::ids::{uuid_parse_str, optional_uuid};
use crate::parse::{parse_unsigned, parse_usize};
use crate::update::{patch, patch_optional, patched};

verus! {

/// A page of rules; `R` is the rule record.
pub struct RuleSearchResponse<R> {
    pub rules: Vec<R>,
    pub total: usize,
}

/// The answer to a rule evaluation request.
pub struct EvaluateRulesResponse {
    pub message: String,
    pub evaluated_count: usize,
}

/// Rule evaluation is answered with a fixed notice and no rule evaluated.
pub fn evaluate_rules() -> (r: EvaluateRulesResponse)
    ensures
        r.message@ == "Rule evaluation is not yet implemented (Phase 2)"@,
        r.evaluated_count == 0,
{
    EvaluateRulesResponse {
        message: String::from_str("Rule evaluation is not yet implemented (Phase 2)"),
        evaluated_count: 0,
    }
}

/// A query number: the value when it parses as a `usize`, the default
/// otherwise (absent or malformed).
pub open spec fn number_or(v: Option<Seq<char>>, default: usize) -> usize {
    match v {
        Some(s) => match parse_unsigned(s, usize::MAX as nat) {
            Some(n) => n as usize,
            None => default,
        },
        None => default,
    }
}

/// Reads a query number, falling back to `default`.
pub fn query_number(v: Option<&str>, default: usize) -> (n: usize)
    ensures
        n == number_or(
            match v {
                Some(s) => Some(s@),
                None => None,
            },
            default,
        ),
{
    match v {
        Some(s) => match parse_usize(s) {
            Some(n) => n,
            None => default,
        },
        None => default,
    }
}

/// The page of a rule search: `offset` (default 0) and `limit` (default
/// 50) from the query.
pub fn rule_page(offset: Option<&str>, limit: Option<&str>) -> (r: (usize, usize))
    ensures
        r.0 == number_or(
            match offset {
                Some(s) => Some(s@),
                None => None,
            },
            0,
        ),
        r.1 == number_or(
            match limit {
                Some(s) => Some(s@),
                None => None,
            },
            50,
        ),
{
    (query_number(offset, 0), query_number(limit, 50))
}

/// The rule addressed by the `id` path parameter; a missing or malformed ID
/// is answered with `Invalid rule ID`.
pub fn rule_id(id: Option<&str>) -> (r: Result<u128, ApiError>)
    ensures
        match id {
            Some(s) => match uuid_parse_str(s@) {
                Some(u) => r == Ok::<u128, ApiError>(u),
                None => r matches Err(e) && is_bad_request(e, "Invalid rule ID"@),
            },
            None => r matches Err(e) && is_bad_request(e, "Invalid rule ID"@),
        },
{
    match optional_uuid(id) {
        Some(u) => Ok(u),
        None => Err(bad_request("Invalid rule ID")),
    }
}

/// The path parameters a rule listing is filtered by.
pub enum RuleFilter {
    Category,
    Trigger,
    Jurisdiction,
}

/// The message for a missing filter parameter.
pub open spec fn filter_required(f: RuleFilter) -> Seq<char> {
    match f {
        RuleFilter::Category => "Category required"@,
        RuleFilter::Trigger => "Trigger required"@,
        RuleFilter::Jurisdiction => "Jurisdiction required"@,
    }
}

/// The value of a filter parameter, which must be present.
pub fn filter_value(f: RuleFilter, v: Option<&str>) -> (r: Result<String, ApiError>)
    ensures
        v matches Some(s) ==> (r matches Ok(t) && t@ == s@),
        v is None ==> (r matches Err(e) && is_bad_request(e, filter_required(f))),
{
    match v {
        Some(s) => Ok(String::from_str(s)),
        None => match f {
            RuleFilter::Category => Err(bad_request("Category required")),
            RuleFilter::Trigger => Err(bad_request("Trigger required")),
            RuleFilter::Jurisdiction => Err(bad_request("Jurisdiction required")),
        },
    }
}

/// A rule that must exist: `Rule not found` otherwise.
pub fn rule_found<T>(found: Option<T>) -> (r: Result<T, ApiError>)
    ensures
        found matches Some(t) ==> r == Ok::<T, ApiError>(t),
        found is None ==> (r matches Err(e) && is_not_found(e, "Rule not found"@)),
{
    match found {
        Some(t) => Ok(t),
        None => Err(not_found("Rule not found")),
    }
}

/// The editable fields of a court rule and when it was last updated: `S`
/// is its source, `C` its category, `T` a trigger, `K` a condition, `A` an
/// action, `P` its priority, `Z` its status and `D` a date.
pub struct RuleRecord<S, C, T, K, A, P, Z, D> {
    pub name: String,
    pub description: String,
    pub source: S,
    pub category: C,
    pub triggers: Vec<T>,
    pub conditions: Vec<K>,
    pub actions: Vec<A>,
    pub priority: P,
    pub status: Z,
    pub jurisdiction: Option<String>,
    pub citation: Option<String>,
    pub effective_date: Option<D>,
    pub expiration_date: Option<D>,
    pub supersedes_rule_id: Option<u128>,
    pub updated_at: D,
}

/// A partial update of a rule: each field it carries replaces the rule's.
pub struct RuleUpdate<S, C, T, K, A, P, Z, D> {
    pub name: Option<String>,
    pub description: Option<String>,
    pub source: Option<S>,
    pub category: Option<C>,
    pub triggers: Option<Vec<T>>,
    pub conditions: Option<Vec<K>>,
    pub actions: Option<Vec<A>>,
    pub priority: Option<P>,
    pub status: Option<Z>,
    pub jurisdiction: Option<String>,
    pub citation: Option<String>,
    pub effective_date: Option<D>,
    pub expiration_date: Option<D>,
    pub supersedes_rule_id: Option<u128>,
}

/// An optional field after an update that may set it; it is never cleared.
pub open spec fn patched_optional<T>(current: Option<T>, update: Option<T>) -> Option<T> {
    match update {
        Some(v) => Some(v),
        None => current,
    }
}

/// Applies a partial update to a rule at `now`: every field the update
/// carries is set, every other field keeps its value, and the rule is
/// marked updated at `now`.
pub fn update_rule<S, C, T, K, A, P, Z, D>(
    rule: RuleRecord<S, C, T, K, A, P, Z, D>,
    update: RuleUpdate<S, C, T, K, A, P, Z, D>,
    now: D,
) -> (r: RuleRecord<S, C, T, K, A, P, Z, D>)
    ensures
        r.name == patched(rule.name, update.name),
        r.description == patched(rule.description, update.description),
        r.source == patched(rule.source, update.source),
        r.category == patched(rule.category, update.category),
        r.triggers == patched(rule.triggers, update.triggers),
        r.conditions == patched(rule.conditions, update.conditions),
        r.actions == patched(rule.actions, update.actions),
        r.priority == patched(rule.priority, update.priority),
        r.status == patched(rule.status, update.status),
        r.jurisdiction == patched_optional(rule.jurisdiction, update.jurisdiction),
        r.citation == patched_optional(rule.citation, update.citation),
        r.effective_date == patched_optional(rule.effective_date, update.effective_date),
        r.expiration_date == patched_optional(rule.expiration_date, update.expiration_date),
        r.supersedes_rule_id == patched_optional(rule.supersedes_rule_id, update.supersedes_rule_id),
        r.updated_at == now,
{
    RuleRecord {
        name: patch(rule.name, update.name),
        description: patch(rule.description, update.description),
        source: patch(rule.source, update.source),
        category: patch(rule.category, update.category),
        triggers: patch(rule.triggers, update.triggers),
        conditions: patch(rule.conditions, update.conditions),
        actions: patch(rule.actions, update.actions),
        priority: patch(rule.priority, update.priority),
        status: patch(rule.status, update.status),
        jurisdiction: patch_optional(rule.jurisdiction, update.jurisdiction),
        citation: patch_optional(rule.citation, update.citation),
        effective_date: patch_optional(rule.effective_date, update.effective_date),
        expiration_date: patch_optional(rule.expiration_date, update.expiration_date),
        supersedes_rule_id: patch_optional(rule.supersedes_rule_id, update.supersedes_rule_id),
        updated_at: now,
    }
}

} // verus!
