//! Judicial opinions: partial updates, publication after filing, headnote
//! and draft numbering, and keyword filters.
use vstd::prelude::*;
use crate::error::{ApiError, is_bad_request, is_not_found, bad_request};
use crate::ids::{required_param, found_or};
use crate::text::{chars_of, split_chars, split_on, string_from_chars, trim, trim_chars};
use crate::time::{Instant, instant_or, parse_rfc3339_or, add_days};
use crate::update::{patched, patch};

verus! {

/// A new opinion; `opinion_type` is the wire name of its type.
pub struct CreateOpinionRequest {
    pub case_id: String,
    pub case_name: String,
    pub docket_number: String,
    pub author_judge_id: String,
    pub author_judge_name: String,
    pub opinion_type: String,
    pub title: String,
    pub syllabus: String,
    pub content: String,
}

/// An update of an opinion; `D` is the disposition and `S` the status.
pub struct UpdateOpinionRequest<D, S> {
    pub title: Option<String>,
    pub syllabus: Option<String>,
    pub content: Option<String>,
    pub disposition: Option<D>,
    pub status: Option<S>,
    pub keywords: Option<Vec<String>>,
}

/// Publication of a filed opinion; `C` is the reporter citation.
pub struct PublishOpinionRequest<C> {
    pub is_precedential: bool,
    pub citation: C,
}

/// A judge's vote on an opinion; `vote` is the wire name of the vote.
pub struct AddVoteRequest {
    pub judge_id: String,
    pub judge_name: String,
    pub vote: String,
    pub opinion_id: Option<String>,
    pub notes: String,
}

/// A citation to add to an opinion; `treatment` is the wire name of how the
/// opinion treats the cited case.
pub struct AddCitationRequest {
    pub citation_text: String,
    pub case_name: String,
    pub reporter: String,
    pub year: Option<i32>,
    pub court: Option<String>,
    pub proposition: String,
    pub treatment: String,
}

/// A headnote to add to an opinion.
pub struct AddHeadnoteRequest {
    pub topic: String,
    pub subtopic: Option<String>,
    pub text: String,
    pub key_number: Option<String>,
    pub cited_paragraphs: Vec<String>,
}

/// A new draft of an opinion.
pub struct CreateDraftRequest {
    pub content: String,
    pub changes_summary: String,
    pub created_by: String,
}

/// A comment on a draft.
pub struct AddCommentRequest {
    pub judge_id: String,
    pub judge_name: String,
    pub paragraph_ref: Option<String>,
    pub comment_text: String,
}

/// A page of opinions; `O` is the opinion record.
pub struct OpinionListResponse<O> {
    pub opinions: Vec<O>,
    pub total: usize,
    pub offset: usize,
    pub limit: usize,
}

/// A page of opinions, reporting how many were found and the page asked
/// for.
pub fn opinion_list<O>(opinions: Vec<O>, limit: usize, offset: usize) -> (r: OpinionListResponse<O>)
    ensures
        r.total == opinions@.len(),
        r.opinions == opinions,
        r.limit == limit,
        r.offset == offset,
{
    OpinionListResponse { total: opinions.len(), opinions, offset, limit }
}

/// The fields of an opinion that an update may change.
pub struct OpinionFields<D, S> {
    pub title: String,
    pub syllabus: String,
    pub content: String,
    pub disposition: D,
    pub status: S,
    pub keywords: Vec<String>,
}

/// The opinion after an update: each field given replaces the opinion's.
pub open spec fn updated_opinion<D, S>(o: OpinionFields<D, S>, u: UpdateOpinionRequest<D, S>) -> OpinionFields<D, S> {
    OpinionFields {
        title: patched(o.title, u.title),
        syllabus: patched(o.syllabus, u.syllabus),
        content: patched(o.content, u.content),
        disposition: patched(o.disposition, u.disposition),
        status: patched(o.status, u.status),
        keywords: patched(o.keywords, u.keywords),
    }
}

/// Applies an update to an opinion.
pub fn apply_opinion_update<D, S>(o: OpinionFields<D, S>, u: UpdateOpinionRequest<D, S>) -> (r:
    OpinionFields<D, S>)
    ensures
        r == updated_opinion(o, u),
{
    OpinionFields {
        title: patch(o.title, u.title),
        syllabus: patch(o.syllabus, u.syllabus),
        content: patch(o.content, u.content),
        disposition: patch(o.disposition, u.disposition),
        status: patch(o.status, u.status),
        keywords: patch(o.keywords, u.keywords),
    }
}

/// An update that gives no field leaves the opinion as it was, and applying
/// the same update twice is applying it once.
pub proof fn lemma_opinion_update_laws<D, S>(o: OpinionFields<D, S>, u: UpdateOpinionRequest<D, S>)
    ensures
        updated_opinion(
            o,
            UpdateOpinionRequest {
                title: None,
                syllabus: None,
                content: None,
                disposition: None,
                status: None,
                keywords: None,
            },
        ) == o,
        updated_opinion(updated_opinion(o, u), u) == updated_opinion(o, u),
{
}

/// An opinion is published only once it has been filed.
pub fn check_publishable(filed: bool) -> (r: Result<(), ApiError>)
    ensures
        filed ==> r is Ok,
        !filed ==> (r matches Err(e) && is_bad_request(
            e,
            "Opinion must be filed before publishing"@,
        )),
{
    if filed {
        Ok(())
    } else {
        Err(bad_request("Opinion must be filed before publishing"))
    }
}

/// The number of a new headnote: one more than the headnotes the opinion
/// already has.
pub fn next_headnote_number(existing: usize) -> (n: i32)
    requires
        existing < i32::MAX,
    ensures
        n == existing + 1,
{
    (existing as i32) + 1
}

/// The version of a new draft: one more than the version of the first
/// draft listed (the current one), or 1 for the first draft.
pub fn next_draft_version(current: Option<i32>) -> (v: i32)
    requires
        current matches Some(c) ==> c < i32::MAX,
    ensures
        current matches Some(c) ==> v == c + 1,
        current is None ==> v == 1,
{
    match current {
        Some(c) => c + 1,
        None => 1,
    }
}

/// The keywords of a `keywords` filter: the text split at every comma, each
/// piece trimmed of surrounding whitespace.
pub open spec fn keyword_list(s: Seq<char>) -> Seq<Seq<char>> {
    split_on(s, ',').map_values(|k: Seq<char>| trim(k))
}

/// Reads the `keywords` filter of an opinion listing.
pub fn parse_keywords(s: &str) -> (r: Vec<String>)
    ensures
        r@.len() == keyword_list(s@).len(),
        forall|i: int| 0 <= i < r@.len() ==> #[trigger] r@[i]@ == keyword_list(s@)[i],
{
    let v = chars_of(s);
    let pieces = split_chars(&v, ',');
    let mut out: Vec<String> = Vec::new();
    let mut i: usize = 0;
    while i < pieces.len()
        invariant
            i <= pieces@.len(),
            v@ == s@,
            pieces@.len() == split_on(s@, ',').len(),
            forall|k: int| 0 <= k < pieces@.len() ==> #[trigger] pieces@[k]@ == split_on(s@, ',')[k],
            out@.len() == i,
            forall|k: int| 0 <= k < i ==> #[trigger] out@[k]@ == keyword_list(s@)[k],
        decreases pieces.len() - i,
    {
        let t = trim_chars(&pieces[i]);
        out.push(string_from_chars(&t));
        i = i + 1;
    }
    out
}

/// A draft is changed only through the opinion it belongs to.
pub fn check_draft_owner(draft_opinion: &str, opinion_id: &str) -> (r: Result<(), ApiError>)
    ensures
        draft_opinion@ == opinion_id@ ==> r is Ok,
        draft_opinion@ != opinion_id@ ==> (r matches Err(e) && is_bad_request(
            e,
            "Draft does not belong to this opinion"@,
        )),
{
    let a = chars_of(draft_opinion);
    if crate::text::chars_eq_str(&a, opinion_id) {
        Ok(())
    } else {
        Err(bad_request("Draft does not belong to this opinion"))
    }
}

/// The period citation statistics cover: from `start` (default a year,
/// 365 days, before `now`) to `end` (default `now`).
pub fn citation_window(start: Option<&str>, end: Option<&str>, now: Instant) -> (r: (Instant, Instant))
    requires
        now.secs - 31_536_000 >= i64::MIN,
    ensures
        r.0 == instant_or(
            match start {
                Some(t) => Some(t@),
                None => None,
            },
            Instant { secs: (now.secs - 31_536_000) as i64, nanos: now.nanos },
        ),
        r.1 == instant_or(
            match end {
                Some(t) => Some(t@),
                None => None,
            },
            now,
        ),
{
    let earlier = add_days(now, -365);
    (parse_rfc3339_or(start, earlier), parse_rfc3339_or(end, now))
}

/// The path and query values an opinion request needs.
pub enum OpinionParam {
    Opinion,
    Case,
    Judge,
    Query,
}

/// The message for a missing value.
pub open spec fn opinion_param_message(p: OpinionParam) -> Seq<char> {
    match p {
        OpinionParam::Opinion => "Opinion ID required"@,
        OpinionParam::Case => "Case ID required"@,
        OpinionParam::Judge => "Judge ID required"@,
        OpinionParam::Query => "Search query required"@,
    }
}

/// A value that must be given.
pub fn opinion_param(p: OpinionParam, v: Option<&str>) -> (r: Result<String, ApiError>)
    ensures
        v matches Some(s) ==> (r matches Ok(t) && t@ == s@),
        v is None ==> (r matches Err(e) && is_bad_request(e, opinion_param_message(p))),
{
    match p {
        OpinionParam::Opinion => required_param(v, "Opinion ID required"),
        OpinionParam::Case => required_param(v, "Case ID required"),
        OpinionParam::Judge => required_param(v, "Judge ID required"),
        OpinionParam::Query => required_param(v, "Search query required"),
    }
}

/// The records an opinion request looks up.
pub enum OpinionRecord {
    Opinion,
    CurrentDraft,
}

/// An opinion or current draft that must exist.
pub fn opinion_record<T>(k: OpinionRecord, found: Option<T>) -> (r: Result<T, ApiError>)
    ensures
        found matches Some(t) ==> r == Ok::<T, ApiError>(t),
        found is None ==> (r matches Err(e) && is_not_found(
            e,
            match k {
                OpinionRecord::Opinion => "Opinion not found"@,
                OpinionRecord::CurrentDraft => "No current draft found"@,
            },
        )),
{
    match k {
        OpinionRecord::Opinion => found_or(found, "Opinion not found"),
        OpinionRecord::CurrentDraft => found_or(found, "No current draft found"),
    }
}

/// The records addressed by an ID that may be empty.
pub enum NamedRecord {
    Opinion,
    Draft,
}

/// A record addressed by its ID, reported by it when missing:
/// `Opinion {id} not found`, `Draft {id} not found`.
pub fn named_opinion_record<T>(k: NamedRecord, id: &str, found: Option<T>) -> (r: Result<
    T,
    ApiError,
>)
    ensures
        found matches Some(t) ==> r == Ok::<T, ApiError>(t),
        found is None ==> (r matches Err(e) && is_not_found(
            e,
            (match k {
                NamedRecord::Opinion => "Opinion "@,
                NamedRecord::Draft => "Draft "@,
            }) + id@ + " not found"@,
        )),
{
    match found {
        Some(t) => Ok(t),
        None => {
            let mut m = match k {
                NamedRecord::Opinion => String::from_str("Opinion "),
                NamedRecord::Draft => String::from_str("Draft "),
            };
            m.append(id);
            m.append(" not found");
            Err(ApiError::NotFound(m))
        },
    }
}

} // verus!
