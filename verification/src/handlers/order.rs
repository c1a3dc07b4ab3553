//! Judicial orders: partial updates, the sign-then-issue lifecycle, and
//! orders drawn from templates.
use vstd::prelude::*;
use crate::error::{ApiError, is_bad_request, is_not_found, bad_request};
use crate::ids::{required_param, found_or};
use crate::parse::{parse_unsigned, parse_signed64, parse_usize, parse_i64};
use crate::text::{chars_of, chars_eq};
use crate::time::Instant;
use crate::update::{patched, patch, patch_optional};

verus! {

/// A signature to put on an order.
pub struct SignOrderRequest {
    pub judge_id: String,
    pub judge_name: String,
    pub certificate_id: String,
}

/// A party to serve an order on; `method` is the wire name of the service
/// method.
pub struct AddServiceRequest {
    pub party_id: String,
    pub party_name: String,
    pub method: String,
    pub served_by: Option<String>,
}

/// An order to draw from a template, with the values of its variables.
pub struct CreateFromTemplateRequest {
    pub template_id: String,
    pub case_id: String,
    pub judge_id: String,
    pub variables: Vec<(String, String)>,
}

/// A template variable: its name and whether an order must give it.
pub struct TemplateVariable {
    pub name: String,
    pub required: bool,
}

/// A new order template; `order_type` and `default_service_method` are wire
/// names.
pub struct CreateTemplateRequest {
    pub name: String,
    pub order_type: String,
    pub description: String,
    pub template_content: String,
    pub variables: Vec<TemplateVariable>,
    pub required_attachments: Vec<String>,
    pub default_service_method: String,
}

/// A page of orders; `O` is the order record.
pub struct OrderListResponse<O> {
    pub orders: Vec<O>,
    pub total: usize,
    pub offset: usize,
    pub limit: usize,
}

/// The fields of an order that an update may change; `S` is the order
/// status.
pub struct OrderFields<S> {
    pub title: String,
    pub content: String,
    pub status: S,
    pub is_sealed: bool,
    pub effective_date: Option<Instant>,
    pub expiration_date: Option<Instant>,
}

/// An update of an order: each field given replaces the order's.
pub struct UpdateOrderRequest<S> {
    pub title: Option<String>,
    pub content: Option<String>,
    pub status: Option<S>,
    pub is_sealed: Option<bool>,
    pub effective_date: Option<Instant>,
    pub expiration_date: Option<Instant>,
}

/// An optional field after an update that may set it.
pub open spec fn patched_optional<T>(current: Option<T>, update: Option<T>) -> Option<T> {
    match update {
        Some(v) => Some(v),
        None => current,
    }
}

/// The order after an update.
pub open spec fn updated_order<S>(o: OrderFields<S>, u: UpdateOrderRequest<S>) -> OrderFields<S> {
    OrderFields {
        title: patched(o.title, u.title),
        content: patched(o.content, u.content),
        status: patched(o.status, u.status),
        is_sealed: patched(o.is_sealed, u.is_sealed),
        effective_date: patched_optional(o.effective_date, u.effective_date),
        expiration_date: patched_optional(o.expiration_date, u.expiration_date),
    }
}

/// Applies an update to an order.
pub fn apply_order_update<S>(order: OrderFields<S>, update: UpdateOrderRequest<S>) -> (r:
    OrderFields<S>)
    ensures
        r == updated_order(order, update),
{
    OrderFields {
        title: patch(order.title, update.title),
        content: patch(order.content, update.content),
        status: patch(order.status, update.status),
        is_sealed: patch(order.is_sealed, update.is_sealed),
        effective_date: patch_optional(order.effective_date, update.effective_date),
        expiration_date: patch_optional(order.expiration_date, update.expiration_date),
    }
}

/// Every field an order update gives is set to what it gives, and every
/// field it leaves out keeps its value; an update never clears a date.
pub proof fn lemma_order_update_sets_given_fields<S>(o: OrderFields<S>, u: UpdateOrderRequest<S>)
    ensures
        u.title matches Some(t) ==> updated_order(o, u).title == t,
        u.title is None ==> updated_order(o, u).title == o.title,
        u.content matches Some(c) ==> updated_order(o, u).content == c,
        u.content is None ==> updated_order(o, u).content == o.content,
        u.status matches Some(st) ==> updated_order(o, u).status == st,
        u.status is None ==> updated_order(o, u).status == o.status,
        u.is_sealed matches Some(b) ==> updated_order(o, u).is_sealed == b,
        u.is_sealed is None ==> updated_order(o, u).is_sealed == o.is_sealed,
        u.effective_date matches Some(d) ==> updated_order(o, u).effective_date == Some(d),
        u.effective_date is None ==> updated_order(o, u).effective_date == o.effective_date,
        u.expiration_date matches Some(d) ==> updated_order(o, u).expiration_date == Some(d),
        u.expiration_date is None ==> updated_order(o, u).expiration_date == o.expiration_date,
{
}

/// An update that gives no field.
pub open spec fn empty_update<S>() -> UpdateOrderRequest<S> {
    UpdateOrderRequest {
        title: None,
        content: None,
        status: None,
        is_sealed: None,
        effective_date: None,
        expiration_date: None,
    }
}

/// An update that gives no field leaves the order as it was, and applying
/// the same update twice is applying it once.
pub proof fn lemma_order_update_laws<S>(o: OrderFields<S>, u: UpdateOrderRequest<S>)
    ensures
        updated_order(o, empty_update()) == o,
        updated_order(updated_order(o, u), u) == updated_order(o, u),
{
}

/// Where an order stands in its lifecycle.
pub struct OrderLifecycle {
    pub signed: bool,
    pub issued: bool,
}

/// Signs an order: refused when it is already signed.
pub fn sign_order(o: OrderLifecycle) -> (r: Result<OrderLifecycle, ApiError>)
    ensures
        o.signed ==> (r matches Err(e) && is_bad_request(e, "Order already signed"@)),
        r is Ok <==> sign_spec(o) is Some,
        r matches Ok(s) ==> sign_spec(o) == Some(s),
{
    if o.signed {
        Err(bad_request("Order already signed"))
    } else {
        Ok(OrderLifecycle { signed: true, issued: o.issued })
    }
}

/// Issues an order: refused while it is unsigned.
pub fn issue_order(o: OrderLifecycle) -> (r: Result<OrderLifecycle, ApiError>)
    ensures
        !o.signed ==> (r matches Err(e) && is_bad_request(
            e,
            "Order must be signed before issuing"@,
        )),
        r is Ok <==> issue_spec(o) is Some,
        r matches Ok(s) ==> issue_spec(o) == Some(s),
{
    if !o.signed {
        Err(bad_request("Order must be signed before issuing"))
    } else {
        Ok(OrderLifecycle { signed: true, issued: true })
    }
}

/// The lifecycle as a state machine: a signature is put on once, and only
/// a signed order can be issued.
pub open spec fn sign_spec(o: OrderLifecycle) -> Option<OrderLifecycle> {
    if o.signed {
        None
    } else {
        Some(OrderLifecycle { signed: true, issued: o.issued })
    }
}

/// Issuing in the lifecycle.
pub open spec fn issue_spec(o: OrderLifecycle) -> Option<OrderLifecycle> {
    if o.signed {
        Some(OrderLifecycle { signed: true, issued: true })
    } else {
        None
    }
}

/// An unsigned order can be signed and then issued; an order cannot be
/// signed twice; an issued order is always signed.
pub proof fn lemma_order_lifecycle(o: OrderLifecycle)
    ensures
        !o.signed ==> (sign_spec(o) matches Some(s) && issue_spec(s) is Some),
        !o.signed ==> issue_spec(o) is None,
        sign_spec(o) matches Some(s) ==> sign_spec(s) is None,
        issue_spec(o) matches Some(s) ==> s.signed && s.issued,
{
}

/// The page of an order listing: `limit` (default 100) and `offset`
/// (default 0) when they parse as `usize`.
pub fn order_page(limit: Option<&str>, offset: Option<&str>) -> (r: (usize, usize))
    ensures
        r.0 == match limit {
            Some(s) => match parse_unsigned(s@, usize::MAX as nat) {
                Some(n) => n as usize,
                None => 100,
            },
            None => 100,
        },
        r.1 == match offset {
            Some(s) => match parse_unsigned(s@, usize::MAX as nat) {
                Some(n) => n as usize,
                None => 0,
            },
            None => 0,
        },
{
    let l = match limit {
        Some(s) => match parse_usize(s) {
            Some(n) => n,
            None => 100,
        },
        None => 100,
    };
    let o = match offset {
        Some(s) => match parse_usize(s) {
            Some(n) => n,
            None => 0,
        },
        None => 0,
    };
    (l, o)
}

/// A page of orders, reporting how many were found and the page asked for.
pub fn order_list<O>(orders: Vec<O>, limit: usize, offset: usize) -> (r: OrderListResponse<O>)
    ensures
        r.total == orders@.len(),
        r.orders == orders,
        r.limit == limit,
        r.offset == offset,
{
    OrderListResponse { total: orders.len(), orders, offset, limit }
}

/// The window of expiring orders, in days: the `days` value when it parses,
/// 30 otherwise.
pub fn expiring_days(days: Option<&str>) -> (n: i64)
    ensures
        match days {
            Some(s) => match parse_signed64(s@) {
                Some(v) => n == v,
                None => n == 30,
            },
            None => n == 30,
        },
{
    match days {
        Some(s) => match parse_i64(s) {
            Some(v) => v,
            None => 30,
        },
        None => 30,
    }
}

/// Whether a name is among the given variable names.
pub open spec fn has_name(given: Seq<Seq<char>>, name: Seq<char>) -> bool {
    exists|k: int| 0 <= k < given.len() && given[k] == name
}

/// Variable `i` of a template is required and not given.
pub open spec fn missing_at(vars: Seq<(Seq<char>, bool)>, given: Seq<Seq<char>>, i: int) -> bool {
    vars[i].1 && !has_name(given, vars[i].0)
}

fn given_contains(given: &Vec<Vec<char>>, name: &Vec<char>) -> (b: bool)
    ensures
        b == has_name(given@.map_values(|v: Vec<char>| v@), name@),
{
    let ghost g = given@.map_values(|v: Vec<char>| v@);
    let mut k: usize = 0;
    while k < given.len()
        invariant
            k <= given@.len(),
            g == given@.map_values(|v: Vec<char>| v@),
            forall|j: int| 0 <= j < k ==> g[j] != name@,
        decreases given.len() - k,
    {
        if chars_eq(&given[k], name) {
            assert(g[k as int] == name@);
            return true;
        }
        k = k + 1;
    }
    false
}

/// Checks that an order gives every required variable of its template: the
/// first required variable not given (in template order) is reported as
/// `Missing required variable: {name}`.
pub fn check_required_variables(vars: &Vec<TemplateVariable>, given: &Vec<String>) -> (r: Result<
    (),
    ApiError,
>)
    ensures
        ({
            let vs = vars@.map_values(|v: TemplateVariable| (v.name@, v.required));
            let gs = given@.map_values(|s: String| s@);
            &&& r is Ok <==> forall|i: int| 0 <= i < vs.len() ==> !missing_at(vs, gs, i)
            &&& r matches Err(e) ==> exists|i: int|
                0 <= i < vs.len() && missing_at(vs, gs, i) && (forall|j: int|
                    0 <= j < i ==> !missing_at(vs, gs, j)) && is_bad_request(
                    e,
                    "Missing required variable: "@ + vs[i].0,
                )
        }),
{
    let ghost vs = vars@.map_values(|v: TemplateVariable| (v.name@, v.required));
    let ghost gs = given@.map_values(|s: String| s@);
    let mut names: Vec<Vec<char>> = Vec::new();
    let mut k: usize = 0;
    while k < given.len()
        invariant
            k <= given@.len(),
            gs == given@.map_values(|s: String| s@),
            names@.len() == k,
            forall|j: int| 0 <= j < k ==> #[trigger] names@[j]@ == gs[j],
        decreases given.len() - k,
    {
        names.push(chars_of(given[k].as_str()));
        k = k + 1;
    }
    proof {
        assert(names@.map_values(|v: Vec<char>| v@) =~= gs);
    }
    let mut i: usize = 0;
    while i < vars.len()
        invariant
            i <= vars@.len(),
            vs == vars@.map_values(|v: TemplateVariable| (v.name@, v.required)),
            gs == given@.map_values(|s: String| s@),
            names@.map_values(|v: Vec<char>| v@) == gs,
            forall|j: int| 0 <= j < i ==> !missing_at(vs, gs, j),
        decreases vars.len() - i,
    {
        let var = &vars[i];
        if var.required {
            let n = chars_of(var.name.as_str());
            if !given_contains(&names, &n) {
                let mut m = String::from_str("Missing required variable: ");
                m.append(var.name.as_str());
                proof {
                    assert(missing_at(vs, gs, i as int));
                }
                return Err(ApiError::BadRequest(m));
            }
        }
        proof {
            assert(!missing_at(vs, gs, i as int));
        }
        i = i + 1;
    }
    Ok(())
}

/// The path values an order request needs.
pub enum OrderParam {
    Order,
    Template,
    Case,
    Judge,
}

/// The message for a missing path value.
pub open spec fn order_param_message(p: OrderParam) -> Seq<char> {
    match p {
        OrderParam::Order => "Order ID required"@,
        OrderParam::Template => "Template ID required"@,
        OrderParam::Case => "Case ID required"@,
        OrderParam::Judge => "Judge ID required"@,
    }
}

/// A path value that must be given.
pub fn order_param(p: OrderParam, v: Option<&str>) -> (r: Result<String, ApiError>)
    ensures
        v matches Some(s) ==> (r matches Ok(t) && t@ == s@),
        v is None ==> (r matches Err(e) && is_bad_request(e, order_param_message(p))),
{
    match p {
        OrderParam::Order => required_param(v, "Order ID required"),
        OrderParam::Template => required_param(v, "Template ID required"),
        OrderParam::Case => required_param(v, "Case ID required"),
        OrderParam::Judge => required_param(v, "Judge ID required"),
    }
}

/// The records an order request looks up.
pub enum OrderRecord {
    Order,
    Template,
}

/// An order or template that must exist.
pub fn order_record<T>(k: OrderRecord, found: Option<T>) -> (r: Result<T, ApiError>)
    ensures
        found matches Some(t) ==> r == Ok::<T, ApiError>(t),
        found is None ==> (r matches Err(e) && is_not_found(
            e,
            match k {
                OrderRecord::Order => "Order not found"@,
                OrderRecord::Template => "Template not found"@,
            },
        )),
{
    match k {
        OrderRecord::Order => found_or(found, "Order not found"),
        OrderRecord::Template => found_or(found, "Template not found"),
    }
}

/// An order or template addressed by an ID that may be empty, reported by
/// its ID when missing: `Order {id} not found`.
pub fn named_record<T>(k: OrderRecord, id: &str, found: Option<T>) -> (r: Result<T, ApiError>)
    ensures
        found matches Some(t) ==> r == Ok::<T, ApiError>(t),
        found is None ==> (r matches Err(e) && is_not_found(
            e,
            (match k {
                OrderRecord::Order => "Order "@,
                OrderRecord::Template => "Template "@,
            }) + id@ + " not found"@,
        )),
{
    match found {
        Some(t) => Ok(t),
        None => {
            let mut m = match k {
                OrderRecord::Order => String::from_str("Order "),
                OrderRecord::Template => String::from_str("Template "),
            };
            m.append(id);
            m.append(" not found");
            Err(ApiError::NotFound(m))
        },
    }
}

/// The ID of a template or order in a path that may leave it out: an
/// absent value counts as empty.
pub fn id_or_empty(v: Option<&str>) -> (s: String)
    ensures
        v matches Some(t) ==> s@ == t@,
        v is None ==> s@ == Seq::<char>::empty(),
{
    match v {
        Some(t) => String::from_str(t),
        None => String::new(),
    }
}

/// The error for template values whose body is not UTF-8.
pub fn invalid_utf8(detail: &str) -> (e: ApiError)
    ensures
        e matches ApiError::InvalidInput(m) && m@ == "Invalid UTF-8: "@ + detail@,
{
    let mut m = String::from_str("Invalid UTF-8: ");
    m.append(detail);
    ApiError::InvalidInput(m)
}

/// The error for template values that are not a JSON object of strings.
pub fn invalid_values_json(detail: &str) -> (e: ApiError)
    ensures
        e matches ApiError::InvalidInput(m) && m@ == "Invalid JSON: "@ + detail@,
{
    let mut m = String::from_str("Invalid JSON: ");
    m.append(detail);
    ApiError::InvalidInput(m)
}

} // verus!
