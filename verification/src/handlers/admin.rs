//! Tenant administration: which tenant a request addresses and the stores
//! kept for it.
use vstd::prelude::*;

verus! {

/// The tenant addressed: the `tenant_id` query value, or `default`.
pub fn tenant_or_default(tenant_id: Option<String>) -> (s: String)
    ensures
        tenant_id matches Some(t) ==> s == t,
        tenant_id is None ==> s@ == "default"@,
{
    match tenant_id {
        Some(t) => t,
        None => String::from_str("default"),
    }
}

/// The stores kept for each tenant.
pub enum TenantStore {
    Cases,
    Deadlines,
    Docket,
    Judges,
}

/// The prefix of a store's name.
pub open spec fn store_prefix(s: TenantStore) -> Seq<char> {
    match s {
        TenantStore::Cases => "cases_"@,
        TenantStore::Deadlines => "deadlines_"@,
        TenantStore::Docket => "docket_"@,
        TenantStore::Judges => "judges_"@,
    }
}

/// The name of a tenant's store: `cases_{tenant}` and so on.
pub fn store_name(store: TenantStore, tenant: &str) -> (s: String)
    ensures
        s@ == store_prefix(store) + tenant@,
{
    let mut s = match store {
        TenantStore::Cases => String::from_str("cases_"),
        TenantStore::Deadlines => String::from_str("deadlines_"),
        TenantStore::Docket => String::from_str("docket_"),
        TenantStore::Judges => String::from_str("judges_"),
    };
    s.append(tenant);
    s
}

/// The statistics of a tenant.
pub struct TenantStats {
    pub cases: usize,
    pub pending_deadlines: usize,
    pub docket_entries: usize,
    pub judges: usize,
}

/// A count read from storage; a failed read counts as zero.
pub open spec fn count_or_zero(r: Result<usize, String>) -> usize {
    match r {
        Ok(n) => n,
        Err(_) => 0,
    }
}

/// The statistics of a tenant from the counts read: cases, pending
/// deadlines and judges, each zero where the read failed. Docket entries
/// are not counted and are reported as zero.
pub fn tenant_stats(
    cases: Result<usize, String>,
    pending_deadlines: Result<usize, String>,
    judges: Result<usize, String>,
) -> (s: TenantStats)
    ensures
        s.cases == count_or_zero(cases),
        s.pending_deadlines == count_or_zero(pending_deadlines),
        s.docket_entries == 0,
        s.judges == count_or_zero(judges),
{
    let c = match cases {
        Ok(n) => n,
        Err(_) => 0,
    };
    let d = match pending_deadlines {
        Ok(n) => n,
        Err(_) => 0,
    };
    let j = match judges {
        Ok(n) => n,
        Err(_) => 0,
    };
    TenantStats { cases: c, pending_deadlines: d, docket_entries: 0, judges: j }
}

/// The stores initialized for a new tenant, by their short names.
pub fn initialized_stores() -> (v: Vec<&'static str>)
    ensures
        v@.len() == 4,
        v@[0]@ == "cases"@,
        v@[1]@ == "deadlines"@,
        v@[2]@ == "docket"@,
        v@[3]@ == "judges"@,
{
    let mut v: Vec<&'static str> = Vec::new();
    v.push("cases");
    v.push("deadlines");
    v.push("docket");
    v.push("judges");
    v
}

} // verus!
