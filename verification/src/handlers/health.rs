//! The health check: how the state of storage decides the answer.
use vstd::prelude::*;

verus! {

/// The health report.
pub struct HealthStatus {
    pub status: &'static str,
    pub version: &'static str,
    pub storage: &'static str,
    pub timestamp: String,
}

/// What probing the default key-value store found.
pub enum StorageProbe {
    /// The store opened and listed its keys.
    Connected,
    /// The store opened but listing its keys failed.
    Error,
    /// The store could not be opened.
    Disconnected,
}

/// The word the report uses for the state of storage.
pub open spec fn storage_word(p: StorageProbe) -> Seq<char> {
    match p {
        StorageProbe::Connected => "connected"@,
        StorageProbe::Error => "error"@,
        StorageProbe::Disconnected => "disconnected"@,
    }
}

/// The health report and its status code: healthy with 200 when storage is
/// connected, degraded with 503 otherwise. `version` is the package version
/// and `timestamp` the time of the check.
pub fn health_report(probe: StorageProbe, version: &'static str, timestamp: String) -> (r: (
    u16,
    HealthStatus,
))
    ensures
        r.1.storage@ == storage_word(probe),
        r.1.version == version,
        r.1.timestamp == timestamp,
        probe is Connected ==> r.0 == 200 && r.1.status@ == "healthy"@,
        !(probe is Connected) ==> r.0 == 503 && r.1.status@ == "degraded"@,
{
    let storage: &'static str = match probe {
        StorageProbe::Connected => "connected",
        StorageProbe::Error => "error",
        StorageProbe::Disconnected => "disconnected",
    };
    let connected = match probe {
        StorageProbe::Connected => true,
        _ => false,
    };
    let status: &'static str = if connected {
        "healthy"
    } else {
        "degraded"
    };
    let code: u16 = if connected {
        200
    } else {
        503
    };
    (code, HealthStatus { status, version, storage, timestamp })
}

} // verus!
