//! The simple Rule 16(b) order endpoint, generated from the names in the
//! request.
use vstd::prelude::*;

verus! {

/// Request for a Rule 16(b) scheduling order from names given directly.
pub struct GenerateRule16bRequest {
    pub case_number: String,
    pub defendant_names: String,
    pub judge_name: String,
}

} // verus!
