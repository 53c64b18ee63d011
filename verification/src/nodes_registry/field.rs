//! Wire `field` / `reason` vocabulary for nodes-registry field violations.
use vstd::prelude::*;

verus! {

/// Generic request-input validation failure; the only reason emitted.
pub const VALIDATION_ERROR: &'static str = "VALIDATION_ERROR";

/// The rejected request input.
pub const INPUT_FIELD: &'static str = "input";

} // verus!
