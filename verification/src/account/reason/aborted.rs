//! Wire `reason` values for `Aborted` (HTTP 409).
use vstd::prelude::*;

verus! {

/// Optimistic-lock mismatch on a metadata upsert.
pub const METADATA_VERSION_MISMATCH: &'static str = "METADATA_VERSION_MISMATCH";

/// Serializable-transaction retry budget exhausted.
pub const SERIALIZATION_CONFLICT: &'static str = "SERIALIZATION_CONFLICT";

} // verus!
