//! Wire `type` vocabulary for types-registry precondition violations.
use vstd::prelude::*;

verus! {

/// The `violations[].type` token for a parent-type-schema-not-registered
/// precondition failure.
pub const PARENT_NOT_REGISTERED: &'static str = "PARENT_NOT_REGISTERED";

} // verus!
