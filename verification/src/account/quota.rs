//! Wire `subject` for the account-management `ResourceExhausted` category.
use vstd::prelude::*;

verus! {

/// A hierarchy-integrity check is already in progress.
pub const INTEGRITY_CHECK: &'static str = "integrity_check";

} // verus!
