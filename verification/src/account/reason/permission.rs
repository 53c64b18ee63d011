//! Wire `reason` values for `PermissionDenied` (HTTP 403).
use vstd::prelude::*;

verus! {

/// Cross-tenant access denied.
pub const CROSS_TENANT_DENIED: &'static str = "CROSS_TENANT_DENIED";

} // verus!
