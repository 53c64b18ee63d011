//! GTS resource-type vocabulary for the account-management canonical surface.
use vstd::prelude::*;

verus! {

/// The tenant resource type.
pub const TENANT_RESOURCE_TYPE: &'static str = "gts.cf.core.am.tenant.v1~";

/// The user resource type.
pub const USER_RESOURCE_TYPE: &'static str = "gts.cf.core.am.user.v1~";

/// The tenant-metadata resource type.
pub const TENANT_METADATA_RESOURCE_TYPE: &'static str = "gts.cf.core.am.tenant_metadata.v1~";

/// The conversion-request resource type.
pub const CONVERSION_REQUEST_RESOURCE_TYPE: &'static str = "gts.cf.core.am.conversion_request.v1~";

} // verus!
