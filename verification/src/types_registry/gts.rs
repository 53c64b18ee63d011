//! GTS resource-type vocabulary for the types-registry canonical surface.
use vstd::prelude::*;

verus! {

/// The canonical GTS resource type for types-registry entities.
pub const TYPE_RESOURCE_TYPE: &'static str = "gts.cf.types_registry.registry.type.v1~";

} // verus!
