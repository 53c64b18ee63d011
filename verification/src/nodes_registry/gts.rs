//! GTS resource-type vocabulary for the nodes-registry canonical surface.
use vstd::prelude::*;

verus! {

/// The nodes-registry node resource type.
pub const NODE_RESOURCE_TYPE: &'static str = "gts.cf.nodes_registry.registry.node.v1~";

} // verus!
