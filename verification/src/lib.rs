//! Verified core of a set of platform gears: the wire vocabularies, domain
//! errors, canonical error ladder and typed error projections of the
//! account-management, types-registry and nodes-registry services; the static
//! authentication resolver; the API gateway's CORS rules; resource-group
//! type-code and metadata validation; and the cluster coordination layer: the
//! cache contract, its in-memory store, the standalone plugin's state, the
//! configuration-driven wiring decisions, and the reference-model replay
//! oracle.
use vstd::prelude::*;

pub mod account;
pub mod authn;
pub mod canonical;
pub mod cluster;
pub mod gateway;
pub mod nodes_registry;
pub mod resource_group;
pub mod text;
pub mod types_registry;

verus! {

} // verus!
