//! Cluster coordination: the cache contract, the in-memory linearizable cache
//! store, the reference model the conformance replay checks against, and the
//! standalone plugin's configuration.
pub mod cache;
pub mod conformance;
pub mod error;
pub mod laws;
pub mod model;
pub mod standalone;
pub mod standalone_store;
pub mod store;
pub mod wiring;
