//! Errors of the cluster coordination contract.
use vstd::prelude::*;

use crate::cluster::cache::CacheEntry;

verus! {

/// A cluster coordination error.
#[derive(Debug, Clone)]
pub enum ClusterError {
    /// The configuration is invalid; `reason` says why.
    InvalidConfig { reason: String },
    /// A compare-and-swap conflicted; `current` is the live entry, if any.
    CasConflict { key: String, current: Option<CacheEntry> },
    /// The backend does not support the named feature.
    Unsupported { feature: String },
    /// The backend has shut down and refuses further writes and watches.
    Shutdown,
}

} // verus!
