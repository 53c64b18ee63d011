//! The nodes registry's internal domain error, and the node-information
//! failures it is built from.
use vstd::prelude::*;

use crate::text::{joined, owned};
use crate::types_registry::domain::{uuid_hyphenated, uuid_text};

verus! {

/// A failure reported while collecting node information.
#[derive(Debug, Clone)]
pub enum NodeInfoError {
    SysInfoCollectionFailed(String),
    SysCapCollectionFailed(String),
    HardwareUuidFailed(String),
    Internal(String),
}

/// A nodes-registry domain error.
#[derive(Debug, Clone)]
pub enum DomainError {
    /// No node has this id (a 128-bit UUID value).
    NodeNotFound(u128),
    SysInfoCollectionFailed(String),
    SysCapCollectionFailed(String),
    InvalidInput(String),
    Internal(String),
}

/// The domain error a node-information failure becomes.
pub open spec fn from_node_info(e: NodeInfoError, d: DomainError) -> bool {
    match e {
        NodeInfoError::SysInfoCollectionFailed(m) => d matches DomainError::SysInfoCollectionFailed(n) && n@ == m@,
        NodeInfoError::SysCapCollectionFailed(m) => d matches DomainError::SysCapCollectionFailed(n) && n@ == m@,
        NodeInfoError::HardwareUuidFailed(m) => d matches DomainError::Internal(n) && n@ == "Hardware UUID failed: "@
            + m@,
        NodeInfoError::Internal(m) => d matches DomainError::Internal(n) && n@ == m@,
    }
}

/// The rendered message of a domain error.
pub open spec fn domain_message(d: DomainError) -> Seq<char> {
    match d {
        DomainError::NodeNotFound(id) => "Node not found: "@ + uuid_text(id),
        DomainError::SysInfoCollectionFailed(m) => "Failed to collect system information: "@ + m@,
        DomainError::SysCapCollectionFailed(m) => "Failed to collect system capabilities: "@ + m@,
        DomainError::InvalidInput(m) => "Invalid input: "@ + m@,
        DomainError::Internal(m) => "Internal error: "@ + m@,
    }
}

impl DomainError {
    /// Classifies a node-information failure: collection failures keep their
    /// kind and message; a hardware-UUID failure and an internal failure
    /// become internal errors.
    pub fn from(e: NodeInfoError) -> (d: Self)
        ensures
            from_node_info(e, d),
    {
        match e {
            NodeInfoError::SysInfoCollectionFailed(m) => DomainError::SysInfoCollectionFailed(m),
            NodeInfoError::SysCapCollectionFailed(m) => DomainError::SysCapCollectionFailed(m),
            NodeInfoError::HardwareUuidFailed(m) => DomainError::Internal(joined("Hardware UUID failed: ", m.as_str())),
            NodeInfoError::Internal(m) => DomainError::Internal(m),
        }
    }

    /// An internal error carrying the text of an unclassified failure.
    pub fn from_error_text(text: &str) -> (d: Self)
        ensures
            d matches DomainError::Internal(m) && m@ == text@,
    {
        DomainError::Internal(owned(text))
    }

    /// The error's message.
    pub fn to_text(&self) -> (t: String)
        ensures
            t@ == domain_message(*self),
    {
        match self {
            DomainError::NodeNotFound(id) => joined("Node not found: ", uuid_hyphenated(*id).as_str()),
            DomainError::SysInfoCollectionFailed(m) => joined("Failed to collect system information: ", m.as_str()),
            DomainError::SysCapCollectionFailed(m) => joined("Failed to collect system capabilities: ", m.as_str()),
            DomainError::InvalidInput(m) => joined("Invalid input: ", m.as_str()),
            DomainError::Internal(m) => joined("Internal error: ", m.as_str()),
        }
    }
}

} // verus!
