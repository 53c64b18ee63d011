//! Nodes-registry SDK vocabulary and its typed error projection.
pub mod domain;
pub mod error;
pub mod field;
pub mod gts;
