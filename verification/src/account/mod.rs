//! Account-management SDK vocabulary and its typed error projection.
pub mod domain;
pub mod error;
pub mod field;
pub mod gts;
pub mod ladder;
pub mod precondition;
pub mod quota;
pub mod reason;
