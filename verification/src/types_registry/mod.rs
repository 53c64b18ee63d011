//! Types-registry SDK vocabulary, its typed error projection, and the
//! registry's domain errors.
pub mod domain;
pub mod error;
pub mod field;
pub mod gts;
pub mod precondition;
pub mod testing;
