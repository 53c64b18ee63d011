//! Resource-group domain validation.
pub mod validation;
