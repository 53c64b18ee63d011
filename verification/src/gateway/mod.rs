//! The API gateway's configuration rules.
pub mod cors;
pub mod layer;
