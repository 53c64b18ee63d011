//! The static authentication resolver: configured bearer tokens and
//! service-to-service client credentials mapped to fixed identities.
pub mod service;
