//! Wire `reason` values for the account-management `Aborted` and
//! `PermissionDenied` categories.
pub mod aborted;
pub mod permission;
