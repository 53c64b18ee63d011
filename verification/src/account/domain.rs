//! Account management's internal domain error: one variant per failure the
//! service distinguishes, each carrying the plain values the canonical
//! boundary reads.
use vstd::prelude::*;

verus! {

/// A failure inside account management, before it crosses the canonical
/// error boundary.
#[derive(Debug, Clone)]
pub enum DomainError {
    /// The requested tenant type is not a valid tenant type.
    InvalidTenantType { detail: String },
    /// The request failed validation.
    Validation { detail: String },
    /// A tenant-metadata payload failed validation.
    MetadataValidation { detail: String },
    /// The root tenant cannot be deleted.
    RootTenantCannotDelete,
    /// The root tenant cannot be converted.
    RootTenantCannotConvert,
    /// The root tenant's status cannot be changed.
    RootTenantCannotChangeStatus,
    /// The identity provider rejected the provisioning input; `field` is the
    /// dotted path it localised the violation to, when it could.
    IdpInvalidInput { detail: String, field: Option<String> },
    /// The identity provider rejected a password under its policy.
    IdpPasswordPolicy { detail: String },
    /// A tenant was not found.
    NotFound { detail: String, resource: String },
    /// A user was not found.
    UserNotFound { detail: String, resource: String },
    /// A conversion request was not found.
    ConversionRequestNotFound { detail: String, resource: String },
    /// A tenant-metadata entry (or its schema) was not found; `entry` is the
    /// schema id the caller supplied.
    MetadataEntryNotFound { detail: String, entry: String },
    /// A metadata write expected another stored version.
    MetadataVersionMismatch { entry: String, expected: u64, current: u64 },
    /// The operation was aborted by a serialization conflict.
    Aborted { reason: String, detail: String },
    /// The tenant already exists.
    AlreadyExists { detail: String },
    /// The identity provider reported a duplicate user; `field_phrase` is the
    /// duplicated field in words and `field_token` its stable wire token.
    UserAlreadyExists { field_phrase: String, field_token: String },
    /// A conversion request is already pending.
    PendingExists { request_id: String },
    /// The tenant type is not allowed here.
    TypeNotAllowed { detail: String },
    /// The tenant hierarchy would grow too deep.
    TenantDepthExceeded { detail: String },
    /// The tenant still has child tenants.
    TenantHasChildren,
    /// The tenant still owns resources.
    TenantHasResources,
    /// The caller may not move a conversion request into the attempted status.
    InvalidActorForTransition { attempted_status: String, caller_side: String },
    /// The conversion request was already resolved.
    AlreadyResolved,
    /// The request conflicts with the current state.
    Conflict { detail: String },
    /// The feature is disabled by configuration.
    FeatureDisabled { detail: String },
    /// The caller may not act across tenants.
    CrossTenantDenied,
    /// Another integrity check is in progress.
    IntegrityCheckInProgress,
    /// An integrity repair lost its lease to a peer.
    IntegrityCheckLeaseLost,
    /// The identity provider is unavailable; `detail` may hold provider text.
    IdpUnavailable { detail: String },
    /// A dependency is unavailable; `retry_after_secs` is the suggested wait
    /// in whole seconds, when there is one.
    ServiceUnavailable { detail: String, retry_after_secs: Option<u64> },
    /// The identity provider does not support the operation; `detail` may
    /// hold provider text.
    UnsupportedOperation { detail: String },
    /// An internal error with its diagnostic.
    Internal { diagnostic: String },
}

} // verus!
