//! The canonical error envelope (AIP-193 categories) as plain values: the
//! categories, their resource scope, and the structured payloads that the
//! gears' typed error projections read.
use vstd::prelude::*;

verus! {

/// The envelope detail of an `InvalidArgument` built from field violations.
pub const INVALID_ARGUMENT_DETAIL: &'static str = "Invalid argument";

/// The envelope detail of a `FailedPrecondition` built from precondition
/// violations.
pub const FAILED_PRECONDITION_DETAIL: &'static str = "Precondition failed";

/// The envelope detail of a `PermissionDenied`.
pub const PERMISSION_DENIED_DETAIL: &'static str = "You do not have permission to perform this operation";

/// One `field_violations[]` entry of an `InvalidArgument`.
#[derive(Debug, Clone)]
pub struct FieldViolation {
    pub field: String,
    pub description: String,
    pub reason: String,
}

/// The shapes an `InvalidArgument` context comes in.
#[derive(Debug, Clone)]
pub enum InvalidArgument {
    FieldViolations { field_violations: Vec<FieldViolation> },
    Format { format: String },
    Constraint { constraint: String },
}

/// One `violations[]` entry of a `FailedPrecondition`.
#[derive(Debug, Clone)]
pub struct PreconditionViolation {
    pub type_: String,
    pub subject: String,
    pub description: String,
}

/// One `violations[]` entry of a `ResourceExhausted`.
#[derive(Debug, Clone)]
pub struct QuotaViolation {
    pub subject: String,
    pub description: String,
}

/// The canonical error envelope: one variant per category, each carrying the
/// human-readable `detail` and the context the category defines.
#[derive(Debug, Clone)]
pub enum CanonicalError {
    Cancelled { detail: String },
    Unknown { detail: String },
    InvalidArgument { ctx: InvalidArgument, resource_type: Option<String>, detail: String },
    DeadlineExceeded { detail: String },
    NotFound { resource_type: Option<String>, resource_name: Option<String>, detail: String },
    AlreadyExists { resource_type: Option<String>, resource_name: Option<String>, detail: String },
    PermissionDenied { reason: String, resource_type: Option<String>, detail: String },
    ResourceExhausted { violations: Vec<QuotaViolation>, resource_type: Option<String>, detail: String },
    FailedPrecondition {
        violations: Vec<PreconditionViolation>,
        resource_type: Option<String>,
        resource_name: Option<String>,
        detail: String,
    },
    Aborted { reason: String, resource_type: Option<String>, resource_name: Option<String>, detail: String },
    OutOfRange { detail: String },
    Unimplemented { resource_type: Option<String>, detail: String },
    Internal { detail: String },
    ServiceUnavailable { retry_after_seconds: Option<u64>, detail: String },
    DataLoss { detail: String },
    Unauthenticated { reason: String, detail: String },
}

/// The human-readable detail of a canonical error.
pub open spec fn detail_of(e: CanonicalError) -> String {
    match e {
        CanonicalError::Cancelled { detail } => detail,
        CanonicalError::Unknown { detail } => detail,
        CanonicalError::InvalidArgument { detail, .. } => detail,
        CanonicalError::DeadlineExceeded { detail } => detail,
        CanonicalError::NotFound { detail, .. } => detail,
        CanonicalError::AlreadyExists { detail, .. } => detail,
        CanonicalError::PermissionDenied { detail, .. } => detail,
        CanonicalError::ResourceExhausted { detail, .. } => detail,
        CanonicalError::FailedPrecondition { detail, .. } => detail,
        CanonicalError::Aborted { detail, .. } => detail,
        CanonicalError::OutOfRange { detail } => detail,
        CanonicalError::Unimplemented { detail, .. } => detail,
        CanonicalError::Internal { detail } => detail,
        CanonicalError::ServiceUnavailable { detail, .. } => detail,
        CanonicalError::DataLoss { detail } => detail,
        CanonicalError::Unauthenticated { detail, .. } => detail,
    }
}

impl CanonicalError {
    /// The human-readable detail.
    pub fn detail(&self) -> (d: &String)
        ensures
            *d == detail_of(*self),
    {
        match self {
            CanonicalError::Cancelled { detail } => detail,
            CanonicalError::Unknown { detail } => detail,
            CanonicalError::InvalidArgument { detail, .. } => detail,
            CanonicalError::DeadlineExceeded { detail } => detail,
            CanonicalError::NotFound { detail, .. } => detail,
            CanonicalError::AlreadyExists { detail, .. } => detail,
            CanonicalError::PermissionDenied { detail, .. } => detail,
            CanonicalError::ResourceExhausted { detail, .. } => detail,
            CanonicalError::FailedPrecondition { detail, .. } => detail,
            CanonicalError::Aborted { detail, .. } => detail,
            CanonicalError::OutOfRange { detail } => detail,
            CanonicalError::Unimplemented { detail, .. } => detail,
            CanonicalError::Internal { detail } => detail,
            CanonicalError::ServiceUnavailable { detail, .. } => detail,
            CanonicalError::DataLoss { detail } => detail,
            CanonicalError::Unauthenticated { detail, .. } => detail,
        }
    }
}

/// The text of an optional string, empty when absent.
pub open spec fn text_or_empty(s: Option<String>) -> Seq<char> {
    match s {
        Some(t) => t@,
        None => Seq::empty(),
    }
}

/// The text of an optional string, or an empty string when absent.
pub fn unwrap_text(s: Option<String>) -> (t: String)
    ensures
        t@ == text_or_empty(s),
{
    match s {
        Some(t) => t,
        None => String::new(),
    }
}

} // verus!
