//! Typed projection of the canonical error envelope for account-management
//! consumers: a flat view over the categories account management emits,
//! plus a catch-all that preserves the full canonical error.
use vstd::prelude::*;

use crate::account::field::{is_modeled_reason, reason_wire, ValidationReason};
use crate::account::precondition::{is_modeled_subject, subject_wire, Subject};
use crate::canonical::{
    detail_of, text_or_empty, unwrap_text, CanonicalError, FieldViolation, InvalidArgument,
};

verus! {

/// Typed projection of the canonical error for account-management consumers.
#[derive(Debug, Clone)]
pub enum AccountManagementError {
    NotFound { resource_type: String, name: String, detail: String },
    AlreadyExists { resource_type: String, name: String, detail: String },
    InvalidArgument { field: String, reason: ValidationReason, detail: String },
    FailedPrecondition { subject: Subject, type_: String, detail: String },
    Aborted { reason: String, detail: String },
    PermissionDenied { reason: String, detail: String },
    Unimplemented { detail: String },
    Unavailable { retry_after_seconds: Option<u64>, detail: String },
    ResourceExhausted { subject: String, detail: String },
    Internal { detail: String },
    /// A category account management does not emit, preserved whole.
    Other { canonical: CanonicalError },
}

/// Whether `r` is the typed reason a wire `reason` string projects to.
pub open spec fn reason_projects(wire: Seq<char>, r: ValidationReason) -> bool {
    reason_wire(r) == wire && (r is Unknown <==> !is_modeled_reason(wire))
}

/// Whether `s` is the typed subject a wire `subject` string projects to.
pub open spec fn subject_projects(wire: Seq<char>, s: Subject) -> bool {
    subject_wire(s) == wire && (s is Unknown <==> !is_modeled_subject(wire))
}

/// The first field violation of an `InvalidArgument` context, when it has
/// the field-violations shape and at least one entry.
pub open spec fn first_field_violation(ctx: InvalidArgument) -> Option<FieldViolation> {
    match ctx {
        InvalidArgument::FieldViolations { field_violations } => if field_violations@.len() > 0 {
            Some(field_violations@[0])
        } else {
            None
        },
        _ => None,
    }
}

/// Whether `r` is the projection of the canonical `InvalidArgument` context
/// `ctx` with canonical detail `detail`.
pub open spec fn invalid_argument_projects(ctx: InvalidArgument, detail: String, r: AccountManagementError) -> bool {
    match first_field_violation(ctx) {
        Some(v) => r matches AccountManagementError::InvalidArgument { field, reason, detail: d } && field@
            == v.field@ && reason_projects(v.reason@, reason) && d@ == v.description@,
        None => r matches AccountManagementError::InvalidArgument { field, reason, detail: d } && field@
            == Seq::<char>::empty() && reason_projects(Seq::empty(), reason) && d@ == detail@,
    }
}

/// Whether `r` is the projection of the canonical error `e`.
pub open spec fn projects(e: CanonicalError, r: AccountManagementError) -> bool {
    match e {
        CanonicalError::NotFound { resource_type, resource_name, detail } => r matches AccountManagementError::NotFound {
            resource_type: rt,
            name,
            detail: d,
        } && rt@ == text_or_empty(resource_type) && name@ == text_or_empty(resource_name) && d@ == detail@,
        CanonicalError::AlreadyExists { resource_type, resource_name, detail } => r matches AccountManagementError::AlreadyExists {
            resource_type: rt,
            name,
            detail: d,
        } && rt@ == text_or_empty(resource_type) && name@ == text_or_empty(resource_name) && d@ == detail@,
        CanonicalError::InvalidArgument { ctx, detail, .. } => invalid_argument_projects(ctx, detail, r),
        CanonicalError::FailedPrecondition { violations, detail, .. } => if violations@.len() > 0 {
            r matches AccountManagementError::FailedPrecondition { subject, type_, detail: d } && subject_projects(
                violations@[0].subject@,
                subject,
            ) && type_@ == violations@[0].type_@ && d@ == violations@[0].description@
        } else {
            r matches AccountManagementError::FailedPrecondition { subject, type_, detail: d } && subject_projects(
                Seq::empty(),
                subject,
            ) && type_@ == Seq::<char>::empty() && d@ == detail@
        },
        CanonicalError::Aborted { reason, detail, .. } => r matches AccountManagementError::Aborted {
            reason: rs,
            detail: d,
        } && rs@ == reason@ && d@ == detail@,
        CanonicalError::PermissionDenied { reason, detail, .. } => r matches AccountManagementError::PermissionDenied {
            reason: rs,
            detail: d,
        } && rs@ == reason@ && d@ == detail@,
        CanonicalError::Unimplemented { detail, .. } => r matches AccountManagementError::Unimplemented {
            detail: d,
        } && d@ == detail@,
        CanonicalError::ServiceUnavailable { retry_after_seconds, detail } => r matches AccountManagementError::Unavailable {
            retry_after_seconds: ra,
            detail: d,
        } && ra == retry_after_seconds && d@ == detail@,
        CanonicalError::ResourceExhausted { violations, detail, .. } => r matches AccountManagementError::ResourceExhausted {
            subject,
            detail: d,
        } && subject@ == (if violations@.len() > 0 {
            violations@[0].subject@
        } else {
            Seq::empty()
        }) && d@ == detail@,
        CanonicalError::Internal { detail } => r matches AccountManagementError::Internal { detail: d } && d@
            == detail@,
        _ => r == AccountManagementError::Other { canonical: e },
    }
}

/// Projects an `InvalidArgument` context: the first field violation's field,
/// typed reason and description; otherwise an empty field, an empty unknown
/// reason and the canonical detail.
fn project_invalid_argument(ctx: InvalidArgument, detail: String) -> (r: AccountManagementError)
    ensures
        invalid_argument_projects(ctx, detail, r),
{
    let first = match ctx {
        InvalidArgument::FieldViolations { field_violations } => {
            if field_violations.len() > 0 {
                let mut vs = field_violations;
                Some(vs.swap_remove(0))
            } else {
                None
            }
        },
        InvalidArgument::Format { .. } => None,
        InvalidArgument::Constraint { .. } => None,
    };
    match first {
        Some(v) => {
            let reason = ValidationReason::from_wire(v.reason.as_str());
            AccountManagementError::InvalidArgument { field: v.field, reason, detail: v.description }
        },
        None => {
            let empty = String::new();
            let reason = ValidationReason::from_wire(empty.as_str());
            AccountManagementError::InvalidArgument { field: String::new(), reason, detail }
        },
    }
}

impl AccountManagementError {
    /// Projects a canonical error into the account-management view.
    pub fn from(err: CanonicalError) -> (r: Self)
        ensures
            projects(err, r),
    {
        let detail = err.detail().clone();
        match err {
            CanonicalError::NotFound { resource_type, resource_name, .. } => AccountManagementError::NotFound {
                resource_type: unwrap_text(resource_type),
                name: unwrap_text(resource_name),
                detail,
            },
            CanonicalError::AlreadyExists { resource_type, resource_name, .. } => AccountManagementError::AlreadyExists {
                resource_type: unwrap_text(resource_type),
                name: unwrap_text(resource_name),
                detail,
            },
            CanonicalError::InvalidArgument { ctx, .. } => project_invalid_argument(ctx, detail),
            CanonicalError::FailedPrecondition { violations, .. } => {
                if violations.len() > 0 {
                    let mut vs = violations;
                    let v = vs.swap_remove(0);
                    AccountManagementError::FailedPrecondition {
                        subject: Subject::from_wire(v.subject.as_str()),
                        type_: v.type_,
                        detail: v.description,
                    }
                } else {
                    let empty = String::new();
                    AccountManagementError::FailedPrecondition {
                        subject: Subject::from_wire(empty.as_str()),
                        type_: String::new(),
                        detail,
                    }
                }
            },
            CanonicalError::Aborted { reason, .. } => AccountManagementError::Aborted { reason, detail },
            CanonicalError::PermissionDenied { reason, .. } => AccountManagementError::PermissionDenied { reason, detail },
            CanonicalError::Unimplemented { .. } => AccountManagementError::Unimplemented { detail },
            CanonicalError::ServiceUnavailable { retry_after_seconds, .. } => AccountManagementError::Unavailable {
                retry_after_seconds,
                detail,
            },
            CanonicalError::ResourceExhausted { violations, .. } => {
                let subject = if violations.len() > 0 {
                    let mut vs = violations;
                    vs.swap_remove(0).subject
                } else {
                    String::new()
                };
                AccountManagementError::ResourceExhausted { subject, detail }
            },
            CanonicalError::Internal { .. } => AccountManagementError::Internal { detail },
            other => AccountManagementError::Other { canonical: other },
        }
    }
}

} // verus!
