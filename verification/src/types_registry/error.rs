//! Typed projection of the canonical error envelope for types-registry
//! consumers.
use vstd::prelude::*;

use crate::canonical::{
    detail_of, text_or_empty, unwrap_text, CanonicalError, FieldViolation, InvalidArgument,
    PreconditionViolation,
};
use crate::text::same_text;
use crate::types_registry::field::{is_modeled_reason, reason_wire, ValidationReason, INVALID_GTS_ID};
use crate::types_registry::precondition::PARENT_NOT_REGISTERED;

verus! {

/// A single field violation projected from a canonical `InvalidArgument`.
#[derive(Debug, Clone, PartialEq, Eq)]
pub struct FieldIssue {
    pub field: String,
    pub reason: ValidationReason,
    pub description: String,
}

/// Typed projection of the canonical error for types-registry consumers.
#[derive(Debug, Clone)]
pub enum TypesRegistryError {
    Validation { issues: Vec<FieldIssue> },
    NotFound { resource_type: String, name: String, detail: String },
    AlreadyExists { resource_type: String, name: String, detail: String },
    /// Batch register: the required parent type-schema is not registered.
    ParentNotRegistered { parent_type_id: String, dependent_id: String, detail: String },
    Unavailable { detail: String },
    Internal { detail: String },
    /// A category types-registry does not model, preserved whole.
    Other { canonical: CanonicalError },
}

/// Whether `issue` is the projection of the field violation `v`.
pub open spec fn issue_projects(v: FieldViolation, issue: FieldIssue) -> bool {
    &&& issue.field@ == v.field@
    &&& reason_wire(issue.reason) == v.reason@
    &&& (issue.reason is Unknown <==> !is_modeled_reason(v.reason@))
    &&& !(issue.reason is Format)
    &&& !(issue.reason is Constraint)
    &&& issue.description@ == v.description@
}

/// Whether `issues` is the projection of the `InvalidArgument` context `ctx`.
pub open spec fn issues_project(ctx: InvalidArgument, issues: Seq<FieldIssue>) -> bool {
    match ctx {
        InvalidArgument::FieldViolations { field_violations } => issues.len() == field_violations@.len()
            && forall|i: int| 0 <= i < issues.len() ==> issue_projects(field_violations@[i], #[trigger] issues[i]),
        InvalidArgument::Format { format } => issues.len() == 1 && issues[0].field@ == Seq::<char>::empty()
            && issues[0].reason == ValidationReason::Format && issues[0].description@ == format@,
        InvalidArgument::Constraint { constraint } => issues.len() == 1 && issues[0].field@ == Seq::<
            char,
        >::empty() && issues[0].reason == ValidationReason::Constraint && issues[0].description@
            == constraint@,
    }
}

/// Whether a precondition violation carries the parent-not-registered type.
pub open spec fn is_parent_violation(v: PreconditionViolation) -> bool {
    v.type_@ == PARENT_NOT_REGISTERED@
}

/// Whether `vs[j]` is the first parent-not-registered violation in `vs`.
pub open spec fn first_parent_violation_at(vs: Seq<PreconditionViolation>, j: int) -> bool {
    0 <= j < vs.len() && is_parent_violation(vs[j]) && forall|i: int| 0 <= i < j ==> !is_parent_violation(#[trigger] vs[i])
}

/// Whether `r` is the projection of the canonical error `e`.
pub open spec fn projects(e: CanonicalError, r: TypesRegistryError) -> bool {
    match e {
        CanonicalError::InvalidArgument { ctx, .. } => r matches TypesRegistryError::Validation { issues } && issues_project(
            ctx,
            issues@,
        ),
        CanonicalError::NotFound { resource_type: Some(rt), resource_name, detail } => r matches TypesRegistryError::NotFound {
            resource_type,
            name,
            detail: d,
        } && resource_type@ == rt@ && name@ == text_or_empty(resource_name) && d@ == detail@,
        CanonicalError::AlreadyExists { resource_type: Some(rt), resource_name, detail } => r matches TypesRegistryError::AlreadyExists {
            resource_type,
            name,
            detail: d,
        } && resource_type@ == rt@ && name@ == text_or_empty(resource_name) && d@ == detail@,
        CanonicalError::FailedPrecondition { violations, resource_name, .. } => if exists|j: int|
            0 <= j < violations@.len() && #[trigger] is_parent_violation(violations@[j]) {
            r matches TypesRegistryError::ParentNotRegistered { parent_type_id, dependent_id, detail } && dependent_id@
                == text_or_empty(resource_name) && exists|j: int|
                first_parent_violation_at(violations@, j) && parent_type_id@ == violations@[j].subject@
                    && detail@ == violations@[j].description@
        } else {
            r == TypesRegistryError::Other { canonical: e }
        },
        CanonicalError::ServiceUnavailable { detail, .. } => r matches TypesRegistryError::Unavailable {
            detail: d,
        } && d@ == detail@,
        CanonicalError::Internal { detail } => r matches TypesRegistryError::Internal { detail: d } && d@
            == detail@,
        _ => r == TypesRegistryError::Other { canonical: e },
    }
}

/// Projects a canonical `InvalidArgument` context into typed field issues:
/// one issue per field violation, or a single field-less issue tagged with
/// the `Format` / `Constraint` sentinel.
fn project_field_issues(ctx: InvalidArgument) -> (issues: Vec<FieldIssue>)
    ensures
        issues_project(ctx, issues@),
{
    match ctx {
        InvalidArgument::FieldViolations { field_violations } => {
            let mut issues: Vec<FieldIssue> = Vec::new();
            let ghost fv = field_violations@;
            for v in it: field_violations
                invariant
                    it.seq() == fv,
                    issues@.len() == it.index(),
                    forall|i: int| 0 <= i < issues@.len() ==> issue_projects(fv[i], #[trigger] issues@[i]),
            {
                let reason = ValidationReason::from_wire(v.reason.as_str());
                issues.push(FieldIssue { field: v.field, reason, description: v.description });
            }
            issues
        },
        InvalidArgument::Format { format } => {
            let mut issues: Vec<FieldIssue> = Vec::new();
            issues.push(FieldIssue { field: String::new(), reason: ValidationReason::Format, description: format });
            issues
        },
        InvalidArgument::Constraint { constraint } => {
            let mut issues: Vec<FieldIssue> = Vec::new();
            issues.push(
                FieldIssue { field: String::new(), reason: ValidationReason::Constraint, description: constraint },
            );
            issues
        },
    }
}

/// The index of the first parent-not-registered violation, if any.
fn find_parent_violation(vs: &Vec<PreconditionViolation>) -> (r: Option<usize>)
    ensures
        r matches Some(j) ==> first_parent_violation_at(vs@, j as int),
        r is None ==> forall|i: int| 0 <= i < vs@.len() ==> !is_parent_violation(#[trigger] vs@[i]),
{
    let mut i: usize = 0;
    while i < vs.len()
        invariant
            i <= vs@.len(),
            forall|j: int| 0 <= j < i ==> !is_parent_violation(#[trigger] vs@[j]),
        decreases vs@.len() - i,
    {
        if same_text(vs[i].type_.as_str(), PARENT_NOT_REGISTERED) {
            return Some(i);
        }
        i = i + 1;
    }
    None
}

impl TypesRegistryError {
    /// Projects a canonical error into the types-registry view. A not-found or
    /// already-exists without a resource type, and a failed precondition
    /// without a parent-not-registered violation, fall through to `Other`.
    pub fn from(err: CanonicalError) -> (r: Self)
        ensures
            projects(err, r),
    {
        let detail = err.detail().clone();
        match err {
            CanonicalError::InvalidArgument { ctx, .. } => TypesRegistryError::Validation {
                issues: project_field_issues(ctx),
            },
            CanonicalError::NotFound { resource_type: Some(resource_type), resource_name, .. } => {
                TypesRegistryError::NotFound { resource_type, name: unwrap_text(resource_name), detail }
            },
            CanonicalError::AlreadyExists { resource_type: Some(resource_type), resource_name, .. } => {
                TypesRegistryError::AlreadyExists { resource_type, name: unwrap_text(resource_name), detail }
            },
            CanonicalError::FailedPrecondition { violations, resource_type, resource_name, detail: d } => {
                match find_parent_violation(&violations) {
                    Some(j) => {
                        let ghost vs = violations@;
                        let mut vs_owned = violations;
                        let v = vs_owned.swap_remove(j);
                        assert(first_parent_violation_at(vs, j as int));
                        TypesRegistryError::ParentNotRegistered {
                            parent_type_id: v.subject,
                            dependent_id: unwrap_text(resource_name),
                            detail: v.description,
                        }
                    },
                    None => TypesRegistryError::Other {
                        canonical: CanonicalError::FailedPrecondition {
                            violations,
                            resource_type,
                            resource_name,
                            detail: d,
                        },
                    },
                }
            },
            CanonicalError::ServiceUnavailable { .. } => TypesRegistryError::Unavailable { detail },
            CanonicalError::Internal { .. } => TypesRegistryError::Internal { detail },
            other => TypesRegistryError::Other { canonical: other },
        }
    }
}

/// Whether a canonical error is an invalid-argument whose field violations
/// name an invalid GTS id.
pub open spec fn names_invalid_gts_id(e: CanonicalError) -> bool {
    match e {
        CanonicalError::InvalidArgument { ctx, .. } => match ctx {
            InvalidArgument::FieldViolations { field_violations } => exists|i: int|
                0 <= i < field_violations@.len() && #[trigger] field_violations@[i].reason@ == INVALID_GTS_ID@,
            _ => false,
        },
        _ => false,
    }
}

/// Whether some field violation carries the invalid-GTS-id reason.
fn any_invalid_gts_id(field_violations: &Vec<FieldViolation>) -> (r: bool)
    ensures
        r == exists|i: int| 0 <= i < field_violations@.len() && #[trigger] field_violations@[i].reason@ == INVALID_GTS_ID@,
{
    let mut i: usize = 0;
    while i < field_violations.len()
        invariant
            i <= field_violations@.len(),
            forall|j: int| 0 <= j < i ==> #[trigger] field_violations@[j].reason@ != INVALID_GTS_ID@,
        decreases field_violations@.len() - i,
    {
        if same_text(field_violations[i].reason.as_str(), INVALID_GTS_ID) {
            return true;
        }
        i = i + 1;
    }
    false
}

/// Whether a canonical error is an invalid-argument naming an invalid GTS id.
pub fn is_invalid_gts_id(err: &CanonicalError) -> (r: bool)
    ensures
        r == names_invalid_gts_id(*err),
{
    match err {
        CanonicalError::InvalidArgument { ctx, .. } => match ctx {
            InvalidArgument::FieldViolations { field_violations } => any_invalid_gts_id(field_violations),
            _ => false,
        },
        _ => false,
    }
}

/// Whether a canonical error is a not-found.
pub fn is_not_found(err: &CanonicalError) -> (r: bool)
    ensures
        r == (*err is NotFound),
{
    match err {
        CanonicalError::NotFound { .. } => true,
        _ => false,
    }
}

/// Whether a canonical error is a failed precondition carrying a
/// parent-not-registered violation.
pub fn is_parent_not_registered(err: &CanonicalError) -> (r: bool)
    ensures
        r == (err matches CanonicalError::FailedPrecondition { violations, .. } && exists|i: int|
            0 <= i < violations@.len() && #[trigger] is_parent_violation(violations@[i])),
{
    match err {
        CanonicalError::FailedPrecondition { violations, .. } => find_parent_violation(violations).is_some(),
        _ => false,
    }
}

} // verus!
