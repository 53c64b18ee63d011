//! Typed projection of the canonical error envelope for nodes-registry
//! consumers.
use vstd::prelude::*;

use crate::canonical::{text_or_empty, unwrap_text, CanonicalError, FieldViolation, InvalidArgument};

verus! {

/// Typed projection of the canonical error for nodes-registry consumers.
#[derive(Debug, Clone)]
pub enum NodesRegistryError {
    NotFound { resource_type: String, name: String, detail: String },
    InvalidArgument { field: String, reason: String, detail: String },
    Internal { detail: String },
    /// A category nodes-registry does not model, preserved whole.
    Other { canonical: CanonicalError },
}

/// The first field violation of an `InvalidArgument` context, when it has
/// the field-violations shape and at least one entry.
pub open spec fn first_violation(ctx: InvalidArgument) -> Option<FieldViolation> {
    match ctx {
        InvalidArgument::FieldViolations { field_violations } => if field_violations@.len() > 0 {
            Some(field_violations@[0])
        } else {
            None
        },
        _ => None,
    }
}

/// Whether `r` is the projection of the canonical error `e`.
pub open spec fn projects(e: CanonicalError, r: NodesRegistryError) -> bool {
    match e {
        CanonicalError::NotFound { resource_type, resource_name, detail } => r matches NodesRegistryError::NotFound {
            resource_type: rt,
            name,
            detail: d,
        } && rt@ == text_or_empty(resource_type) && name@ == text_or_empty(resource_name) && d@ == detail@,
        CanonicalError::InvalidArgument { ctx, detail, .. } => match first_violation(ctx) {
            Some(v) => r matches NodesRegistryError::InvalidArgument { field, reason, detail: d } && field@
                == v.field@ && reason@ == v.reason@ && d@ == v.description@,
            None => r matches NodesRegistryError::InvalidArgument { field, reason, detail: d } && field@
                == Seq::<char>::empty() && reason@ == Seq::<char>::empty() && d@ == detail@,
        },
        CanonicalError::Internal { detail } => r matches NodesRegistryError::Internal { detail: d } && d@
            == detail@,
        _ => r == NodesRegistryError::Other { canonical: e },
    }
}

/// Projects an `InvalidArgument` context: the first field violation, or an
/// empty field and reason with the canonical detail.
fn project_invalid_argument(ctx: InvalidArgument, detail: String) -> (r: NodesRegistryError)
    ensures
        match first_violation(ctx) {
            Some(v) => r matches NodesRegistryError::InvalidArgument { field, reason, detail: d } && field@
                == v.field@ && reason@ == v.reason@ && d@ == v.description@,
            None => r matches NodesRegistryError::InvalidArgument { field, reason, detail: d } && field@
                == Seq::<char>::empty() && reason@ == Seq::<char>::empty() && d@ == detail@,
        },
{
    let first = match ctx {
        InvalidArgument::FieldViolations { field_violations } => {
            if field_violations.len() > 0 {
                let mut vs = field_violations;
                Some(vs.swap_remove(0))
            } else {
                None
            }
        },
        InvalidArgument::Format { .. } => None,
        InvalidArgument::Constraint { .. } => None,
    };
    match first {
        Some(v) => NodesRegistryError::InvalidArgument { field: v.field, reason: v.reason, detail: v.description },
        None => NodesRegistryError::InvalidArgument { field: String::new(), reason: String::new(), detail },
    }
}

impl NodesRegistryError {
    /// Projects a canonical error into the nodes-registry view.
    pub fn from(err: CanonicalError) -> (r: Self)
        ensures
            projects(err, r),
    {
        let detail = err.detail().clone();
        match err {
            CanonicalError::NotFound { resource_type, resource_name, .. } => NodesRegistryError::NotFound {
                resource_type: unwrap_text(resource_type),
                name: unwrap_text(resource_name),
                detail,
            },
            CanonicalError::InvalidArgument { ctx, .. } => project_invalid_argument(ctx, detail),
            CanonicalError::Internal { .. } => NodesRegistryError::Internal { detail },
            other => NodesRegistryError::Other { canonical: other },
        }
    }
}

} // verus!
