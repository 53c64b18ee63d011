//! The canonical envelopes the types registry answers with, for test doubles
//! of its client that must answer as the real client does.
use vstd::prelude::*;

use crate::canonical::{CanonicalError, FieldViolation, InvalidArgument, INVALID_ARGUMENT_DETAIL};
use crate::text::{joined, owned};
use crate::types_registry::field::{GTS_ID_FIELD, INVALID_GTS_ID};
use crate::types_registry::gts::TYPE_RESOURCE_TYPE;

verus! {

/// The `InvalidArgument` for a malformed or kind-mismatched GTS id: one
/// `gts_id` field violation with reason `INVALID_GTS_ID`, on the registry's
/// resource type.
pub fn invalid_gts_id(message: &str) -> (e: CanonicalError)
    ensures
        ({
            &&& e matches CanonicalError::InvalidArgument { ctx, resource_type, detail }
            &&& resource_type matches Some(rt)
            &&& rt@ == TYPE_RESOURCE_TYPE@
            &&& detail@ == INVALID_ARGUMENT_DETAIL@
            &&& ctx matches InvalidArgument::FieldViolations { field_violations }
            &&& field_violations@.len() == 1
            &&& field_violations@[0].field@ == GTS_ID_FIELD@
            &&& field_violations@[0].description@ == message@
            &&& field_violations@[0].reason@ == INVALID_GTS_ID@
        }),
{
    let mut field_violations: Vec<FieldViolation> = Vec::new();
    field_violations.push(
        FieldViolation { field: owned(GTS_ID_FIELD), description: owned(message), reason: owned(INVALID_GTS_ID) },
    );
    CanonicalError::InvalidArgument {
        ctx: InvalidArgument::FieldViolations { field_violations },
        resource_type: Some(owned(TYPE_RESOURCE_TYPE)),
        detail: owned(INVALID_ARGUMENT_DETAIL),
    }
}

/// The `NotFound` for an unregistered id or UUID, naming it, on the
/// registry's resource type.
pub fn not_found(id: &str) -> (e: CanonicalError)
    ensures
        ({
            &&& e matches CanonicalError::NotFound { resource_type, resource_name, detail }
            &&& resource_type matches Some(rt)
            &&& rt@ == TYPE_RESOURCE_TYPE@
            &&& resource_name matches Some(n)
            &&& n@ == id@
            &&& detail@ == "no entity registered: "@ + id@
        }),
{
    CanonicalError::NotFound {
        resource_type: Some(owned(TYPE_RESOURCE_TYPE)),
        resource_name: Some(owned(id)),
        detail: joined("no entity registered: ", id),
    }
}

/// The opaque `Internal` for an infrastructure failure.
pub fn internal(message: &str) -> (e: CanonicalError)
    ensures
        e matches CanonicalError::Internal { detail } && detail@ == message@,
{
    CanonicalError::Internal { detail: owned(message) }
}

} // verus!
