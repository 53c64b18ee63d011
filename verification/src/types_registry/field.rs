//! Wire `field` / `reason` vocabulary for types-registry field violations,
//! and the typed view of the `reason` codes.
use vstd::prelude::*;

use crate::text::{owned, same_text};

verus! {

/// The GTS identifier field.
pub const GTS_ID_FIELD: &'static str = "gts_id";

/// The list/query pattern field.
pub const QUERY_FIELD: &'static str = "query";

/// The entity-content field.
pub const ENTITY_FIELD: &'static str = "entity";

/// The string is not a valid GTS identifier.
pub const INVALID_GTS_ID: &'static str = "INVALID_GTS_ID";

/// The list/query parameters are syntactically invalid.
pub const INVALID_QUERY: &'static str = "INVALID_QUERY";

/// The entity content failed schema validation.
pub const VALIDATION_FAILED: &'static str = "VALIDATION_FAILED";

/// Diagnostic token for the `Format` shape sentinel (never a wire reason).
pub const FORMAT_SHAPE: &'static str = "FORMAT";

/// Diagnostic token for the `Constraint` shape sentinel (never a wire reason).
pub const CONSTRAINT_SHAPE: &'static str = "CONSTRAINT";

/// Typed view of the types-registry `InvalidArgument` reason codes, plus the
/// two synthetic shape sentinels.
#[derive(Debug, Clone, PartialEq, Eq)]
pub enum ValidationReason {
    InvalidGtsId,
    InvalidQuery,
    ValidationFailed,
    /// Sentinel for an `InvalidArgument` carried as the `Format` shape.
    Format,
    /// Sentinel for an `InvalidArgument` carried as the `Constraint` shape.
    Constraint,
    /// Unmodeled / future reason — preserves the raw wire string.
    Unknown(String),
}

/// The string a reason renders to.
pub open spec fn reason_wire(r: ValidationReason) -> Seq<char> {
    match r {
        ValidationReason::InvalidGtsId => INVALID_GTS_ID@,
        ValidationReason::InvalidQuery => INVALID_QUERY@,
        ValidationReason::ValidationFailed => VALIDATION_FAILED@,
        ValidationReason::Format => FORMAT_SHAPE@,
        ValidationReason::Constraint => CONSTRAINT_SHAPE@,
        ValidationReason::Unknown(s) => s@,
    }
}

/// Whether `s` is one of the wire reason codes types-registry emits.
pub open spec fn is_modeled_reason(s: Seq<char>) -> bool {
    ||| s == INVALID_GTS_ID@
    ||| s == INVALID_QUERY@
    ||| s == VALIDATION_FAILED@
}

impl ValidationReason {
    /// Project a wire `reason` string into the typed discriminator; any
    /// unmodeled value (the sentinel tokens included) is preserved in
    /// `Unknown`.
    pub fn from_wire(s: &str) -> (r: Self)
        ensures
            reason_wire(r) == s@,
            r is Unknown <==> !is_modeled_reason(s@),
            !(r is Format),
            !(r is Constraint),
    {
        if same_text(s, INVALID_GTS_ID) {
            ValidationReason::InvalidGtsId
        } else if same_text(s, INVALID_QUERY) {
            ValidationReason::InvalidQuery
        } else if same_text(s, VALIDATION_FAILED) {
            ValidationReason::ValidationFailed
        } else {
            ValidationReason::Unknown(owned(s))
        }
    }

    /// Render the discriminator to its wire string (the sentinels render
    /// their reserved diagnostic tokens).
    pub fn as_wire(&self) -> (w: &str)
        ensures
            w@ == reason_wire(*self),
    {
        match self {
            ValidationReason::InvalidGtsId => INVALID_GTS_ID,
            ValidationReason::InvalidQuery => INVALID_QUERY,
            ValidationReason::ValidationFailed => VALIDATION_FAILED,
            ValidationReason::Format => FORMAT_SHAPE,
            ValidationReason::Constraint => CONSTRAINT_SHAPE,
            ValidationReason::Unknown(s) => s.as_str(),
        }
    }

    /// The text a `Display` of the reason shows: its wire string.
    pub fn to_text(&self) -> (t: String)
        ensures
            t@ == reason_wire(*self),
    {
        owned(self.as_wire())
    }
}

/// The modeled reasons and the two sentinels render to distinct non-empty
/// strings, the sentinel tokens are not wire codes, and a modeled reason's
/// rendering projects back to it.
pub proof fn lemma_reason_round_trip(r: ValidationReason, back: ValidationReason)
    requires
        !(r is Unknown),
        reason_wire(back) == reason_wire(r),
        back is Unknown <==> !is_modeled_reason(reason_wire(r)),
        !(back is Format),
        !(back is Constraint),
    ensures
        r is Format || r is Constraint || back == r,
        !is_modeled_reason(FORMAT_SHAPE@),
        !is_modeled_reason(CONSTRAINT_SHAPE@),
        FORMAT_SHAPE@ != CONSTRAINT_SHAPE@,
        FORMAT_SHAPE@.len() > 0,
        CONSTRAINT_SHAPE@.len() > 0,
{
    reveal_strlit("INVALID_GTS_ID");
    reveal_strlit("INVALID_QUERY");
    reveal_strlit("VALIDATION_FAILED");
    reveal_strlit("FORMAT");
    reveal_strlit("CONSTRAINT");
    assert(INVALID_GTS_ID@.len() == 14);
    assert(INVALID_QUERY@.len() == 13);
    assert(VALIDATION_FAILED@.len() == 17);
    assert(FORMAT_SHAPE@.len() == 6);
    assert(CONSTRAINT_SHAPE@.len() == 10);
}

} // verus!
