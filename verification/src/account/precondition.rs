//! Wire `subject` / `type` vocabulary for account-management precondition
//! violations, and the typed view of the `subject` discriminators.
use vstd::prelude::*;

use crate::text::{owned, same_text};

verus! {

/// Tenant-type placement rejected for the requested parent / depth.
pub const TENANT_TYPE_SUBJECT: &'static str = "tenant_type";

/// Hierarchy depth budget exceeded.
pub const DEPTH_SUBJECT: &'static str = "depth";

/// Tenant-lifecycle guard (still has children / still owns resources).
pub const TENANT_SUBJECT: &'static str = "tenant";

/// Generic request-state guard.
pub const REQUEST_SUBJECT: &'static str = "request";

/// Deployment-level feature-gate guard.
pub const CONFIGURATION_SUBJECT: &'static str = "configuration";

/// Conversion-request lifecycle guard.
pub const CONVERSION_REQUEST_SUBJECT: &'static str = "conversion_request";

/// `tenant_type` subject — type not allowed for placement.
pub const TYPE_NOT_ALLOWED_TYPE: &'static str = "TYPE_NOT_ALLOWED";

/// `depth` subject — hierarchy depth exceeded.
pub const TENANT_DEPTH_EXCEEDED_TYPE: &'static str = "TENANT_DEPTH_EXCEEDED";

/// `tenant` subject — tenant still has child tenants.
pub const TENANT_HAS_CHILDREN_TYPE: &'static str = "TENANT_HAS_CHILDREN";

/// `tenant` subject — tenant still owns active resource references.
pub const TENANT_HAS_RESOURCES_TYPE: &'static str = "TENANT_HAS_RESOURCES";

/// `request` subject — generic precondition failure.
pub const PRECONDITION_FAILED_TYPE: &'static str = "PRECONDITION_FAILED";

/// `configuration` subject — feature gate disabled.
pub const FEATURE_DISABLED_TYPE: &'static str = "FEATURE_DISABLED";

/// `conversion_request` subject — approver/rejecter side mismatch.
pub const INVALID_ACTOR_FOR_TRANSITION_TYPE: &'static str = "INVALID_ACTOR_FOR_TRANSITION";

/// `conversion_request` subject — request already in a terminal state.
pub const ALREADY_RESOLVED_TYPE: &'static str = "ALREADY_RESOLVED";

/// Typed view of the account-management `FailedPrecondition` subjects.
#[derive(Debug, Clone, PartialEq, Eq)]
pub enum Subject {
    TenantType,
    Depth,
    Tenant,
    Request,
    Configuration,
    ConversionRequest,
    /// Unmodeled / future subject — preserves the raw wire string.
    Unknown(String),
}

/// The wire string a subject renders to.
pub open spec fn subject_wire(s: Subject) -> Seq<char> {
    match s {
        Subject::TenantType => TENANT_TYPE_SUBJECT@,
        Subject::Depth => DEPTH_SUBJECT@,
        Subject::Tenant => TENANT_SUBJECT@,
        Subject::Request => REQUEST_SUBJECT@,
        Subject::Configuration => CONFIGURATION_SUBJECT@,
        Subject::ConversionRequest => CONVERSION_REQUEST_SUBJECT@,
        Subject::Unknown(raw) => raw@,
    }
}

/// Whether `s` is one of the modeled subjects.
pub open spec fn is_modeled_subject(s: Seq<char>) -> bool {
    ||| s == TENANT_TYPE_SUBJECT@
    ||| s == DEPTH_SUBJECT@
    ||| s == TENANT_SUBJECT@
    ||| s == REQUEST_SUBJECT@
    ||| s == CONFIGURATION_SUBJECT@
    ||| s == CONVERSION_REQUEST_SUBJECT@
}

impl Subject {
    /// Project a wire `subject` string into the typed discriminator; any
    /// unmodeled value is preserved in `Unknown`.
    pub fn from_wire(s: &str) -> (r: Self)
        ensures
            subject_wire(r) == s@,
            r is Unknown <==> !is_modeled_subject(s@),
    {
        if same_text(s, TENANT_TYPE_SUBJECT) {
            Subject::TenantType
        } else if same_text(s, DEPTH_SUBJECT) {
            Subject::Depth
        } else if same_text(s, TENANT_SUBJECT) {
            Subject::Tenant
        } else if same_text(s, REQUEST_SUBJECT) {
            Subject::Request
        } else if same_text(s, CONFIGURATION_SUBJECT) {
            Subject::Configuration
        } else if same_text(s, CONVERSION_REQUEST_SUBJECT) {
            Subject::ConversionRequest
        } else {
            Subject::Unknown(owned(s))
        }
    }

    /// Render the discriminator back to its wire `subject` string.
    pub fn as_wire(&self) -> (w: &str)
        ensures
            w@ == subject_wire(*self),
    {
        match self {
            Subject::TenantType => TENANT_TYPE_SUBJECT,
            Subject::Depth => DEPTH_SUBJECT,
            Subject::Tenant => TENANT_SUBJECT,
            Subject::Request => REQUEST_SUBJECT,
            Subject::Configuration => CONFIGURATION_SUBJECT,
            Subject::ConversionRequest => CONVERSION_REQUEST_SUBJECT,
            Subject::Unknown(raw) => raw.as_str(),
        }
    }

    /// The text a `Display` of the subject shows: its wire string.
    pub fn to_text(&self) -> (t: String)
        ensures
            t@ == subject_wire(*self),
    {
        owned(self.as_wire())
    }
}

/// Every modeled subject renders to a modeled wire string, and two modeled
/// subjects with the same wire string are the same subject: together with the
/// contract of `from_wire`, projecting the rendering of a modeled subject gives
/// that subject back.
pub proof fn lemma_subject_round_trip(s: Subject, back: Subject)
    requires
        !(s is Unknown),
        subject_wire(back) == subject_wire(s),
        back is Unknown <==> !is_modeled_subject(subject_wire(s)),
    ensures
        is_modeled_subject(subject_wire(s)),
        back == s,
{
    reveal_strlit("tenant_type");
    reveal_strlit("depth");
    reveal_strlit("tenant");
    reveal_strlit("request");
    reveal_strlit("configuration");
    reveal_strlit("conversion_request");
    assert(TENANT_TYPE_SUBJECT@.len() == 11);
    assert(DEPTH_SUBJECT@.len() == 5);
    assert(TENANT_SUBJECT@.len() == 6);
    assert(REQUEST_SUBJECT@.len() == 7);
    assert(CONFIGURATION_SUBJECT@.len() == 13);
    assert(CONVERSION_REQUEST_SUBJECT@.len() == 18);
}

} // verus!
