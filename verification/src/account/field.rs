//! Wire `field` / `reason` vocabulary for account-management field
//! violations, and the typed view of the `reason` codes.
use vstd::prelude::*;

use crate::text::{owned, same_text};

verus! {

/// `tenant_type` reference is malformed or unknown.
pub const INVALID_TENANT_TYPE: &'static str = "INVALID_TENANT_TYPE";

/// Generic request-shape validation failure.
pub const VALIDATION: &'static str = "VALIDATION";

/// Delete refused: the platform root tenant cannot be deleted.
pub const ROOT_TENANT_CANNOT_DELETE: &'static str = "ROOT_TENANT_CANNOT_DELETE";

/// Conversion refused: the platform root tenant cannot be converted.
pub const ROOT_TENANT_CANNOT_CONVERT: &'static str = "ROOT_TENANT_CANNOT_CONVERT";

/// Suspend / unsuspend refused on the platform root tenant.
pub const ROOT_TENANT_CANNOT_CHANGE_STATUS: &'static str = "ROOT_TENANT_CANNOT_CHANGE_STATUS";

/// The identity-provider plugin rejected the provisioning request shape.
pub const IDP_INVALID_INPUT: &'static str = "IDP_INVALID_INPUT";

/// The identity provider rejected the supplied password.
pub const PASSWORD_POLICY: &'static str = "PASSWORD_POLICY";

/// `tenant_type` reference field.
pub const TENANT_TYPE_FIELD: &'static str = "tenant_type";

/// Whole-request field for generic tenant-state validation rejects.
pub const REQUEST_FIELD: &'static str = "request";

/// Metadata-payload field for metadata-content validation rejects.
pub const METADATA_FIELD: &'static str = "metadata";

/// `tenant_id` field for the root-tenant protection rejects.
pub const TENANT_ID_FIELD: &'static str = "tenant_id";

/// `password` field for password-policy rejects.
pub const PASSWORD_FIELD: &'static str = "password";

/// Shared fallback field for identity-provider input rejects.
pub const PROVISIONING_METADATA_FIELD: &'static str = "provisioning_metadata";

/// Typed view of the account-management `InvalidArgument` reason codes.
#[derive(Debug, Clone, PartialEq, Eq)]
pub enum ValidationReason {
    InvalidTenantType,
    Validation,
    RootTenantCannotDelete,
    RootTenantCannotConvert,
    RootTenantCannotChangeStatus,
    IdpInvalidInput,
    PasswordPolicy,
    /// Unmodeled / future reason — preserves the raw wire string.
    Unknown(String),
}

/// The wire string a reason renders to.
pub open spec fn reason_wire(r: ValidationReason) -> Seq<char> {
    match r {
        ValidationReason::InvalidTenantType => INVALID_TENANT_TYPE@,
        ValidationReason::Validation => VALIDATION@,
        ValidationReason::RootTenantCannotDelete => ROOT_TENANT_CANNOT_DELETE@,
        ValidationReason::RootTenantCannotConvert => ROOT_TENANT_CANNOT_CONVERT@,
        ValidationReason::RootTenantCannotChangeStatus => ROOT_TENANT_CANNOT_CHANGE_STATUS@,
        ValidationReason::IdpInvalidInput => IDP_INVALID_INPUT@,
        ValidationReason::PasswordPolicy => PASSWORD_POLICY@,
        ValidationReason::Unknown(s) => s@,
    }
}

/// Whether `s` is one of the modeled reason codes.
pub open spec fn is_modeled_reason(s: Seq<char>) -> bool {
    ||| s == INVALID_TENANT_TYPE@
    ||| s == VALIDATION@
    ||| s == ROOT_TENANT_CANNOT_DELETE@
    ||| s == ROOT_TENANT_CANNOT_CONVERT@
    ||| s == ROOT_TENANT_CANNOT_CHANGE_STATUS@
    ||| s == IDP_INVALID_INPUT@
    ||| s == PASSWORD_POLICY@
}

impl ValidationReason {
    /// Project a wire `reason` string into the typed discriminator; any
    /// unmodeled value is preserved in `Unknown`.
    pub fn from_wire(s: &str) -> (r: Self)
        ensures
            reason_wire(r) == s@,
            r is Unknown <==> !is_modeled_reason(s@),
    {
        if same_text(s, INVALID_TENANT_TYPE) {
            ValidationReason::InvalidTenantType
        } else if same_text(s, VALIDATION) {
            ValidationReason::Validation
        } else if same_text(s, ROOT_TENANT_CANNOT_DELETE) {
            ValidationReason::RootTenantCannotDelete
        } else if same_text(s, ROOT_TENANT_CANNOT_CONVERT) {
            ValidationReason::RootTenantCannotConvert
        } else if same_text(s, ROOT_TENANT_CANNOT_CHANGE_STATUS) {
            ValidationReason::RootTenantCannotChangeStatus
        } else if same_text(s, IDP_INVALID_INPUT) {
            ValidationReason::IdpInvalidInput
        } else if same_text(s, PASSWORD_POLICY) {
            ValidationReason::PasswordPolicy
        } else {
            ValidationReason::Unknown(owned(s))
        }
    }

    /// Render the discriminator back to its wire `reason` string.
    pub fn as_wire(&self) -> (w: &str)
        ensures
            w@ == reason_wire(*self),
    {
        match self {
            ValidationReason::InvalidTenantType => INVALID_TENANT_TYPE,
            ValidationReason::Validation => VALIDATION,
            ValidationReason::RootTenantCannotDelete => ROOT_TENANT_CANNOT_DELETE,
            ValidationReason::RootTenantCannotConvert => ROOT_TENANT_CANNOT_CONVERT,
            ValidationReason::RootTenantCannotChangeStatus => ROOT_TENANT_CANNOT_CHANGE_STATUS,
            ValidationReason::IdpInvalidInput => IDP_INVALID_INPUT,
            ValidationReason::PasswordPolicy => PASSWORD_POLICY,
            ValidationReason::Unknown(s) => s.as_str(),
        }
    }

    /// The text a `Display` of the reason shows: its wire string.
    pub fn to_text(&self) -> (t: String)
        ensures
            t@ == reason_wire(*self),
    {
        owned(self.as_wire())
    }
}

/// Every modeled reason renders to a modeled wire code, and two modeled
/// reasons with the same wire code are the same reason: together with the
/// contract of `from_wire`, projecting the rendering of a modeled reason gives
/// that reason back.
pub proof fn lemma_reason_round_trip(r: ValidationReason, back: ValidationReason)
    requires
        !(r is Unknown),
        reason_wire(back) == reason_wire(r),
        back is Unknown <==> !is_modeled_reason(reason_wire(r)),
    ensures
        is_modeled_reason(reason_wire(r)),
        back == r,
{
    reveal_strlit("INVALID_TENANT_TYPE");
    reveal_strlit("VALIDATION");
    reveal_strlit("ROOT_TENANT_CANNOT_DELETE");
    reveal_strlit("ROOT_TENANT_CANNOT_CONVERT");
    reveal_strlit("ROOT_TENANT_CANNOT_CHANGE_STATUS");
    reveal_strlit("IDP_INVALID_INPUT");
    reveal_strlit("PASSWORD_POLICY");
    assert(INVALID_TENANT_TYPE@.len() == 19);
    assert(VALIDATION@.len() == 10);
    assert(ROOT_TENANT_CANNOT_DELETE@.len() == 25);
    assert(ROOT_TENANT_CANNOT_CONVERT@.len() == 26);
    assert(ROOT_TENANT_CANNOT_CHANGE_STATUS@.len() == 32);
    assert(IDP_INVALID_INPUT@.len() == 17);
    assert(PASSWORD_POLICY@.len() == 15);
}

} // verus!
