//! The single classification ladder from account management's domain error to
//! the canonical error envelope: each domain variant gets exactly one
//! canonical category, its resource type and the SDK's wire tokens, so the
//! SDK's typed projection reads every one of them back.
use vstd::prelude::*;

use crate::account::domain::DomainError;
use crate::account::error::{projects, AccountManagementError};
use crate::account::field::{
    lemma_reason_round_trip, ValidationReason, IDP_INVALID_INPUT, INVALID_TENANT_TYPE, METADATA_FIELD,
    PASSWORD_FIELD, PASSWORD_POLICY, PROVISIONING_METADATA_FIELD, REQUEST_FIELD, ROOT_TENANT_CANNOT_CHANGE_STATUS,
    ROOT_TENANT_CANNOT_CONVERT, ROOT_TENANT_CANNOT_DELETE, TENANT_ID_FIELD, TENANT_TYPE_FIELD, VALIDATION,
};
use crate::account::gts::{
    CONVERSION_REQUEST_RESOURCE_TYPE, TENANT_METADATA_RESOURCE_TYPE, TENANT_RESOURCE_TYPE, USER_RESOURCE_TYPE,
};
use crate::account::precondition::{
    lemma_subject_round_trip, Subject, ALREADY_RESOLVED_TYPE, CONFIGURATION_SUBJECT, CONVERSION_REQUEST_SUBJECT,
    DEPTH_SUBJECT, FEATURE_DISABLED_TYPE, INVALID_ACTOR_FOR_TRANSITION_TYPE, PRECONDITION_FAILED_TYPE, REQUEST_SUBJECT,
    TENANT_DEPTH_EXCEEDED_TYPE, TENANT_HAS_CHILDREN_TYPE, TENANT_HAS_RESOURCES_TYPE, TENANT_SUBJECT, TENANT_TYPE_SUBJECT,
    TYPE_NOT_ALLOWED_TYPE,
};
use crate::account::quota::INTEGRITY_CHECK;
use crate::account::reason::aborted::{METADATA_VERSION_MISMATCH, SERIALIZATION_CONFLICT};
use crate::account::reason::permission::CROSS_TENANT_DENIED;
use crate::canonical::{
    CanonicalError, FieldViolation, InvalidArgument, PreconditionViolation, QuotaViolation, FAILED_PRECONDITION_DETAIL,
    INVALID_ARGUMENT_DETAIL, PERMISSION_DENIED_DETAIL,
};
use crate::text::{decimal, decimal_text, owned};

verus! {

/// The fixed envelope detail that replaces identity-provider text on an
/// unavailable provider.
pub const IDP_UNAVAILABLE_DETAIL: &'static str = "IdP plugin unavailable";

/// The fixed envelope detail that replaces identity-provider text on an
/// unsupported operation.
pub const UNSUPPORTED_OPERATION_DETAIL: &'static str = "operation not supported by the IdP provider";

/// Whether `o` holds a string with text `t`.
pub open spec fn holds_text(o: Option<String>, t: Seq<char>) -> bool {
    o matches Some(s) && s@ == t
}

/// Whether `e` is an `InvalidArgument` on `resource_type` with the single
/// field violation (`field`, `description`, `reason`).
pub open spec fn invalid_argument_is(
    e: CanonicalError,
    resource_type: Seq<char>,
    field: Seq<char>,
    description: Seq<char>,
    reason: Seq<char>,
) -> bool {
    &&& e matches CanonicalError::InvalidArgument { ctx, resource_type: rt, detail }
    &&& holds_text(rt, resource_type)
    &&& detail@ == INVALID_ARGUMENT_DETAIL@
    &&& ctx matches InvalidArgument::FieldViolations { field_violations }
    &&& field_violations@.len() == 1
    &&& field_violations@[0].field@ == field
    &&& field_violations@[0].description@ == description
    &&& field_violations@[0].reason@ == reason
}

/// Whether `e` is a `NotFound` of the resource `name` of `resource_type`.
pub open spec fn not_found_is(e: CanonicalError, resource_type: Seq<char>, name: Seq<char>, detail: Seq<char>) -> bool {
    e matches CanonicalError::NotFound { resource_type: rt, resource_name: rn, detail: d } && holds_text(
        rt,
        resource_type,
    ) && holds_text(rn, name) && d@ == detail
}

/// Whether `e` is an `AlreadyExists` of the resource `name` of `resource_type`.
pub open spec fn already_exists_is(e: CanonicalError, resource_type: Seq<char>, name: Seq<char>, detail: Seq<char>) -> bool {
    e matches CanonicalError::AlreadyExists { resource_type: rt, resource_name: rn, detail: d } && holds_text(
        rt,
        resource_type,
    ) && holds_text(rn, name) && d@ == detail
}

/// Whether `e` is a `FailedPrecondition` on `resource_type` with the single
/// violation (`subject`, `description`, `type_`).
pub open spec fn failed_precondition_is(
    e: CanonicalError,
    resource_type: Seq<char>,
    subject: Seq<char>,
    description: Seq<char>,
    type_: Seq<char>,
) -> bool {
    &&& e matches CanonicalError::FailedPrecondition { violations, resource_type: rt, resource_name, detail }
    &&& holds_text(rt, resource_type)
    &&& resource_name is None
    &&& detail@ == FAILED_PRECONDITION_DETAIL@
    &&& violations@.len() == 1
    &&& violations@[0].subject@ == subject
    &&& violations@[0].description@ == description
    &&& violations@[0].type_@ == type_
}

/// Whether `e` is a `ResourceExhausted` with the single quota violation
/// (`subject`, `description`).
pub open spec fn resource_exhausted_is(e: CanonicalError, subject: Seq<char>, description: Seq<char>, detail: Seq<char>) -> bool {
    &&& e matches CanonicalError::ResourceExhausted { violations, resource_type, detail: d }
    &&& holds_text(resource_type, TENANT_RESOURCE_TYPE@)
    &&& d@ == detail
    &&& violations@.len() == 1
    &&& violations@[0].subject@ == subject
    &&& violations@[0].description@ == description
}

/// The detail of a metadata version mismatch.
pub open spec fn version_mismatch_detail(entry: Seq<char>, expected: u64, current: u64) -> Seq<char> {
    "metadata version mismatch for "@ + entry + ": expected v"@ + decimal(expected as nat) + ", stored v"@ + decimal(
        current as nat,
    )
}

/// The detail of an invalid conversion transition.
pub open spec fn invalid_actor_detail(attempted_status: Seq<char>, caller_side: Seq<char>) -> Seq<char> {
    "invalid actor for conversion transition: attempted="@ + attempted_status + " caller_side="@ + caller_side
}

/// The retry hint a wait of `secs` seconds is announced with: the wait,
/// capped at `u32::MAX` seconds.
pub open spec fn announced_retry(secs: u64) -> u64 {
    if secs <= u32::MAX {
        secs
    } else {
        u32::MAX as u64
    }
}

/// Whether `e` is the canonical error the ladder assigns to `d`.
pub open spec fn ladder(d: DomainError, e: CanonicalError) -> bool {
    match d {
        DomainError::InvalidTenantType { detail } => invalid_argument_is(
            e,
            TENANT_RESOURCE_TYPE@,
            TENANT_TYPE_FIELD@,
            detail@,
            INVALID_TENANT_TYPE@,
        ),
        DomainError::Validation { detail } => invalid_argument_is(
            e,
            TENANT_RESOURCE_TYPE@,
            REQUEST_FIELD@,
            detail@,
            VALIDATION@,
        ),
        DomainError::MetadataValidation { detail } => invalid_argument_is(
            e,
            TENANT_METADATA_RESOURCE_TYPE@,
            METADATA_FIELD@,
            detail@,
            VALIDATION@,
        ),
        DomainError::RootTenantCannotDelete => invalid_argument_is(
            e,
            TENANT_RESOURCE_TYPE@,
            TENANT_ID_FIELD@,
            "root tenant cannot be deleted"@,
            ROOT_TENANT_CANNOT_DELETE@,
        ),
        DomainError::RootTenantCannotConvert => invalid_argument_is(
            e,
            TENANT_RESOURCE_TYPE@,
            TENANT_ID_FIELD@,
            "root tenant cannot be converted"@,
            ROOT_TENANT_CANNOT_CONVERT@,
        ),
        DomainError::RootTenantCannotChangeStatus => invalid_argument_is(
            e,
            TENANT_RESOURCE_TYPE@,
            TENANT_ID_FIELD@,
            "root tenant status cannot be changed"@,
            ROOT_TENANT_CANNOT_CHANGE_STATUS@,
        ),
        DomainError::IdpInvalidInput { detail, field } => invalid_argument_is(
            e,
            TENANT_RESOURCE_TYPE@,
            match field {
                Some(f) => f@,
                None => PROVISIONING_METADATA_FIELD@,
            },
            detail@,
            IDP_INVALID_INPUT@,
        ),
        DomainError::IdpPasswordPolicy { detail } => invalid_argument_is(
            e,
            USER_RESOURCE_TYPE@,
            PASSWORD_FIELD@,
            detail@,
            PASSWORD_POLICY@,
        ),
        DomainError::NotFound { detail, resource } => not_found_is(e, TENANT_RESOURCE_TYPE@, resource@, detail@),
        DomainError::UserNotFound { detail, resource } => not_found_is(e, USER_RESOURCE_TYPE@, resource@, detail@),
        DomainError::ConversionRequestNotFound { detail, resource } => not_found_is(
            e,
            CONVERSION_REQUEST_RESOURCE_TYPE@,
            resource@,
            detail@,
        ),
        DomainError::MetadataEntryNotFound { detail, entry } => not_found_is(
            e,
            TENANT_METADATA_RESOURCE_TYPE@,
            entry@,
            detail@,
        ),
        DomainError::MetadataVersionMismatch { entry, expected, current } => e matches CanonicalError::Aborted {
            reason,
            resource_type,
            resource_name,
            detail,
        } && reason@ == METADATA_VERSION_MISMATCH@ && holds_text(resource_type, TENANT_METADATA_RESOURCE_TYPE@)
            && holds_text(resource_name, entry@) && detail@ == version_mismatch_detail(entry@, expected, current),
        DomainError::Aborted { detail, .. } => e matches CanonicalError::Aborted {
            reason,
            resource_type,
            resource_name,
            detail: d,
        } && reason@ == SERIALIZATION_CONFLICT@ && holds_text(resource_type, TENANT_RESOURCE_TYPE@) && resource_name is None
            && d@ == detail@,
        DomainError::AlreadyExists { detail } => already_exists_is(e, TENANT_RESOURCE_TYPE@, "tenant"@, detail@),
        DomainError::UserAlreadyExists { field_phrase, field_token } => already_exists_is(
            e,
            USER_RESOURCE_TYPE@,
            field_token@,
            "a user with this "@ + field_phrase@ + " already exists"@,
        ),
        DomainError::PendingExists { request_id } => already_exists_is(
            e,
            CONVERSION_REQUEST_RESOURCE_TYPE@,
            request_id@,
            "a pending conversion request already exists: "@ + request_id@,
        ),
        DomainError::TypeNotAllowed { detail } => failed_precondition_is(
            e,
            TENANT_RESOURCE_TYPE@,
            TENANT_TYPE_SUBJECT@,
            detail@,
            TYPE_NOT_ALLOWED_TYPE@,
        ),
        DomainError::TenantDepthExceeded { detail } => failed_precondition_is(
            e,
            TENANT_RESOURCE_TYPE@,
            DEPTH_SUBJECT@,
            detail@,
            TENANT_DEPTH_EXCEEDED_TYPE@,
        ),
        DomainError::TenantHasChildren => failed_precondition_is(
            e,
            TENANT_RESOURCE_TYPE@,
            TENANT_SUBJECT@,
            "tenant has child tenants"@,
            TENANT_HAS_CHILDREN_TYPE@,
        ),
        DomainError::TenantHasResources => failed_precondition_is(
            e,
            TENANT_RESOURCE_TYPE@,
            TENANT_SUBJECT@,
            "tenant still owns resources"@,
            TENANT_HAS_RESOURCES_TYPE@,
        ),
        DomainError::InvalidActorForTransition { attempted_status, caller_side } => failed_precondition_is(
            e,
            CONVERSION_REQUEST_RESOURCE_TYPE@,
            CONVERSION_REQUEST_SUBJECT@,
            invalid_actor_detail(attempted_status@, caller_side@),
            INVALID_ACTOR_FOR_TRANSITION_TYPE@,
        ),
        DomainError::AlreadyResolved => failed_precondition_is(
            e,
            CONVERSION_REQUEST_RESOURCE_TYPE@,
            CONVERSION_REQUEST_SUBJECT@,
            "conversion request already resolved"@,
            ALREADY_RESOLVED_TYPE@,
        ),
        DomainError::Conflict { detail } => failed_precondition_is(
            e,
            TENANT_RESOURCE_TYPE@,
            REQUEST_SUBJECT@,
            detail@,
            PRECONDITION_FAILED_TYPE@,
        ),
        DomainError::FeatureDisabled { detail } => failed_precondition_is(
            e,
            TENANT_RESOURCE_TYPE@,
            CONFIGURATION_SUBJECT@,
            detail@,
            FEATURE_DISABLED_TYPE@,
        ),
        DomainError::CrossTenantDenied => e matches CanonicalError::PermissionDenied { reason, resource_type, detail }
            && reason@ == CROSS_TENANT_DENIED@ && holds_text(resource_type, TENANT_RESOURCE_TYPE@) && detail@
            == PERMISSION_DENIED_DETAIL@,
        DomainError::IntegrityCheckInProgress => resource_exhausted_is(
            e,
            INTEGRITY_CHECK@,
            "another integrity check is already in progress"@,
            "integrity check already in progress"@,
        ),
        DomainError::IntegrityCheckLeaseLost => resource_exhausted_is(
            e,
            INTEGRITY_CHECK@,
            "integrity repair aborted; another worker took the lease"@,
            "integrity repair aborted: lease lost to a peer"@,
        ),
        DomainError::IdpUnavailable { .. } => e matches CanonicalError::ServiceUnavailable {
            retry_after_seconds,
            detail,
        } && retry_after_seconds is None && detail@ == IDP_UNAVAILABLE_DETAIL@,
        DomainError::ServiceUnavailable { detail, retry_after_secs } => e matches CanonicalError::ServiceUnavailable {
            retry_after_seconds,
            detail: d,
        } && d@ == detail@ && retry_after_seconds == match retry_after_secs {
            Some(secs) => Some(announced_retry(secs)),
            None => None,
        },
        DomainError::UnsupportedOperation { .. } => e matches CanonicalError::Unimplemented { resource_type, detail }
            && holds_text(resource_type, TENANT_RESOURCE_TYPE@) && detail@ == UNSUPPORTED_OPERATION_DETAIL@,
        DomainError::Internal { diagnostic } => e matches CanonicalError::Internal { detail } && detail@
            == diagnostic@,
    }
}

/// The text of an optional string.
pub open spec fn opt_text(o: Option<String>) -> Option<Seq<char>> {
    match o {
        Some(t) => Some(t@),
        None => None,
    }
}

/// The resource type a canonical error names, in the categories that carry
/// one; `None` in the others.
pub open spec fn named_resource_type(e: CanonicalError) -> Option<Seq<char>> {
    match e {
        CanonicalError::InvalidArgument { resource_type, .. } => opt_text(resource_type),
        CanonicalError::NotFound { resource_type, .. } => opt_text(resource_type),
        CanonicalError::AlreadyExists { resource_type, .. } => opt_text(resource_type),
        CanonicalError::PermissionDenied { resource_type, .. } => opt_text(resource_type),
        CanonicalError::ResourceExhausted { resource_type, .. } => opt_text(resource_type),
        CanonicalError::FailedPrecondition { resource_type, .. } => opt_text(resource_type),
        CanonicalError::Aborted { resource_type, .. } => opt_text(resource_type),
        CanonicalError::Unimplemented { resource_type, .. } => opt_text(resource_type),
        _ => None,
    }
}

/// Every domain error's envelope names the resource it is about: a
/// conversion request's errors the conversion-request resource, a user's
/// errors the user resource, tenant-metadata errors the tenant-metadata
/// resource, every other tenant error the tenant resource; the availability
/// and internal errors name none.
pub proof fn law_each_domain_error_names_its_resource(d: DomainError, e: CanonicalError)
    requires
        ladder(d, e),
    ensures
        d is ConversionRequestNotFound || d is PendingExists || d is InvalidActorForTransition || d is AlreadyResolved
            ==> named_resource_type(e) == Some(CONVERSION_REQUEST_RESOURCE_TYPE@),
        d is IdpPasswordPolicy || d is UserNotFound || d is UserAlreadyExists ==> named_resource_type(e) == Some(
            USER_RESOURCE_TYPE@,
        ),
        d is MetadataValidation || d is MetadataEntryNotFound || d is MetadataVersionMismatch ==> named_resource_type(e)
            == Some(TENANT_METADATA_RESOURCE_TYPE@),
        d is InvalidTenantType || d is Validation || d is RootTenantCannotDelete || d is RootTenantCannotConvert
            || d is RootTenantCannotChangeStatus || d is IdpInvalidInput || d is NotFound || d is Aborted
            || d is AlreadyExists || d is TypeNotAllowed || d is TenantDepthExceeded || d is TenantHasChildren
            || d is TenantHasResources || d is Conflict || d is FeatureDisabled || d is CrossTenantDenied
            || d is IntegrityCheckInProgress || d is IntegrityCheckLeaseLost || d is UnsupportedOperation
            ==> named_resource_type(e) == Some(TENANT_RESOURCE_TYPE@),
        d is IdpUnavailable || d is ServiceUnavailable || d is Internal ==> named_resource_type(e) is None,
{
}

/// A field-violation `InvalidArgument` on `resource_type`.
fn invalid_argument(resource_type: &str, field: String, description: String, reason: &str) -> (e: CanonicalError)
    ensures
        invalid_argument_is(e, resource_type@, field@, description@, reason@),
{
    let mut field_violations: Vec<FieldViolation> = Vec::new();
    field_violations.push(FieldViolation { field, description, reason: owned(reason) });
    CanonicalError::InvalidArgument {
        ctx: InvalidArgument::FieldViolations { field_violations },
        resource_type: Some(owned(resource_type)),
        detail: owned(INVALID_ARGUMENT_DETAIL),
    }
}

/// A `FailedPrecondition` on `resource_type` with one violation.
fn failed_precondition(resource_type: &str, subject: &str, description: String, type_: &str) -> (e: CanonicalError)
    ensures
        failed_precondition_is(e, resource_type@, subject@, description@, type_@),
{
    let mut violations: Vec<PreconditionViolation> = Vec::new();
    violations.push(PreconditionViolation { type_: owned(type_), subject: owned(subject), description });
    CanonicalError::FailedPrecondition {
        violations,
        resource_type: Some(owned(resource_type)),
        resource_name: None,
        detail: owned(FAILED_PRECONDITION_DETAIL),
    }
}

/// A `ResourceExhausted` with one quota violation.
fn resource_exhausted(subject: &str, description: &str, detail: &str) -> (e: CanonicalError)
    ensures
        resource_exhausted_is(e, subject@, description@, detail@),
{
    let mut violations: Vec<QuotaViolation> = Vec::new();
    violations.push(QuotaViolation { subject: owned(subject), description: owned(description) });
    CanonicalError::ResourceExhausted {
        violations,
        resource_type: Some(owned(TENANT_RESOURCE_TYPE)),
        detail: owned(detail),
    }
}

impl CanonicalError {
    /// Classifies a domain error into the canonical envelope: one category per
    /// domain variant, with the resource type, the SDK's wire tokens, and
    /// fixed details where identity-provider text must not leak.
    pub fn from(err: DomainError) -> (e: Self)
        ensures
            ladder(err, e),
    {
        match err {
            DomainError::InvalidTenantType { detail } => invalid_argument(
                TENANT_RESOURCE_TYPE,
                owned(TENANT_TYPE_FIELD),
                detail,
                INVALID_TENANT_TYPE,
            ),
            DomainError::Validation { detail } => invalid_argument(
                TENANT_RESOURCE_TYPE,
                owned(REQUEST_FIELD),
                detail,
                VALIDATION,
            ),
            DomainError::MetadataValidation { detail } => invalid_argument(
                TENANT_METADATA_RESOURCE_TYPE,
                owned(METADATA_FIELD),
                detail,
                VALIDATION,
            ),
            DomainError::RootTenantCannotDelete => invalid_argument(
                TENANT_RESOURCE_TYPE,
                owned(TENANT_ID_FIELD),
                owned("root tenant cannot be deleted"),
                ROOT_TENANT_CANNOT_DELETE,
            ),
            DomainError::RootTenantCannotConvert => invalid_argument(
                TENANT_RESOURCE_TYPE,
                owned(TENANT_ID_FIELD),
                owned("root tenant cannot be converted"),
                ROOT_TENANT_CANNOT_CONVERT,
            ),
            DomainError::RootTenantCannotChangeStatus => invalid_argument(
                TENANT_RESOURCE_TYPE,
                owned(TENANT_ID_FIELD),
                owned("root tenant status cannot be changed"),
                ROOT_TENANT_CANNOT_CHANGE_STATUS,
            ),
            DomainError::IdpInvalidInput { detail, field } => {
                let field = match field {
                    Some(f) => f,
                    None => owned(PROVISIONING_METADATA_FIELD),
                };
                invalid_argument(TENANT_RESOURCE_TYPE, field, detail, IDP_INVALID_INPUT)
            },
            DomainError::IdpPasswordPolicy { detail } => invalid_argument(
                USER_RESOURCE_TYPE,
                owned(PASSWORD_FIELD),
                detail,
                PASSWORD_POLICY,
            ),
            DomainError::NotFound { detail, resource } => CanonicalError::NotFound {
                resource_type: Some(owned(TENANT_RESOURCE_TYPE)),
                resource_name: Some(resource),
                detail,
            },
            DomainError::UserNotFound { detail, resource } => CanonicalError::NotFound {
                resource_type: Some(owned(USER_RESOURCE_TYPE)),
                resource_name: Some(resource),
                detail,
            },
            DomainError::ConversionRequestNotFound { detail, resource } => CanonicalError::NotFound {
                resource_type: Some(owned(CONVERSION_REQUEST_RESOURCE_TYPE)),
                resource_name: Some(resource),
                detail,
            },
            DomainError::MetadataEntryNotFound { detail, entry } => CanonicalError::NotFound {
                resource_type: Some(owned(TENANT_METADATA_RESOURCE_TYPE)),
                resource_name: Some(entry),
                detail,
            },
            DomainError::MetadataVersionMismatch { entry, expected, current } => {
                let detail = owned("metadata version mismatch for ").concat(entry.as_str()).concat(
                    ": expected v",
                ).concat(decimal_text(expected).as_str()).concat(", stored v").concat(
                    decimal_text(current).as_str(),
                );
                CanonicalError::Aborted {
                    reason: owned(METADATA_VERSION_MISMATCH),
                    resource_type: Some(owned(TENANT_METADATA_RESOURCE_TYPE)),
                    resource_name: Some(entry),
                    detail,
                }
            },
            DomainError::Aborted { detail, .. } => CanonicalError::Aborted {
                reason: owned(SERIALIZATION_CONFLICT),
                resource_type: Some(owned(TENANT_RESOURCE_TYPE)),
                resource_name: None,
                detail,
            },
            DomainError::AlreadyExists { detail } => CanonicalError::AlreadyExists {
                resource_type: Some(owned(TENANT_RESOURCE_TYPE)),
                resource_name: Some(owned("tenant")),
                detail,
            },
            DomainError::UserAlreadyExists { field_phrase, field_token } => CanonicalError::AlreadyExists {
                resource_type: Some(owned(USER_RESOURCE_TYPE)),
                resource_name: Some(field_token),
                detail: owned("a user with this ").concat(field_phrase.as_str()).concat(" already exists"),
            },
            DomainError::PendingExists { request_id } => {
                let detail = owned("a pending conversion request already exists: ").concat(request_id.as_str());
                CanonicalError::AlreadyExists {
                    resource_type: Some(owned(CONVERSION_REQUEST_RESOURCE_TYPE)),
                    resource_name: Some(request_id),
                    detail,
                }
            },
            DomainError::TypeNotAllowed { detail } => failed_precondition(
                TENANT_RESOURCE_TYPE,
                TENANT_TYPE_SUBJECT,
                detail,
                TYPE_NOT_ALLOWED_TYPE,
            ),
            DomainError::TenantDepthExceeded { detail } => failed_precondition(
                TENANT_RESOURCE_TYPE,
                DEPTH_SUBJECT,
                detail,
                TENANT_DEPTH_EXCEEDED_TYPE,
            ),
            DomainError::TenantHasChildren => failed_precondition(
                TENANT_RESOURCE_TYPE,
                TENANT_SUBJECT,
                owned("tenant has child tenants"),
                TENANT_HAS_CHILDREN_TYPE,
            ),
            DomainError::TenantHasResources => failed_precondition(
                TENANT_RESOURCE_TYPE,
                TENANT_SUBJECT,
                owned("tenant still owns resources"),
                TENANT_HAS_RESOURCES_TYPE,
            ),
            DomainError::InvalidActorForTransition { attempted_status, caller_side } => {
                let description = owned("invalid actor for conversion transition: attempted=").concat(
                    attempted_status.as_str(),
                ).concat(" caller_side=").concat(caller_side.as_str());
                failed_precondition(
                    CONVERSION_REQUEST_RESOURCE_TYPE,
                    CONVERSION_REQUEST_SUBJECT,
                    description,
                    INVALID_ACTOR_FOR_TRANSITION_TYPE,
                )
            },
            DomainError::AlreadyResolved => failed_precondition(
                CONVERSION_REQUEST_RESOURCE_TYPE,
                CONVERSION_REQUEST_SUBJECT,
                owned("conversion request already resolved"),
                ALREADY_RESOLVED_TYPE,
            ),
            DomainError::Conflict { detail } => failed_precondition(
                TENANT_RESOURCE_TYPE,
                REQUEST_SUBJECT,
                detail,
                PRECONDITION_FAILED_TYPE,
            ),
            DomainError::FeatureDisabled { detail } => failed_precondition(
                TENANT_RESOURCE_TYPE,
                CONFIGURATION_SUBJECT,
                detail,
                FEATURE_DISABLED_TYPE,
            ),
            DomainError::CrossTenantDenied => CanonicalError::PermissionDenied {
                reason: owned(CROSS_TENANT_DENIED),
                resource_type: Some(owned(TENANT_RESOURCE_TYPE)),
                detail: owned(PERMISSION_DENIED_DETAIL),
            },
            DomainError::IntegrityCheckInProgress => resource_exhausted(
                INTEGRITY_CHECK,
                "another integrity check is already in progress",
                "integrity check already in progress",
            ),
            DomainError::IntegrityCheckLeaseLost => resource_exhausted(
                INTEGRITY_CHECK,
                "integrity repair aborted; another worker took the lease",
                "integrity repair aborted: lease lost to a peer",
            ),
            DomainError::IdpUnavailable { .. } => CanonicalError::ServiceUnavailable {
                retry_after_seconds: None,
                detail: owned(IDP_UNAVAILABLE_DETAIL),
            },
            DomainError::ServiceUnavailable { detail, retry_after_secs } => {
                let retry_after_seconds = match retry_after_secs {
                    Some(secs) => {
                        if secs <= 4294967295u64 {
                            Some(secs)
                        } else {
                            Some(4294967295u64)
                        }
                    },
                    None => None,
                };
                CanonicalError::ServiceUnavailable { retry_after_seconds, detail }
            },
            DomainError::UnsupportedOperation { .. } => CanonicalError::Unimplemented {
                resource_type: Some(owned(TENANT_RESOURCE_TYPE)),
                detail: owned(UNSUPPORTED_OPERATION_DETAIL),
            },
            DomainError::Internal { diagnostic } => CanonicalError::Internal { detail: diagnostic },
        }
    }
}

/// Whether `r` is the typed `InvalidArgument` with `field`, `reason` and `detail`.
pub open spec fn typed_invalid_argument(r: AccountManagementError, field: Seq<char>, reason: ValidationReason, detail: Seq<char>) -> bool {
    r matches AccountManagementError::InvalidArgument { field: f, reason: rs, detail: d } && f@ == field && rs == reason
        && d@ == detail
}

/// Whether `r` is the typed `FailedPrecondition` with `subject`, `type_` and `detail`.
pub open spec fn typed_precondition(r: AccountManagementError, subject: Subject, type_: Seq<char>, detail: Seq<char>) -> bool {
    r matches AccountManagementError::FailedPrecondition { subject: s, type_: t, detail: d } && s == subject && t@
        == type_ && d@ == detail
}

/// Whether `r` is the typed `NotFound` of `name` of `resource_type`.
pub open spec fn typed_not_found(r: AccountManagementError, resource_type: Seq<char>, name: Seq<char>, detail: Seq<char>) -> bool {
    r matches AccountManagementError::NotFound { resource_type: rt, name: n, detail: d } && rt@ == resource_type && n@
        == name && d@ == detail
}

/// Whether `r` is the typed `AlreadyExists` of `name` of `resource_type`.
pub open spec fn typed_already_exists(r: AccountManagementError, resource_type: Seq<char>, name: Seq<char>, detail: Seq<char>) -> bool {
    r matches AccountManagementError::AlreadyExists { resource_type: rt, name: n, detail: d } && rt@ == resource_type
        && n@ == name && d@ == detail
}

/// Whether `r` is the SDK's typed view of the domain error `d`.
pub open spec fn sdk_view(d: DomainError, r: AccountManagementError) -> bool {
    match d {
        DomainError::InvalidTenantType { detail } => typed_invalid_argument(
            r,
            TENANT_TYPE_FIELD@,
            ValidationReason::InvalidTenantType,
            detail@,
        ),
        DomainError::Validation { detail } => typed_invalid_argument(r, REQUEST_FIELD@, ValidationReason::Validation, detail@),
        DomainError::MetadataValidation { detail } => typed_invalid_argument(
            r,
            METADATA_FIELD@,
            ValidationReason::Validation,
            detail@,
        ),
        DomainError::RootTenantCannotDelete => typed_invalid_argument(
            r,
            TENANT_ID_FIELD@,
            ValidationReason::RootTenantCannotDelete,
            "root tenant cannot be deleted"@,
        ),
        DomainError::RootTenantCannotConvert => typed_invalid_argument(
            r,
            TENANT_ID_FIELD@,
            ValidationReason::RootTenantCannotConvert,
            "root tenant cannot be converted"@,
        ),
        DomainError::RootTenantCannotChangeStatus => typed_invalid_argument(
            r,
            TENANT_ID_FIELD@,
            ValidationReason::RootTenantCannotChangeStatus,
            "root tenant status cannot be changed"@,
        ),
        DomainError::IdpInvalidInput { detail, field } => typed_invalid_argument(
            r,
            match field {
                Some(f) => f@,
                None => PROVISIONING_METADATA_FIELD@,
            },
            ValidationReason::IdpInvalidInput,
            detail@,
        ),
        DomainError::IdpPasswordPolicy { detail } => typed_invalid_argument(
            r,
            PASSWORD_FIELD@,
            ValidationReason::PasswordPolicy,
            detail@,
        ),
        DomainError::NotFound { detail, resource } => typed_not_found(r, TENANT_RESOURCE_TYPE@, resource@, detail@),
        DomainError::UserNotFound { detail, resource } => typed_not_found(r, USER_RESOURCE_TYPE@, resource@, detail@),
        DomainError::ConversionRequestNotFound { detail, resource } => typed_not_found(
            r,
            CONVERSION_REQUEST_RESOURCE_TYPE@,
            resource@,
            detail@,
        ),
        DomainError::MetadataEntryNotFound { detail, entry } => typed_not_found(
            r,
            TENANT_METADATA_RESOURCE_TYPE@,
            entry@,
            detail@,
        ),
        DomainError::MetadataVersionMismatch { entry, expected, current } => r matches AccountManagementError::Aborted {
            reason,
            detail,
        } && reason@ == METADATA_VERSION_MISMATCH@ && detail@ == version_mismatch_detail(entry@, expected, current),
        DomainError::Aborted { detail, .. } => r matches AccountManagementError::Aborted { reason, detail: d } && reason@
            == SERIALIZATION_CONFLICT@ && d@ == detail@,
        DomainError::AlreadyExists { detail } => typed_already_exists(r, TENANT_RESOURCE_TYPE@, "tenant"@, detail@),
        DomainError::UserAlreadyExists { field_phrase, field_token } => typed_already_exists(
            r,
            USER_RESOURCE_TYPE@,
            field_token@,
            "a user with this "@ + field_phrase@ + " already exists"@,
        ),
        DomainError::PendingExists { request_id } => typed_already_exists(
            r,
            CONVERSION_REQUEST_RESOURCE_TYPE@,
            request_id@,
            "a pending conversion request already exists: "@ + request_id@,
        ),
        DomainError::TypeNotAllowed { detail } => typed_precondition(r, Subject::TenantType, TYPE_NOT_ALLOWED_TYPE@, detail@),
        DomainError::TenantDepthExceeded { detail } => typed_precondition(
            r,
            Subject::Depth,
            TENANT_DEPTH_EXCEEDED_TYPE@,
            detail@,
        ),
        DomainError::TenantHasChildren => typed_precondition(
            r,
            Subject::Tenant,
            TENANT_HAS_CHILDREN_TYPE@,
            "tenant has child tenants"@,
        ),
        DomainError::TenantHasResources => typed_precondition(
            r,
            Subject::Tenant,
            TENANT_HAS_RESOURCES_TYPE@,
            "tenant still owns resources"@,
        ),
        DomainError::InvalidActorForTransition { attempted_status, caller_side } => typed_precondition(
            r,
            Subject::ConversionRequest,
            INVALID_ACTOR_FOR_TRANSITION_TYPE@,
            invalid_actor_detail(attempted_status@, caller_side@),
        ),
        DomainError::AlreadyResolved => typed_precondition(
            r,
            Subject::ConversionRequest,
            ALREADY_RESOLVED_TYPE@,
            "conversion request already resolved"@,
        ),
        DomainError::Conflict { detail } => typed_precondition(r, Subject::Request, PRECONDITION_FAILED_TYPE@, detail@),
        DomainError::FeatureDisabled { detail } => typed_precondition(
            r,
            Subject::Configuration,
            FEATURE_DISABLED_TYPE@,
            detail@,
        ),
        DomainError::CrossTenantDenied => r matches AccountManagementError::PermissionDenied { reason, detail }
            && reason@ == CROSS_TENANT_DENIED@ && detail@ == PERMISSION_DENIED_DETAIL@,
        DomainError::IntegrityCheckInProgress => r matches AccountManagementError::ResourceExhausted { subject, detail }
            && subject@ == INTEGRITY_CHECK@ && detail@ == "integrity check already in progress"@,
        DomainError::IntegrityCheckLeaseLost => r matches AccountManagementError::ResourceExhausted { subject, detail }
            && subject@ == INTEGRITY_CHECK@ && detail@ == "integrity repair aborted: lease lost to a peer"@,
        DomainError::IdpUnavailable { .. } => r matches AccountManagementError::Unavailable {
            retry_after_seconds,
            detail,
        } && retry_after_seconds is None && detail@ == IDP_UNAVAILABLE_DETAIL@,
        DomainError::ServiceUnavailable { detail, retry_after_secs } => r matches AccountManagementError::Unavailable {
            retry_after_seconds,
            detail: d,
        } && d@ == detail@ && retry_after_seconds == match retry_after_secs {
            Some(secs) => Some(announced_retry(secs)),
            None => None,
        },
        DomainError::UnsupportedOperation { .. } => r matches AccountManagementError::Unimplemented { detail } && detail@
            == UNSUPPORTED_OPERATION_DETAIL@,
        DomainError::Internal { diagnostic } => r matches AccountManagementError::Internal { detail } && detail@
            == diagnostic@,
    }
}

/// Every domain error that crosses the canonical boundary comes back through
/// the SDK's typed projection in its own category, with its resource type,
/// wire tokens and detail intact; its reason or subject arrives as the
/// modeled variant, never as an unknown string.
pub proof fn law_domain_error_reaches_sdk_view(d: DomainError, e: CanonicalError, r: AccountManagementError)
    requires
        ladder(d, e),
        projects(e, r),
    ensures
        sdk_view(d, r),
{
    let expected_reason: Option<ValidationReason> = match d {
        DomainError::InvalidTenantType { .. } => Some(ValidationReason::InvalidTenantType),
        DomainError::Validation { .. } => Some(ValidationReason::Validation),
        DomainError::MetadataValidation { .. } => Some(ValidationReason::Validation),
        DomainError::RootTenantCannotDelete => Some(ValidationReason::RootTenantCannotDelete),
        DomainError::RootTenantCannotConvert => Some(ValidationReason::RootTenantCannotConvert),
        DomainError::RootTenantCannotChangeStatus => Some(ValidationReason::RootTenantCannotChangeStatus),
        DomainError::IdpInvalidInput { .. } => Some(ValidationReason::IdpInvalidInput),
        DomainError::IdpPasswordPolicy { .. } => Some(ValidationReason::PasswordPolicy),
        _ => None,
    };
    let expected_subject: Option<Subject> = match d {
        DomainError::TypeNotAllowed { .. } => Some(Subject::TenantType),
        DomainError::TenantDepthExceeded { .. } => Some(Subject::Depth),
        DomainError::TenantHasChildren => Some(Subject::Tenant),
        DomainError::TenantHasResources => Some(Subject::Tenant),
        DomainError::InvalidActorForTransition { .. } => Some(Subject::ConversionRequest),
        DomainError::AlreadyResolved => Some(Subject::ConversionRequest),
        DomainError::Conflict { .. } => Some(Subject::Request),
        DomainError::FeatureDisabled { .. } => Some(Subject::Configuration),
        _ => None,
    };
    match r {
        AccountManagementError::InvalidArgument { reason, .. } => {
            if let Some(want) = expected_reason {
                lemma_reason_round_trip(want, reason);
            }
        },
        AccountManagementError::FailedPrecondition { subject, .. } => {
            if let Some(want) = expected_subject {
                lemma_subject_round_trip(want, subject);
            }
        },
        _ => {},
    }
}

} // verus!
