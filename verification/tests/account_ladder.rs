use gears::account::domain::DomainError;
use gears::account::error::AccountManagementError;
use gears::account::field::{self, ValidationReason};
use gears::account::gts;
use gears::account::ladder;
use gears::account::precondition::{self, Subject};
use gears::account::quota;
use gears::account::reason;
use gears::canonical::{self, CanonicalError, InvalidArgument};

fn s(text: &str) -> String {
    text.to_owned()
}

fn round_trip(d: DomainError) -> AccountManagementError {
    AccountManagementError::from(CanonicalError::from(d))
}

#[test]
fn invalid_tenant_type_is_a_tenant_field_violation() {
    match CanonicalError::from(DomainError::InvalidTenantType { detail: s("no such type") }) {
        CanonicalError::InvalidArgument { ctx: InvalidArgument::FieldViolations { field_violations }, resource_type, detail } => {
            assert_eq!(resource_type.as_deref(), Some(gts::TENANT_RESOURCE_TYPE));
            assert_eq!(detail, canonical::INVALID_ARGUMENT_DETAIL);
            assert_eq!(field_violations.len(), 1);
            assert_eq!(field_violations[0].field, field::TENANT_TYPE_FIELD);
            assert_eq!(field_violations[0].description, "no such type");
            assert_eq!(field_violations[0].reason, field::INVALID_TENANT_TYPE);
        }
        other => panic!("expected InvalidArgument, got {other:?}"),
    }
}

#[test]
fn metadata_validation_carries_the_metadata_resource_type() {
    match CanonicalError::from(DomainError::MetadataValidation { detail: s("bad body") }) {
        CanonicalError::InvalidArgument { resource_type, .. } => {
            assert_eq!(resource_type.as_deref(), Some(gts::TENANT_METADATA_RESOURCE_TYPE));
        }
        other => panic!("expected InvalidArgument, got {other:?}"),
    }
}

#[test]
fn idp_invalid_input_falls_back_to_the_provisioning_field() {
    match round_trip(DomainError::IdpInvalidInput { detail: s("realm"), field: None }) {
        AccountManagementError::InvalidArgument { field, reason, detail } => {
            assert_eq!(field, field::PROVISIONING_METADATA_FIELD);
            assert_eq!(reason, ValidationReason::IdpInvalidInput);
            assert_eq!(detail, "realm");
        }
        other => panic!("expected InvalidArgument, got {other:?}"),
    }
    match round_trip(DomainError::IdpInvalidInput {
        detail: s("realm"),
        field: Some(s("provisioning_metadata.realm_name")),
    }) {
        AccountManagementError::InvalidArgument { field, .. } => {
            assert_eq!(field, "provisioning_metadata.realm_name");
        }
        other => panic!("expected InvalidArgument, got {other:?}"),
    }
}

#[test]
fn password_policy_is_a_user_password_violation() {
    match CanonicalError::from(DomainError::IdpPasswordPolicy { detail: s("too short") }) {
        CanonicalError::InvalidArgument { ctx: InvalidArgument::FieldViolations { field_violations }, resource_type, .. } => {
            assert_eq!(resource_type.as_deref(), Some(gts::USER_RESOURCE_TYPE));
            assert_eq!(field_violations[0].field, field::PASSWORD_FIELD);
            assert_eq!(field_violations[0].reason, field::PASSWORD_POLICY);
        }
        other => panic!("expected InvalidArgument, got {other:?}"),
    }
}

#[test]
fn root_tenant_guards_use_fixed_descriptions() {
    match round_trip(DomainError::RootTenantCannotDelete) {
        AccountManagementError::InvalidArgument { field, reason, detail } => {
            assert_eq!(field, field::TENANT_ID_FIELD);
            assert_eq!(reason, ValidationReason::RootTenantCannotDelete);
            assert_eq!(detail, "root tenant cannot be deleted");
        }
        other => panic!("expected InvalidArgument, got {other:?}"),
    }
    assert!(matches!(
        round_trip(DomainError::RootTenantCannotConvert),
        AccountManagementError::InvalidArgument { reason: ValidationReason::RootTenantCannotConvert, .. }
    ));
    assert!(matches!(
        round_trip(DomainError::RootTenantCannotChangeStatus),
        AccountManagementError::InvalidArgument { reason: ValidationReason::RootTenantCannotChangeStatus, .. }
    ));
}

#[test]
fn not_found_variants_name_their_resource_type() {
    let cases = [
        (DomainError::NotFound { detail: s("gone"), resource: s("t-1") }, gts::TENANT_RESOURCE_TYPE),
        (DomainError::UserNotFound { detail: s("gone"), resource: s("u-1") }, gts::USER_RESOURCE_TYPE),
        (
            DomainError::ConversionRequestNotFound { detail: s("gone"), resource: s("c-1") },
            gts::CONVERSION_REQUEST_RESOURCE_TYPE,
        ),
        (
            DomainError::MetadataEntryNotFound { detail: s("gone"), entry: s("gts.x~") },
            gts::TENANT_METADATA_RESOURCE_TYPE,
        ),
    ];
    for (d, expected_type) in cases {
        match round_trip(d) {
            AccountManagementError::NotFound { resource_type, name, detail } => {
                assert_eq!(resource_type, expected_type);
                assert!(!name.is_empty());
                assert_eq!(detail, "gone");
            }
            other => panic!("expected NotFound, got {other:?}"),
        }
    }
}

#[test]
fn metadata_version_mismatch_spells_both_versions() {
    let d = DomainError::MetadataVersionMismatch { entry: s("gts.acme.meta.v1~"), expected: 3, current: 12 };
    match CanonicalError::from(d) {
        CanonicalError::Aborted { reason, resource_type, resource_name, detail } => {
            assert_eq!(resource_type.as_deref(), Some(gts::TENANT_METADATA_RESOURCE_TYPE));
            assert_eq!(reason, reason::aborted::METADATA_VERSION_MISMATCH);
            assert_eq!(resource_name.as_deref(), Some("gts.acme.meta.v1~"));
            assert_eq!(detail, "metadata version mismatch for gts.acme.meta.v1~: expected v3, stored v12");
        }
        other => panic!("expected Aborted, got {other:?}"),
    }
}

#[test]
fn tenant_categories_carry_the_tenant_resource_type() {
    for d in [
        DomainError::Aborted { reason: s("r"), detail: s("d") },
        DomainError::CrossTenantDenied,
        DomainError::IntegrityCheckInProgress,
        DomainError::UnsupportedOperation { detail: s("x") },
    ] {
        let rt = match CanonicalError::from(d) {
            CanonicalError::Aborted { resource_type, .. } => resource_type,
            CanonicalError::PermissionDenied { resource_type, .. } => resource_type,
            CanonicalError::ResourceExhausted { resource_type, .. } => resource_type,
            CanonicalError::Unimplemented { resource_type, .. } => resource_type,
            other => panic!("unexpected category {other:?}"),
        };
        assert_eq!(rt.as_deref(), Some(gts::TENANT_RESOURCE_TYPE));
    }
}

#[test]
fn serialization_abort_uses_the_fixed_reason() {
    match round_trip(DomainError::Aborted { reason: s("retry budget"), detail: s("conflict") }) {
        AccountManagementError::Aborted { reason, detail } => {
            assert_eq!(reason, reason::aborted::SERIALIZATION_CONFLICT);
            assert_eq!(detail, "conflict");
        }
        other => panic!("expected Aborted, got {other:?}"),
    }
}

#[test]
fn already_exists_variants() {
    match round_trip(DomainError::AlreadyExists { detail: s("dup") }) {
        AccountManagementError::AlreadyExists { resource_type, name, detail } => {
            assert_eq!(resource_type, gts::TENANT_RESOURCE_TYPE);
            assert_eq!(name, "tenant");
            assert_eq!(detail, "dup");
        }
        other => panic!("expected AlreadyExists, got {other:?}"),
    }
    match round_trip(DomainError::UserAlreadyExists { field_phrase: s("username"), field_token: s("username") }) {
        AccountManagementError::AlreadyExists { resource_type, name, detail } => {
            assert_eq!(resource_type, gts::USER_RESOURCE_TYPE);
            assert_eq!(name, "username");
            assert_eq!(detail, "a user with this username already exists");
        }
        other => panic!("expected AlreadyExists, got {other:?}"),
    }
    match round_trip(DomainError::PendingExists { request_id: s("r-42") }) {
        AccountManagementError::AlreadyExists { resource_type, name, detail } => {
            assert_eq!(resource_type, gts::CONVERSION_REQUEST_RESOURCE_TYPE);
            assert_eq!(name, "r-42");
            assert_eq!(detail, "a pending conversion request already exists: r-42");
        }
        other => panic!("expected AlreadyExists, got {other:?}"),
    }
}

#[test]
fn preconditions_project_to_modeled_subjects() {
    let cases = [
        (DomainError::TypeNotAllowed { detail: s("d") }, Subject::TenantType, precondition::TYPE_NOT_ALLOWED_TYPE),
        (DomainError::TenantDepthExceeded { detail: s("d") }, Subject::Depth, precondition::TENANT_DEPTH_EXCEEDED_TYPE),
        (DomainError::TenantHasChildren, Subject::Tenant, precondition::TENANT_HAS_CHILDREN_TYPE),
        (DomainError::TenantHasResources, Subject::Tenant, precondition::TENANT_HAS_RESOURCES_TYPE),
        (DomainError::AlreadyResolved, Subject::ConversionRequest, precondition::ALREADY_RESOLVED_TYPE),
        (DomainError::Conflict { detail: s("d") }, Subject::Request, precondition::PRECONDITION_FAILED_TYPE),
        (DomainError::FeatureDisabled { detail: s("d") }, Subject::Configuration, precondition::FEATURE_DISABLED_TYPE),
    ];
    for (d, subject, type_) in cases {
        match round_trip(d) {
            AccountManagementError::FailedPrecondition { subject: got, type_: got_type, .. } => {
                assert_eq!(got, subject);
                assert_eq!(got_type, type_);
            }
            other => panic!("expected FailedPrecondition, got {other:?}"),
        }
    }
}

#[test]
fn invalid_actor_transition_spells_status_and_side() {
    let d = DomainError::InvalidActorForTransition { attempted_status: s("approved"), caller_side: s("child") };
    match round_trip(d) {
        AccountManagementError::FailedPrecondition { subject, type_, detail } => {
            assert_eq!(subject, Subject::ConversionRequest);
            assert_eq!(type_, precondition::INVALID_ACTOR_FOR_TRANSITION_TYPE);
            assert_eq!(detail, "invalid actor for conversion transition: attempted=approved caller_side=child");
        }
        other => panic!("expected FailedPrecondition, got {other:?}"),
    }
}

#[test]
fn cross_tenant_denial_is_permission_denied() {
    match round_trip(DomainError::CrossTenantDenied) {
        AccountManagementError::PermissionDenied { reason, detail } => {
            assert_eq!(reason, reason::permission::CROSS_TENANT_DENIED);
            assert_eq!(detail, canonical::PERMISSION_DENIED_DETAIL);
        }
        other => panic!("expected PermissionDenied, got {other:?}"),
    }
}

#[test]
fn integrity_checks_are_quota_exhaustion() {
    match round_trip(DomainError::IntegrityCheckInProgress) {
        AccountManagementError::ResourceExhausted { subject, detail } => {
            assert_eq!(subject, quota::INTEGRITY_CHECK);
            assert_eq!(detail, "integrity check already in progress");
        }
        other => panic!("expected ResourceExhausted, got {other:?}"),
    }
    match round_trip(DomainError::IntegrityCheckLeaseLost) {
        AccountManagementError::ResourceExhausted { subject, detail } => {
            assert_eq!(subject, quota::INTEGRITY_CHECK);
            assert_eq!(detail, "integrity repair aborted: lease lost to a peer");
        }
        other => panic!("expected ResourceExhausted, got {other:?}"),
    }
}

#[test]
fn provider_text_is_redacted() {
    match round_trip(DomainError::IdpUnavailable { detail: s("vendor stack trace") }) {
        AccountManagementError::Unavailable { retry_after_seconds, detail } => {
            assert_eq!(retry_after_seconds, None);
            assert_eq!(detail, "IdP plugin unavailable");
        }
        other => panic!("expected Unavailable, got {other:?}"),
    }
    match round_trip(DomainError::UnsupportedOperation { detail: s("vendor text") }) {
        AccountManagementError::Unimplemented { detail } => {
            assert_eq!(detail, "operation not supported by the IdP provider");
        }
        other => panic!("expected Unimplemented, got {other:?}"),
    }
}

#[test]
fn service_unavailable_caps_the_retry_hint() {
    match round_trip(DomainError::ServiceUnavailable { detail: s("db down"), retry_after_secs: Some(30) }) {
        AccountManagementError::Unavailable { retry_after_seconds, detail } => {
            assert_eq!(retry_after_seconds, Some(30));
            assert_eq!(detail, "db down");
        }
        other => panic!("expected Unavailable, got {other:?}"),
    }
    match round_trip(DomainError::ServiceUnavailable { detail: s("db down"), retry_after_secs: Some(u64::MAX) }) {
        AccountManagementError::Unavailable { retry_after_seconds, .. } => {
            assert_eq!(retry_after_seconds, Some(u64::from(u32::MAX)));
        }
        other => panic!("expected Unavailable, got {other:?}"),
    }
    match round_trip(DomainError::ServiceUnavailable { detail: s("db down"), retry_after_secs: None }) {
        AccountManagementError::Unavailable { retry_after_seconds, .. } => assert_eq!(retry_after_seconds, None),
        other => panic!("expected Unavailable, got {other:?}"),
    }
}

#[test]
fn internal_keeps_the_diagnostic() {
    match round_trip(DomainError::Internal { diagnostic: s("boom") }) {
        AccountManagementError::Internal { detail } => assert_eq!(detail, "boom"),
        other => panic!("expected Internal, got {other:?}"),
    }
}

#[test]
fn validation_variants_keep_their_detail() {
    match round_trip(DomainError::Validation { detail: s("name too long") }) {
        AccountManagementError::InvalidArgument { field, reason, detail } => {
            assert_eq!(field, field::REQUEST_FIELD);
            assert_eq!(reason, ValidationReason::Validation);
            assert_eq!(detail, "name too long");
        }
        other => panic!("expected InvalidArgument, got {other:?}"),
    }
    match round_trip(DomainError::MetadataValidation { detail: s("schema") }) {
        AccountManagementError::InvalidArgument { field, reason, .. } => {
            assert_eq!(field, field::METADATA_FIELD);
            assert_eq!(reason, ValidationReason::Validation);
        }
        other => panic!("expected InvalidArgument, got {other:?}"),
    }
}
