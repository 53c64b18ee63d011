//! Every wire-string constant the typed projections introduce, carried in
//! the canonical envelope, comes back unchanged through the projection.
use gears::account::error::AccountManagementError;
use gears::account::{field, gts, precondition, quota, reason};
use gears::canonical::{CanonicalError, FieldViolation, InvalidArgument, PreconditionViolation, QuotaViolation};
use gears::nodes_registry::error::NodesRegistryError;
use gears::nodes_registry::field as nodes_field;
use gears::nodes_registry::gts as nodes_gts;
use gears::types_registry::error::TypesRegistryError;
use gears::types_registry::field as types_field;
use gears::types_registry::gts as types_gts;
use gears::types_registry::precondition as types_precondition;

fn s(text: &str) -> String {
    text.to_owned()
}

fn field_violation(resource_type: &str, field: &str, description: &str, reason: &str) -> CanonicalError {
    CanonicalError::InvalidArgument {
        ctx: InvalidArgument::FieldViolations {
            field_violations: vec![FieldViolation { field: s(field), description: s(description), reason: s(reason) }],
        },
        resource_type: Some(s(resource_type)),
        detail: s("Invalid argument"),
    }
}

fn precondition_violation(resource_type: &str, subject: &str, description: &str, type_: &str) -> CanonicalError {
    CanonicalError::FailedPrecondition {
        violations: vec![PreconditionViolation { type_: s(type_), subject: s(subject), description: s(description) }],
        resource_type: Some(s(resource_type)),
        resource_name: None,
        detail: s("Precondition failed"),
    }
}

fn not_found(resource_type: &str) -> CanonicalError {
    CanonicalError::NotFound { resource_type: Some(s(resource_type)), resource_name: Some(s("x")), detail: s("x") }
}

#[test]
fn gts_resource_types_round_trip_to_context_resource_type() {
    for expected in [
        gts::TENANT_RESOURCE_TYPE,
        gts::USER_RESOURCE_TYPE,
        gts::TENANT_METADATA_RESOURCE_TYPE,
        gts::CONVERSION_REQUEST_RESOURCE_TYPE,
    ] {
        match AccountManagementError::from(not_found(expected)) {
            AccountManagementError::NotFound { resource_type, .. } => {
                assert_eq!(resource_type, expected, "resource type {expected} must round-trip into context.resource_type");
            }
            other => panic!("expected NotFound, got {other:?}"),
        }
    }
}

#[test]
fn field_reason_constants_round_trip_to_field_violations() {
    for code in [
        field::INVALID_TENANT_TYPE,
        field::VALIDATION,
        field::ROOT_TENANT_CANNOT_DELETE,
        field::ROOT_TENANT_CANNOT_CONVERT,
        field::ROOT_TENANT_CANNOT_CHANGE_STATUS,
        field::IDP_INVALID_INPUT,
    ] {
        let err = field_violation(gts::TENANT_RESOURCE_TYPE, "test_field", "test description", code);
        match AccountManagementError::from(err) {
            AccountManagementError::InvalidArgument { reason, .. } => {
                assert_eq!(reason.as_wire(), code, "field reason {code} must round-trip into field_violations[].reason");
            }
            other => panic!("expected InvalidArgument, got {other:?}"),
        }
    }
}

#[test]
fn field_name_constants_round_trip_to_field_violations() {
    for name in [
        field::TENANT_TYPE_FIELD,
        field::REQUEST_FIELD,
        field::METADATA_FIELD,
        field::TENANT_ID_FIELD,
        field::PROVISIONING_METADATA_FIELD,
    ] {
        let err = field_violation(gts::TENANT_RESOURCE_TYPE, name, "test description", field::VALIDATION);
        match AccountManagementError::from(err) {
            AccountManagementError::InvalidArgument { field: projected, .. } => {
                assert_eq!(projected, name, "field name {name} must round-trip into field_violations[].field");
            }
            other => panic!("expected InvalidArgument, got {other:?}"),
        }
    }
}

#[test]
fn precondition_subject_constants_round_trip_to_violations() {
    for subject in [
        precondition::TENANT_TYPE_SUBJECT,
        precondition::DEPTH_SUBJECT,
        precondition::TENANT_SUBJECT,
        precondition::REQUEST_SUBJECT,
        precondition::CONFIGURATION_SUBJECT,
        precondition::CONVERSION_REQUEST_SUBJECT,
    ] {
        let err = precondition_violation(gts::TENANT_RESOURCE_TYPE, subject, "test description", "TEST_TYPE");
        match AccountManagementError::from(err) {
            AccountManagementError::FailedPrecondition { subject: projected, .. } => {
                assert_eq!(projected.as_wire(), subject, "subject {subject} must round-trip into violations[].subject");
            }
            other => panic!("expected FailedPrecondition, got {other:?}"),
        }
    }
}

#[test]
fn precondition_type_constants_round_trip_to_violations() {
    for type_ in [
        precondition::TYPE_NOT_ALLOWED_TYPE,
        precondition::TENANT_DEPTH_EXCEEDED_TYPE,
        precondition::TENANT_HAS_CHILDREN_TYPE,
        precondition::TENANT_HAS_RESOURCES_TYPE,
        precondition::PRECONDITION_FAILED_TYPE,
        precondition::FEATURE_DISABLED_TYPE,
        precondition::INVALID_ACTOR_FOR_TRANSITION_TYPE,
        precondition::ALREADY_RESOLVED_TYPE,
    ] {
        let err = precondition_violation(gts::TENANT_RESOURCE_TYPE, "test_subject", "test description", type_);
        match AccountManagementError::from(err) {
            AccountManagementError::FailedPrecondition { type_: projected, .. } => {
                assert_eq!(projected, type_, "type {type_} must round-trip into violations[].type");
            }
            other => panic!("expected FailedPrecondition, got {other:?}"),
        }
    }
}

#[test]
fn aborted_reason_constants_round_trip_to_context_reason() {
    for r in [reason::aborted::METADATA_VERSION_MISMATCH, reason::aborted::SERIALIZATION_CONFLICT] {
        let err = CanonicalError::Aborted {
            reason: s(r),
            resource_type: Some(s(gts::TENANT_RESOURCE_TYPE)),
            resource_name: None,
            detail: s("conflict"),
        };
        match AccountManagementError::from(err) {
            AccountManagementError::Aborted { reason: projected, .. } => {
                assert_eq!(projected, r, "aborted reason {r} must round-trip into context.reason");
            }
            other => panic!("expected Aborted, got {other:?}"),
        }
    }
}

#[test]
fn permission_reason_constant_round_trips_to_context_reason() {
    let r = reason::permission::CROSS_TENANT_DENIED;
    let err = CanonicalError::PermissionDenied {
        reason: s(r),
        resource_type: Some(s(gts::TENANT_RESOURCE_TYPE)),
        detail: s("You do not have permission to perform this operation"),
    };
    match AccountManagementError::from(err) {
        AccountManagementError::PermissionDenied { reason: projected, .. } => assert_eq!(projected, r),
        other => panic!("expected PermissionDenied, got {other:?}"),
    }
}

#[test]
fn quota_subject_constant_round_trips_to_violations() {
    let err = CanonicalError::ResourceExhausted {
        violations: vec![QuotaViolation { subject: s(quota::INTEGRITY_CHECK), description: s("another check is in progress") }],
        resource_type: Some(s(gts::TENANT_RESOURCE_TYPE)),
        detail: s("integrity check already in progress"),
    };
    match AccountManagementError::from(err) {
        AccountManagementError::ResourceExhausted { subject, .. } => assert_eq!(subject, quota::INTEGRITY_CHECK),
        other => panic!("expected ResourceExhausted, got {other:?}"),
    }
}

#[test]
fn gts_resource_type_round_trips_to_context_resource_type() {
    match TypesRegistryError::from(not_found(types_gts::TYPE_RESOURCE_TYPE)) {
        TypesRegistryError::NotFound { resource_type, .. } => {
            assert_eq!(resource_type, types_gts::TYPE_RESOURCE_TYPE, "resource type must round-trip into context.resource_type");
        }
        other => panic!("expected NotFound, got {other:?}"),
    }
}

#[test]
fn error_tests_field_reason_constants_round_trip_to_field_violations() {
    for (field_name, reason) in [
        (types_field::GTS_ID_FIELD, types_field::INVALID_GTS_ID),
        (types_field::QUERY_FIELD, types_field::INVALID_QUERY),
        (types_field::ENTITY_FIELD, types_field::VALIDATION_FAILED),
    ] {
        let err = field_violation(types_gts::TYPE_RESOURCE_TYPE, field_name, "bad", reason);
        match TypesRegistryError::from(err) {
            TypesRegistryError::Validation { issues } => {
                assert_eq!(issues[0].reason.as_wire(), reason, "reason {reason} must round-trip into field_violations[].reason");
                assert_eq!(issues[0].field, field_name, "field {field_name} must round-trip into field_violations[].field");
            }
            other => panic!("expected Validation, got {other:?}"),
        }
    }
}

#[test]
fn parent_not_registered_type_round_trips_to_violations() {
    let err = CanonicalError::FailedPrecondition {
        violations: vec![PreconditionViolation {
            type_: s(types_precondition::PARENT_NOT_REGISTERED),
            subject: s("gts.acme.core.events.base.v1~"),
            description: s("required type-schema is not registered"),
        }],
        resource_type: Some(s(types_gts::TYPE_RESOURCE_TYPE)),
        resource_name: Some(s("gts.acme.core.events.base.v1~acme.x.derived.v1.0~")),
        detail: s("Precondition failed"),
    };
    match TypesRegistryError::from(err) {
        TypesRegistryError::ParentNotRegistered { parent_type_id, .. } => {
            assert_eq!(parent_type_id, "gts.acme.core.events.base.v1~", "parent id must round-trip into violations[].subject");
        }
        other => panic!("expected ParentNotRegistered (type must round-trip into violations[].type), got {other:?}"),
    }
}

#[test]
fn node_resource_type_round_trips_to_context_resource_type() {
    match NodesRegistryError::from(not_found(nodes_gts::NODE_RESOURCE_TYPE)) {
        NodesRegistryError::NotFound { resource_type, .. } => {
            assert_eq!(resource_type, nodes_gts::NODE_RESOURCE_TYPE, "NODE_RESOURCE_TYPE must round-trip into context.resource_type");
        }
        other => panic!("expected NotFound, got {other:?}"),
    }
}

#[test]
fn field_vocabulary_round_trips_to_field_violations() {
    let err = field_violation(nodes_gts::NODE_RESOURCE_TYPE, nodes_field::INPUT_FIELD, "bad capability key", nodes_field::VALIDATION_ERROR);
    match NodesRegistryError::from(err) {
        NodesRegistryError::InvalidArgument { field, reason, .. } => {
            assert_eq!(field, nodes_field::INPUT_FIELD, "INPUT_FIELD must round-trip into field_violations[].field");
            assert_eq!(reason, nodes_field::VALIDATION_ERROR, "VALIDATION_ERROR must round-trip into field_violations[].reason");
        }
        other => panic!("expected InvalidArgument, got {other:?}"),
    }
}
