use gears::canonical::{CanonicalError, FieldViolation, InvalidArgument, PreconditionViolation};
use gears::types_registry::domain::{DomainError, LookupKind, ValidationError};
use gears::types_registry::error::{
    is_invalid_gts_id, is_not_found, is_parent_not_registered, FieldIssue, TypesRegistryError,
};
use gears::types_registry::field::{self, ValidationReason, CONSTRAINT_SHAPE, FORMAT_SHAPE};
use gears::types_registry::gts;
use gears::types_registry::precondition;
use gears::types_registry::testing;

fn s(text: &str) -> String {
    text.to_owned()
}

fn parent_missing() -> CanonicalError {
    CanonicalError::FailedPrecondition {
        violations: vec![PreconditionViolation {
            type_: s(precondition::PARENT_NOT_REGISTERED),
            subject: s("gts.acme.core.events.base.v1~"),
            description: s("required type-schema is not registered"),
        }],
        resource_type: Some(s(gts::TYPE_RESOURCE_TYPE)),
        resource_name: Some(s("gts.acme.core.events.base.v1~acme.x.derived.v1.0~")),
        detail: s("Precondition failed"),
    }
}

#[test]
fn field_validation_reason_round_trips_each_constant() {
    for (wire, expected) in [
        (field::INVALID_GTS_ID, ValidationReason::InvalidGtsId),
        (field::INVALID_QUERY, ValidationReason::InvalidQuery),
        (field::VALIDATION_FAILED, ValidationReason::ValidationFailed),
    ] {
        assert_eq!(ValidationReason::from_wire(wire), expected);
        assert_eq!(expected.as_wire(), wire);
    }
}

#[test]
fn field_validation_reason_preserves_unknown_wire_string() {
    let raw = "FUTURE_REASON";
    let r = ValidationReason::from_wire(raw);
    assert_eq!(r, ValidationReason::Unknown(raw.to_owned()));
    assert_eq!(r.as_wire(), raw);
}

#[test]
fn shape_sentinels_render_distinct_non_empty_tokens() {
    assert_eq!(ValidationReason::Format.as_wire(), FORMAT_SHAPE);
    assert_eq!(ValidationReason::Constraint.as_wire(), CONSTRAINT_SHAPE);
    assert_ne!(ValidationReason::Format, ValidationReason::Constraint);
    assert!(!ValidationReason::Format.as_wire().is_empty());
    assert!(!ValidationReason::Constraint.as_wire().is_empty());
}

#[test]
fn from_wire_never_yields_synthetic_shape_sentinels() {
    assert_eq!(ValidationReason::from_wire(FORMAT_SHAPE), ValidationReason::Unknown(FORMAT_SHAPE.to_owned()));
    assert_eq!(
        ValidationReason::from_wire(CONSTRAINT_SHAPE),
        ValidationReason::Unknown(CONSTRAINT_SHAPE.to_owned())
    );
}

#[test]
fn invalid_argument_projects_typed_validation_reason() {
    let canonical = CanonicalError::InvalidArgument {
        ctx: InvalidArgument::FieldViolations {
            field_violations: vec![FieldViolation {
                field: s(field::GTS_ID_FIELD),
                description: s("missing vendor"),
                reason: s(field::INVALID_GTS_ID),
            }],
        },
        resource_type: Some(s(gts::TYPE_RESOURCE_TYPE)),
        detail: s("Invalid argument"),
    };
    match TypesRegistryError::from(canonical) {
        TypesRegistryError::Validation { issues } => {
            assert_eq!(issues.len(), 1);
            assert_eq!(issues[0].field, field::GTS_ID_FIELD);
            assert_eq!(issues[0].reason, ValidationReason::InvalidGtsId);
            assert_eq!(issues[0].description, "missing vendor");
        }
        other => panic!("expected Validation, got {other:?}"),
    }
}

#[test]
fn constraint_shape_projects_one_fieldless_issue() {
    let canonical = CanonicalError::InvalidArgument {
        ctx: InvalidArgument::Constraint { constraint: s("too many") },
        resource_type: None,
        detail: s("too many"),
    };
    match TypesRegistryError::from(canonical) {
        TypesRegistryError::Validation { issues } => {
            assert_eq!(
                issues,
                vec![FieldIssue { field: String::new(), reason: ValidationReason::Constraint, description: s("too many") }]
            );
        }
        other => panic!("expected Validation, got {other:?}"),
    }
}

#[test]
fn error_tests_not_found_projects_resource_type_and_name() {
    let canonical = CanonicalError::NotFound {
        resource_type: Some(s(gts::TYPE_RESOURCE_TYPE)),
        resource_name: Some(s("gts.acme.core.events.test.v1~")),
        detail: s("type schema not found"),
    };
    match TypesRegistryError::from(canonical) {
        TypesRegistryError::NotFound { resource_type, name, detail } => {
            assert_eq!(resource_type, gts::TYPE_RESOURCE_TYPE);
            assert_eq!(name, "gts.acme.core.events.test.v1~");
            assert_eq!(detail, "type schema not found");
        }
        other => panic!("expected NotFound, got {other:?}"),
    }
}

#[test]
fn error_tests_already_exists_projects_resource_type_and_name() {
    let canonical = CanonicalError::AlreadyExists {
        resource_type: Some(s(gts::TYPE_RESOURCE_TYPE)),
        resource_name: Some(s("gts.acme.core.events.test.v1~")),
        detail: s("entity exists"),
    };
    match TypesRegistryError::from(canonical) {
        TypesRegistryError::AlreadyExists { resource_type, name, .. } => {
            assert_eq!(resource_type, gts::TYPE_RESOURCE_TYPE);
            assert_eq!(name, "gts.acme.core.events.test.v1~");
        }
        other => panic!("expected AlreadyExists, got {other:?}"),
    }
}

#[test]
fn not_found_without_resource_type_falls_through_to_other() {
    let canonical = CanonicalError::NotFound {
        resource_type: None,
        resource_name: Some(s("gts.acme.core.events.test.v1~")),
        detail: s("missing"),
    };
    match TypesRegistryError::from(canonical) {
        TypesRegistryError::Other { .. } => {}
        other => panic!("expected Other, got {other:?}"),
    }
}

#[test]
fn already_exists_without_resource_type_falls_through_to_other() {
    let canonical = CanonicalError::AlreadyExists {
        resource_type: None,
        resource_name: Some(s("gts.acme.core.events.test.v1~")),
        detail: s("entity exists"),
    };
    match TypesRegistryError::from(canonical) {
        TypesRegistryError::Other { .. } => {}
        other => panic!("expected Other, got {other:?}"),
    }
}

#[test]
fn failed_precondition_projects_parent_not_registered() {
    match TypesRegistryError::from(parent_missing()) {
        TypesRegistryError::ParentNotRegistered { parent_type_id, dependent_id, detail } => {
            assert_eq!(parent_type_id, "gts.acme.core.events.base.v1~");
            assert_eq!(dependent_id, "gts.acme.core.events.base.v1~acme.x.derived.v1.0~");
            assert_eq!(detail, "required type-schema is not registered");
        }
        other => panic!("expected ParentNotRegistered, got {other:?}"),
    }
}

#[test]
fn parent_not_registered_picks_the_first_matching_violation() {
    let canonical = CanonicalError::FailedPrecondition {
        violations: vec![
            PreconditionViolation { type_: s("OTHER"), subject: s("x"), description: s("other") },
            PreconditionViolation {
                type_: s(precondition::PARENT_NOT_REGISTERED),
                subject: s("first"),
                description: s("first parent"),
            },
            PreconditionViolation {
                type_: s(precondition::PARENT_NOT_REGISTERED),
                subject: s("second"),
                description: s("second parent"),
            },
        ],
        resource_type: None,
        resource_name: None,
        detail: s("Precondition failed"),
    };
    match TypesRegistryError::from(canonical) {
        TypesRegistryError::ParentNotRegistered { parent_type_id, dependent_id, detail } => {
            assert_eq!(parent_type_id, "first");
            assert!(dependent_id.is_empty());
            assert_eq!(detail, "first parent");
        }
        other => panic!("expected ParentNotRegistered, got {other:?}"),
    }
}

#[test]
fn unmodeled_failed_precondition_falls_through_to_other() {
    let canonical = CanonicalError::FailedPrecondition {
        violations: vec![PreconditionViolation {
            type_: s("SOME_OTHER_TYPE"),
            subject: s("some_subject"),
            description: s("future precondition"),
        }],
        resource_type: Some(s(gts::TYPE_RESOURCE_TYPE)),
        resource_name: None,
        detail: s("Precondition failed"),
    };
    match TypesRegistryError::from(canonical) {
        TypesRegistryError::Other { canonical: CanonicalError::FailedPrecondition { .. } } => {}
        other => panic!("expected Other::FailedPrecondition, got {other:?}"),
    }
}

#[test]
fn service_unavailable_projects_unavailable() {
    let canonical = CanonicalError::ServiceUnavailable { retry_after_seconds: None, detail: s("starting") };
    assert!(matches!(TypesRegistryError::from(canonical), TypesRegistryError::Unavailable { .. }));
}

#[test]
fn internal_projects_internal() {
    let canonical = CanonicalError::Internal { detail: s("boom") };
    assert!(matches!(TypesRegistryError::from(canonical), TypesRegistryError::Internal { .. }));
}

#[test]
fn error_tests_unmodeled_category_falls_through_to_other() {
    let canonical = CanonicalError::Unauthenticated { reason: s("SOME_REASON"), detail: s("who") };
    match TypesRegistryError::from(canonical) {
        TypesRegistryError::Other { canonical: CanonicalError::Unauthenticated { .. } } => {}
        other => panic!("expected Other::Unauthenticated, got {other:?}"),
    }
}

#[test]
fn canonical_predicates_classify_errors() {
    let invalid = CanonicalError::InvalidArgument {
        ctx: InvalidArgument::FieldViolations {
            field_violations: vec![FieldViolation {
                field: s(field::GTS_ID_FIELD),
                description: s("bad"),
                reason: s(field::INVALID_GTS_ID),
            }],
        },
        resource_type: None,
        detail: s("bad"),
    };
    assert!(is_invalid_gts_id(&invalid));
    assert!(!is_not_found(&invalid));
    assert!(!is_parent_not_registered(&invalid));
    let missing = CanonicalError::NotFound { resource_type: None, resource_name: None, detail: s("x") };
    assert!(is_not_found(&missing));
    assert!(!is_invalid_gts_id(&missing));
    assert!(is_parent_not_registered(&parent_missing()));
}

#[test]
fn test_error_constructors() {
    let err = DomainError::invalid_gts_id("missing vendor");
    assert!(matches!(err, DomainError::InvalidGtsId(_)));

    let err = DomainError::not_found_by_id("gts.acme.core.events.test.v1~");
    assert!(matches!(err, DomainError::NotFound { kind: LookupKind::GtsId, .. }));

    let err = DomainError::not_found_by_uuid(0);
    assert!(matches!(err, DomainError::NotFound { kind: LookupKind::Uuid, .. }));

    let err = DomainError::already_exists("gts.acme.core.events.test.v1~");
    assert!(matches!(err, DomainError::AlreadyExists(_)));

    let err = DomainError::validation_failed("schema invalid");
    assert!(matches!(err, DomainError::ValidationFailed(_)));
}

#[test]
fn test_error_display() {
    let err = DomainError::InvalidGtsId("bad format".to_owned());
    assert_eq!(err.to_text(), "Invalid GTS ID: bad format");

    let err = DomainError::not_found_by_id("gts.cf.core.events.test.v1~");
    assert_eq!(err.to_text(), "Entity not found (GTS ID): gts.cf.core.events.test.v1~");

    let err = DomainError::not_found_by_uuid(0);
    assert_eq!(err.to_text(), "Entity not found (UUID): 00000000-0000-0000-0000-000000000000");

    let err = DomainError::AlreadyExists("gts.cf.core.events.test.v1~".to_owned());
    assert_eq!(err.to_text(), "Entity already exists: gts.cf.core.events.test.v1~");

    let err = DomainError::ValidationFailed("schema invalid".to_owned());
    assert_eq!(err.to_text(), "Validation failed: schema invalid");

    let err = DomainError::NotInReadyMode;
    assert_eq!(err.to_text(), "Not in ready mode");

    let err = DomainError::ReadyCommitFailed(vec![
        ValidationError::new("gts.test1~", "error1"),
        ValidationError::new("gts.test2~", "error2"),
        ValidationError::new("gts.test3~", "error3"),
    ]);
    assert_eq!(err.to_text(), "Ready commit failed with 3 errors");
}

#[test]
fn uuid_target_is_hyphenated_lower_hex() {
    let err = DomainError::not_found_by_uuid(0xa1a2a3a4b1b2c1c2d1d2d3d4d5d6d7d8);
    match err {
        DomainError::NotFound { target, .. } => assert_eq!(target, "a1a2a3a4-b1b2-c1c2-d1d2-d3d4d5d6d7d8"),
        other => panic!("expected NotFound, got {other:?}"),
    }
}

#[test]
fn other_messages_render() {
    let err = DomainError::ParentTypeSchemaNotRegistered { parent_type_id: s("p~"), dependent_id: s("d~") };
    assert_eq!(err.to_text(), "Cannot register d~: required type-schema p~ is not registered");
    assert_eq!(DomainError::invalid_query("q").to_text(), "Invalid query: q");
    assert_eq!(DomainError::Internal(s("oops")).to_text(), "Internal error: oops");
    assert_eq!(DomainError::ReadyCommitFailed(vec![]).to_text(), "Ready commit failed with 0 errors");
    let errs = DomainError::ReadyCommitFailed(vec![ValidationError::new("a", "b")]);
    assert_eq!(errs.validation_errors().map(|v| v.len()), Some(1));
    assert!(DomainError::NotInReadyMode.validation_errors().is_none());
    assert_eq!(LookupKind::Uuid.to_text(), "UUID");
}

#[test]
fn validation_error_parses_and_renders() {
    let e = ValidationError::from_string("gts.test1~: schema mismatch: extra");
    assert_eq!(e.gts_id, "gts.test1~");
    assert_eq!(e.message, "schema mismatch: extra");
    assert_eq!(e.to_text(), "gts.test1~: schema mismatch: extra");
    let e = ValidationError::from_string("no separator here");
    assert_eq!(e.gts_id, "unknown");
    assert_eq!(e.message, "no separator here");
}

#[test]
fn test_internal_error_from_anyhow() {
    let domain_err = DomainError::from_error_text("test error");
    assert!(matches!(domain_err, DomainError::Internal(ref m) if m == "test error"));
    assert_eq!(domain_err.to_text(), "Internal error: test error");
}

#[test]
fn testing_envelopes_project_like_the_real_client() {
    let invalid = testing::invalid_gts_id("bad id");
    assert!(is_invalid_gts_id(&invalid));
    match TypesRegistryError::from(invalid) {
        TypesRegistryError::Validation { issues } => {
            assert_eq!(issues.len(), 1);
            assert_eq!(issues[0].field, field::GTS_ID_FIELD);
            assert_eq!(issues[0].reason, ValidationReason::InvalidGtsId);
            assert_eq!(issues[0].description, "bad id");
        }
        other => panic!("expected Validation, got {other:?}"),
    }
    assert!(is_not_found(&testing::not_found("gts.acme.x.v1~")));
    match testing::not_found("gts.acme.x.v1~") {
        CanonicalError::NotFound { resource_name, detail, .. } => {
            assert_eq!(resource_name.as_deref(), Some("gts.acme.x.v1~"));
            assert_eq!(detail, "no entity registered: gts.acme.x.v1~");
        }
        other => panic!("expected NotFound, got {other:?}"),
    }
    assert!(matches!(testing::internal("db down"), CanonicalError::Internal { ref detail } if detail == "db down"));
}

#[test]
fn validation_error_text_round_trips() {
    let e = ValidationError::new("gts.acme.core.events.test.v1~", "required: field missing");
    let parsed = ValidationError::from_string(&e.to_text());
    assert_eq!(parsed, e);
    // An id that itself holds ": " splits earlier.
    let odd = ValidationError::new("a: b", "m");
    let split = ValidationError::from_string(&odd.to_text());
    assert_eq!(split.gts_id, "a");
    assert_eq!(split.message, "b: m");
}
