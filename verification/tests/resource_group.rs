use gears::resource_group::validation::{
    decide_membership_type_code, decide_metadata_via_gts, validate_membership_type_code,
    needs_schema_lookup, validate_metadata_against_schema, validate_metadata_schema, validate_type_code, DomainError,
    SchemaLookup,
};

fn message(r: Result<(), DomainError>) -> String {
    match r {
        Err(DomainError::Validation { message }) => message,
        Ok(()) => panic!("expected a validation error"),
    }
}

#[test]
fn type_code_is_normalized_then_checked() {
    assert!(validate_type_code("  GTS.CF.CORE.RG.TYPE.V1~Acme.Org.V1~ ").is_ok());
    assert_eq!(message(validate_type_code("   ")), "Type code must not be empty");
    assert_eq!(
        message(validate_type_code("Other.Prefix~")),
        "Type code must start with prefix 'gts.cf.core.rg.type.v1~', got: 'other.prefix~'"
    );
    let long = format!("gts.cf.core.rg.type.v1~{}", "a".repeat(1024));
    assert_eq!(message(validate_type_code(&long)), "Type code must not exceed 1024 characters");
}

#[test]
fn membership_type_code_must_be_a_concrete_gts_id() {
    assert!(validate_membership_type_code("gts.cf.core.idp.user.v1~").is_ok());
    assert!(message(validate_membership_type_code("gts.cf.core.am.*")).contains("must be a concrete GTS type"));
    assert!(message(validate_membership_type_code("not a gts id")).starts_with("Invalid membership type code 'not a gts id': "));
}

#[test]
fn membership_decision_follows_the_parser_answers() {
    assert!(decide_membership_type_code("x", None, false).is_ok());
    assert_eq!(
        message(decide_membership_type_code("x", Some("bad".to_owned()), false)),
        "Invalid membership type code 'x': bad"
    );
    assert_eq!(
        message(decide_membership_type_code("x*", Some("bad".to_owned()), true)),
        "Membership type code 'x*' must be a concrete GTS type, not a wildcard pattern"
    );
}

#[test]
fn metadata_schema_must_compile() {
    assert!(validate_metadata_schema(r#"{"type":"object"}"#).is_ok());
    assert!(message(validate_metadata_schema(r#"{"type":"no-such-type"}"#))
        .starts_with("metadata_schema is not a valid JSON Schema: "));
}

#[test]
fn metadata_is_checked_against_schema() {
    let schema = r#"{"type":"object","properties":{"a":{"type":"integer"}},"required":["a"]}"#;
    assert!(validate_metadata_against_schema(Some(r#"{"a":1}"#), Some(schema)).is_ok());
    assert!(validate_metadata_against_schema(None, Some(schema)).is_ok());
    assert!(validate_metadata_against_schema(Some(r#"{"a":"x"}"#), None).is_ok());
    assert!(message(validate_metadata_against_schema(Some(r#"{"a":"x"}"#), Some(schema)))
        .starts_with("Metadata does not match type schema: "));
}

#[test]
fn metadata_via_registry_schema() {
    let schema = r#"{"type":"object","properties":{"a":{"type":"integer"}},"required":["a"]}"#.to_owned();
    let resolved = || SchemaLookup::Resolved(Some(schema.clone()));
    assert!(decide_metadata_via_gts(None, "gts.x~", SchemaLookup::Failed("down".to_owned())).is_ok());
    assert!(decide_metadata_via_gts(Some(r#"{"a":"x"}"#), "gts.x~", SchemaLookup::NotRegistered).is_ok());
    assert!(decide_metadata_via_gts(Some(r#"{"a":"x"}"#), "gts.x~", SchemaLookup::Resolved(None)).is_ok());
    assert!(decide_metadata_via_gts(Some(r#"{"a":1}"#), "gts.x~", resolved()).is_ok());
    assert!(message(decide_metadata_via_gts(Some(r#"{"a":"x"}"#), "gts.x~", resolved()))
        .starts_with("Metadata does not match type schema: "));
    assert_eq!(
        message(decide_metadata_via_gts(Some("{}"), "gts.x~", SchemaLookup::Failed("registry down".to_owned()))),
        "Failed to resolve GTS type 'gts.x~' for metadata validation: registry down"
    );
    let bad = SchemaLookup::Resolved(Some(r#"{"type":"no-such-type"}"#.to_owned()));
    assert!(message(decide_metadata_via_gts(Some("{}"), "gts.x~", bad)).starts_with("Type metadata_schema is invalid: "));
}

#[test]
fn unicode_white_space_is_trimmed_from_type_codes() {
    assert!(validate_type_code("\u{3000}\u{a0}gts.cf.core.rg.type.v1~x.v1~\u{2029}\t").is_ok());
    assert_eq!(message(validate_type_code("\u{85}\u{200a}")), "Type code must not be empty");
    // A zero-width space is not white space, so it is kept.
    assert!(validate_type_code("\u{200b}gts.cf.core.rg.type.v1~x.v1~").is_err());
}

#[test]
fn registry_is_asked_only_when_metadata_is_present() {
    assert!(!needs_schema_lookup(None));
    assert!(needs_schema_lookup(Some("{}")));
    assert!(needs_schema_lookup(Some("null")));
}
