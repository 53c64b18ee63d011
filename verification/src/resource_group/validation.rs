//! Shared domain validation of resource-group type codes, membership type
//! codes and metadata schemas.
use vstd::prelude::*;

use vstd::slice::slice_subrange;

use crate::text::{char_count, chars_of, has_prefix, joined, owned, text_of};

verus! {

/// GTS type path prefix required for resource group types.
pub const RG_TYPE_PREFIX: &'static str = "gts.cf.core.rg.type.v1~";

/// The longest accepted type code, in characters.
pub const MAX_TYPE_CODE_CHARS: usize = 1024;

/// A resource-group domain error.
#[derive(Debug, Clone)]
pub enum DomainError {
    /// The input failed validation; the message says why.
    Validation { message: String },
}

impl DomainError {
    /// A validation error with `message`.
    pub fn validation(message: String) -> (e: Self)
        ensures
            e matches DomainError::Validation { message: m } && m@ == message@,
    {
        DomainError::Validation { message }
    }
}

/// Whether `c` has the Unicode White_Space property (`char::is_whitespace`).
pub open spec fn is_white(c: char) -> bool {
    ||| ('\u{9}' <= c && c <= '\u{d}')
    ||| c == ' '
    ||| c == '\u{85}'
    ||| c == '\u{a0}'
    ||| c == '\u{1680}'
    ||| ('\u{2000}' <= c && c <= '\u{200a}')
    ||| c == '\u{2028}'
    ||| c == '\u{2029}'
    ||| c == '\u{202f}'
    ||| c == '\u{205f}'
    ||| c == '\u{3000}'
}

/// `s` without its leading white space.
pub open spec fn trim_start(s: Seq<char>) -> Seq<char>
    decreases s.len(),
{
    if s.len() > 0 && is_white(s[0]) {
        trim_start(s.drop_first())
    } else {
        s
    }
}

/// `s` without its trailing white space.
pub open spec fn trim_end(s: Seq<char>) -> Seq<char>
    decreases s.len(),
{
    if s.len() > 0 && is_white(s.last()) {
        trim_end(s.drop_last())
    } else {
        s
    }
}

/// `s` with leading and trailing white space removed (what `str::trim`
/// gives).
pub open spec fn trimmed(s: Seq<char>) -> Seq<char> {
    trim_end(trim_start(s))
}

/// The text `str::to_lowercase` gives for `s`: its Unicode lower-case mapping.
pub uninterp spec fn lowercased(s: Seq<char>) -> Seq<char>;

/// Whether `c` is white space (`char::is_whitespace`).
fn is_white_char(c: char) -> (r: bool)
    ensures
        r == is_white(c),
{
    ('\u{9}' <= c && c <= '\u{d}') || c == ' ' || c == '\u{85}' || c == '\u{a0}' || c == '\u{1680}' || ('\u{2000}' <= c
        && c <= '\u{200a}') || c == '\u{2028}' || c == '\u{2029}' || c == '\u{202f}' || c == '\u{205f}' || c == '\u{3000}'
}

/// Dropping leading white space up to the first other character leaves the
/// rest of the text.
proof fn lemma_trim_start_at(s: Seq<char>, i: int)
    requires
        0 <= i <= s.len(),
        forall|k: int| 0 <= k < i ==> is_white(#[trigger] s[k]),
        i < s.len() ==> !is_white(s[i]),
    ensures
        trim_start(s) == s.subrange(i, s.len() as int),
    decreases i,
{
    if i == 0 {
        assert(s.subrange(0, s.len() as int) =~= s);
    } else {
        let rest = s.drop_first();
        assert forall|k: int| 0 <= k < i - 1 implies is_white(#[trigger] rest[k]) by {
            assert(rest[k] == s[k + 1]);
        }
        assert(is_white(s[0]));
        lemma_trim_start_at(rest, i - 1);
        assert(rest.subrange(i - 1, rest.len() as int) =~= s.subrange(i, s.len() as int));
    }
}

/// Dropping trailing white space back to the last other character leaves
/// the text before it.
proof fn lemma_trim_end_at(s: Seq<char>, j: int)
    requires
        0 <= j <= s.len(),
        forall|k: int| j <= k < s.len() ==> is_white(#[trigger] s[k]),
        j > 0 ==> !is_white(s[j - 1]),
    ensures
        trim_end(s) == s.subrange(0, j),
    decreases s.len() - j,
{
    if j == s.len() {
        assert(s.subrange(0, j) =~= s);
    } else {
        let init = s.drop_last();
        assert forall|k: int| j <= k < init.len() implies is_white(#[trigger] init[k]) by {
            assert(init[k] == s[k]);
        }
        assert(is_white(s.last()));
        if j > 0 {
            assert(init[j - 1] == s[j - 1]);
        }
        lemma_trim_end_at(init, j);
        assert(init.subrange(0, j) =~= s.subrange(0, j));
    }
}

/// The text with leading and trailing white space removed (`str::trim`).
fn trim_text(s: &str) -> (t: String)
    ensures
        t@ == trimmed(s@),
{
    let cs = chars_of(s);
    let mut i: usize = 0;
    while i < cs.len() && is_white_char(cs[i])
        invariant
            i <= cs@.len(),
            cs@ == s@,
            forall|k: int| 0 <= k < i ==> is_white(#[trigger] cs@[k]),
        decreases cs@.len() - i,
    {
        i = i + 1;
    }
    let mut j: usize = cs.len();
    while j > i && is_white_char(cs[j - 1])
        invariant
            i <= j <= cs@.len(),
            cs@ == s@,
            forall|k: int| j <= k < cs@.len() ==> is_white(#[trigger] cs@[k]),
        decreases j - i,
    {
        j = j - 1;
    }
    let t = text_of(slice_subrange(cs.as_slice(), i, j));
    proof {
        lemma_trim_start_at(s@, i as int);
        let rest = s@.subrange(i as int, s@.len() as int);
        assert forall|k: int| j - i <= k < rest.len() implies is_white(#[trigger] rest[k]) by {
            assert(rest[k] == cs@[k + i]);
        }
        if j > i {
            assert(rest[j - i - 1] == cs@[j - 1]);
        }
        lemma_trim_end_at(rest, j - i);
        assert(rest.subrange(0, j - i) =~= t@);
    }
    t
}

/// `str::to_lowercase`: the text's lower-case mapping.
#[verifier::external_body]
fn lowercase_text(s: &str) -> (t: String)
    ensures
        t@ == lowercased(s@),
{
    s.to_lowercase()
}

/// The message rejecting a type code without the resource-group prefix.
pub open spec fn missing_prefix_message(code: Seq<char>) -> Seq<char> {
    "Type code must start with prefix '"@ + RG_TYPE_PREFIX@ + "', got: '"@ + code + "'"@
}

/// The verdict on a normalized type code: `None` when accepted, otherwise
/// the rejection message.
pub open spec fn type_code_verdict(code: Seq<char>) -> Option<Seq<char>> {
    if code.len() == 0 {
        Some("Type code must not be empty"@)
    } else if !RG_TYPE_PREFIX@.is_prefix_of(code) {
        Some(missing_prefix_message(code))
    } else if code.len() > MAX_TYPE_CODE_CHARS {
        Some("Type code must not exceed 1024 characters"@)
    } else {
        None
    }
}

/// Whether `r` is the result the verdict `v` calls for.
pub open spec fn follows_verdict(v: Option<Seq<char>>, r: Result<(), DomainError>) -> bool {
    match v {
        None => r is Ok,
        Some(m) => r matches Err(DomainError::Validation { message }) && message@ == m,
    }
}

/// Validates an already normalized type code: non-empty, carrying the
/// resource-group prefix, at most 1024 characters.
pub fn validate_normalized_type_code(code: &str) -> (r: Result<(), DomainError>)
    ensures
        follows_verdict(type_code_verdict(code@), r),
{
    if char_count(code) == 0 {
        return Err(DomainError::validation(owned("Type code must not be empty")));
    }
    if !has_prefix(code, RG_TYPE_PREFIX) {
        let a = joined("Type code must start with prefix '", RG_TYPE_PREFIX);
        let b = joined(a.as_str(), "', got: '");
        let c = joined(b.as_str(), code);
        return Err(DomainError::validation(joined(c.as_str(), "'")));
    }
    if char_count(code) > MAX_TYPE_CODE_CHARS {
        return Err(DomainError::validation(owned("Type code must not exceed 1024 characters")));
    }
    Ok(())
}

/// A type code is accepted exactly when it is a resource-group type: its
/// normalized text begins with the resource-group prefix and has at most
/// 1024 characters. A non-empty code without the prefix is rejected with a
/// message naming the prefix and the code.
pub proof fn law_accepted_type_code_is_a_resource_group_type(code: Seq<char>, r: Result<(), DomainError>)
    requires
        follows_verdict(type_code_verdict(code), r),
    ensures
        r is Ok <==> (RG_TYPE_PREFIX@.is_prefix_of(code) && code.len() <= MAX_TYPE_CODE_CHARS),
        code.len() > 0 && !RG_TYPE_PREFIX@.is_prefix_of(code) ==> (r matches Err(DomainError::Validation { message })
            && message@ == "Type code must start with prefix 'gts.cf.core.rg.type.v1~', got: '"@ + code + "'"@),
{
    reveal_strlit("gts.cf.core.rg.type.v1~");
    reveal_strlit("Type code must start with prefix '");
    reveal_strlit("', got: '");
    reveal_strlit("Type code must start with prefix 'gts.cf.core.rg.type.v1~', got: '");
    assert(RG_TYPE_PREFIX@.len() > 0);
    assert("Type code must start with prefix '"@ + RG_TYPE_PREFIX@ + "', got: '"@
        =~= "Type code must start with prefix 'gts.cf.core.rg.type.v1~', got: '"@);
}

/// Validates a GTS type code: the code is normalized (trimmed, then
/// lower-cased) and must be non-empty, carry the resource-group prefix, and
/// be at most 1024 characters.
pub fn validate_type_code(code: &str) -> (r: Result<(), DomainError>)
    ensures
        follows_verdict(type_code_verdict(lowercased(trimmed(code@))), r),
{
    let t = trim_text(code);
    let normalized = lowercase_text(t.as_str());
    validate_normalized_type_code(normalized.as_str())
}

/// The parse error text `GtsId::try_new` gives for `code`, or `None` when it
/// accepts `code` as a concrete GTS identifier.
pub uninterp spec fn gts_id_rejection(code: Seq<char>) -> Option<Seq<char>>;

/// The wildcard flags of the segments `GtsIdPattern::try_new` parses `code`
/// into, one per segment in order, or `None` when it does not parse.
pub uninterp spec fn pattern_wildcard_flags(code: Seq<char>) -> Option<Seq<bool>>;

/// Whether `code` parses as a GTS pattern with a wildcard segment.
pub open spec fn gts_wildcard_pattern(code: Seq<char>) -> bool {
    match pattern_wildcard_flags(code) {
        Some(flags) => flags.contains(true),
        None => false,
    }
}

/// `gts::GtsId::try_new`: `None` when `code` is a valid concrete GTS
/// identifier, otherwise the parse error's text.
#[verifier::external_body]
fn parse_gts_id(code: &str) -> (r: Option<String>)
    ensures
        r is Some <==> gts_id_rejection(code@) is Some,
        r matches Some(e) ==> gts_id_rejection(code@) == Some(e@),
{
    match gts::GtsId::try_new(code) {
        Ok(_) => None,
        Err(e) => Some(e.to_string()),
    }
}

/// `gts::GtsIdPattern::try_new`: the wildcard flag of each parsed segment,
/// in order, or `None` when `code` does not parse as a pattern.
#[verifier::external_body]
fn pattern_segment_flags(code: &str) -> (r: Option<Vec<bool>>)
    ensures
        r matches Some(flags) ==> pattern_wildcard_flags(code@) == Some(flags@),
        r is None ==> pattern_wildcard_flags(code@) is None,
{
    match gts::GtsIdPattern::try_new(code) {
        Ok(pattern) => Some(pattern.segments().iter().map(|segment| segment.is_wildcard()).collect()),
        Err(_) => None,
    }
}

/// Whether `code` parses as a GTS pattern with a wildcard segment.
fn is_wildcard_pattern(code: &str) -> (r: bool)
    ensures
        r == gts_wildcard_pattern(code@),
{
    match pattern_segment_flags(code) {
        None => false,
        Some(flags) => {
            let mut i: usize = 0;
            while i < flags.len()
                invariant
                    pattern_wildcard_flags(code@) == Some(flags@),
                    i <= flags@.len(),
                    forall|j: int| 0 <= j < i ==> !flags@[j],
                decreases flags@.len() - i,
            {
                if flags[i] {
                    assert(flags@.contains(true)) by {
                        assert(flags@[i as int] == true);
                    }
                    return true;
                }
                i = i + 1;
            }
            false
        },
    }
}

/// The verdict on a membership type code given the GTS parser's answers.
pub open spec fn membership_verdict(code: Seq<char>, rejection: Option<Seq<char>>, wildcard: bool) -> Option<Seq<char>> {
    match rejection {
        None => None,
        Some(e) => if wildcard {
            Some("Membership type code '"@ + code + "' must be a concrete GTS type, not a wildcard pattern"@)
        } else {
            Some("Invalid membership type code '"@ + code + "': "@ + e)
        },
    }
}

/// Decides a membership type code from the GTS parser's answers: accepted
/// when it parses as a concrete identifier; a wildcard pattern is rejected as
/// not concrete; anything else is rejected with the parse error.
pub fn decide_membership_type_code(code: &str, rejection: Option<String>, wildcard: bool) -> (r: Result<(), DomainError>)
    ensures
        follows_verdict(
            membership_verdict(
                code@,
                match rejection {
                    Some(e) => Some(e@),
                    None => None,
                },
                wildcard,
            ),
            r,
        ),
{
    match rejection {
        None => Ok(()),
        Some(e) => {
            if wildcard {
                let a = joined("Membership type code '", code);
                Err(DomainError::validation(joined(a.as_str(), "' must be a concrete GTS type, not a wildcard pattern")))
            } else {
                let a = joined("Invalid membership type code '", code);
                let b = joined(a.as_str(), "': ");
                Err(DomainError::validation(joined(b.as_str(), e.as_str())))
            }
        },
    }
}

/// Validates a GTS type code used as a membership resource type: it must be
/// an exact (concrete) GTS identifier; no resource-group prefix is required,
/// and wildcard patterns are rejected.
pub fn validate_membership_type_code(code: &str) -> (r: Result<(), DomainError>)
    ensures
        follows_verdict(membership_verdict(code@, gts_id_rejection(code@), gts_wildcard_pattern(code@)), r),
{
    let rejection = parse_gts_id(code);
    let wildcard = is_wildcard_pattern(code);
    decide_membership_type_code(code, rejection, wildcard)
}

/// The error text of compiling the JSON Schema whose JSON text is `schema`
/// (a JSON parse error or a schema compile error), or `None` when it compiles.
pub uninterp spec fn schema_rejection(schema: Seq<char>) -> Option<Seq<char>>;

/// The outcome of checking the JSON document `metadata` against the JSON
/// Schema `schema` (both as JSON text): the schema's compile error text, or
/// the texts of every violation, in the validator's order.
pub uninterp spec fn schema_check(schema: Seq<char>, metadata: Seq<char>) -> Result<Seq<Seq<char>>, Seq<char>>;

/// `jsonschema::validator_for` on the parsed JSON text `schema_json`: `None`
/// when it compiles, otherwise the error's text.
#[verifier::external_body]
fn compile_schema(schema_json: &str) -> (r: Option<String>)
    ensures
        r is Some <==> schema_rejection(schema_json@) is Some,
        r matches Some(e) ==> schema_rejection(schema_json@) == Some(e@),
{
    match serde_json::from_str::<serde_json::Value>(schema_json) {
        Err(e) => Some(e.to_string()),
        Ok(schema) => match jsonschema::validator_for(&schema) {
            Ok(_) => None,
            Err(e) => Some(e.to_string()),
        },
    }
}

/// `jsonschema::Validator::iter_errors` of the schema `schema_json` on the
/// document `metadata_json` (both JSON text): the compile error's text, or
/// the violations' texts.
#[verifier::external_body]
fn check_against_schema(schema_json: &str, metadata_json: &str) -> (r: Result<Vec<String>, String>)
    ensures
        check_view(r) == schema_check(schema_json@, metadata_json@),
{
    let schema: serde_json::Value = match serde_json::from_str(schema_json) {
        Ok(v) => v,
        Err(e) => return Err(e.to_string()),
    };
    let metadata: serde_json::Value = match serde_json::from_str(metadata_json) {
        Ok(v) => v,
        Err(e) => return Err(e.to_string()),
    };
    match jsonschema::validator_for(&schema) {
        Ok(validator) => Ok(validator.iter_errors(&metadata).map(|e| e.to_string()).collect()),
        Err(e) => Err(e.to_string()),
    }
}

/// The texts a check outcome carries.
pub open spec fn check_view(check: Result<Vec<String>, String>) -> Result<Seq<Seq<char>>, Seq<char>> {
    match check {
        Ok(v) => Ok(crate::text::texts_of(v@)),
        Err(e) => Err(e@),
    }
}

/// The verdict on a schema given its compile outcome.
pub open spec fn schema_verdict(rejection: Option<Seq<char>>) -> Option<Seq<char>> {
    match rejection {
        None => None,
        Some(e) => Some("metadata_schema is not a valid JSON Schema: "@ + e),
    }
}

/// Decides a metadata schema from its compile outcome.
pub fn decide_metadata_schema(rejection: Option<String>) -> (r: Result<(), DomainError>)
    ensures
        follows_verdict(
            schema_verdict(
                match rejection {
                    Some(e) => Some(e@),
                    None => None,
                },
            ),
            r,
        ),
{
    match rejection {
        None => Ok(()),
        Some(e) => Err(DomainError::validation(joined("metadata_schema is not a valid JSON Schema: ", e.as_str()))),
    }
}

/// Validates that `schema_json` (JSON text) is a valid JSON Schema.
pub fn validate_metadata_schema(schema_json: &str) -> (r: Result<(), DomainError>)
    ensures
        follows_verdict(schema_verdict(schema_rejection(schema_json@)), r),
{
    decide_metadata_schema(compile_schema(schema_json))
}

/// The verdict on metadata given the outcome of checking it.
pub open spec fn metadata_verdict(check: Result<Seq<Seq<char>>, Seq<char>>) -> Option<Seq<char>> {
    match check {
        Err(e) => Some("metadata_schema is invalid: "@ + e),
        Ok(violations) => if violations.len() == 0 {
            None
        } else {
            Some("Metadata does not match type schema: "@ + crate::text::joined_with(violations, "; "@))
        },
    }
}

/// Decides metadata from the outcome of checking it against its schema: a
/// schema that does not compile, or any violation, rejects it (all
/// violations listed, "; "-separated).
pub fn decide_metadata(check: Result<Vec<String>, String>) -> (r: Result<(), DomainError>)
    ensures
        follows_verdict(metadata_verdict(check_view(check)), r),
{
    match check {
        Err(e) => Err(DomainError::validation(joined("metadata_schema is invalid: ", e.as_str()))),
        Ok(violations) => {
            if violations.len() == 0 {
                Ok(())
            } else {
                let listed = crate::text::join_texts(&violations, "; ");
                Err(DomainError::validation(joined("Metadata does not match type schema: ", listed.as_str())))
            }
        },
    }
}

/// Validates a metadata document against a raw JSON Schema (both JSON
/// text); passes trivially when either is absent.
pub fn validate_metadata_against_schema(metadata_json: Option<&str>, schema_json: Option<&str>) -> (r: Result<
    (),
    DomainError,
>)
    ensures
        match (metadata_json, schema_json) {
            (Some(m), Some(s)) => follows_verdict(metadata_verdict(schema_check(s@, m@)), r),
            _ => r is Ok,
        },
{
    match (metadata_json, schema_json) {
        (Some(metadata), Some(schema)) => decide_metadata(check_against_schema(schema, metadata)),
        _ => Ok(()),
    }
}

/// What the types registry answered for a type's schema.
#[derive(Debug, Clone)]
pub enum SchemaLookup {
    /// The type has no registered schema.
    NotRegistered,
    /// The lookup failed; the error's text.
    Failed(String),
    /// The resolved schema's effective `metadata` property (JSON Schema as
    /// JSON text), if the type declares one at any level of its chain.
    Resolved(Option<String>),
}

/// The verdict on metadata checked through the registry's resolved schema.
pub open spec fn gts_metadata_verdict(type_code: Seq<char>, lookup: SchemaLookup, metadata: Seq<char>) -> Option<Seq<char>> {
    match lookup {
        SchemaLookup::NotRegistered => None,
        SchemaLookup::Failed(e) => Some(
            "Failed to resolve GTS type '"@ + type_code + "' for metadata validation: "@ + e@,
        ),
        SchemaLookup::Resolved(None) => None,
        SchemaLookup::Resolved(Some(schema)) => match schema_check(schema@, metadata) {
            Err(e) => Some("Type metadata_schema is invalid: "@ + e),
            Ok(violations) => if violations.len() == 0 {
                None
            } else {
                Some("Metadata does not match type schema: "@ + crate::text::joined_with(violations, "; "@))
            },
        },
    }
}

/// Whether validating metadata through the types registry needs the type's
/// schema from the registry: exactly when there is metadata to validate.
/// Without metadata the validation passes and the registry is not asked.
pub fn needs_schema_lookup(metadata_json: Option<&str>) -> (r: bool)
    ensures
        r == metadata_json is Some,
{
    metadata_json.is_some()
}

/// Validates metadata (JSON text) of a resource group of `type_code` against
/// the schema the types registry resolved for that type: nothing to check
/// without metadata, without a registered schema, or without a `metadata`
/// property in it; a failed lookup rejects; otherwise the metadata must
/// satisfy the property's schema.
pub fn decide_metadata_via_gts(metadata_json: Option<&str>, type_code: &str, lookup: SchemaLookup) -> (r: Result<
    (),
    DomainError,
>)
    ensures
        match metadata_json {
            None => r is Ok,
            Some(m) => follows_verdict(gts_metadata_verdict(type_code@, lookup, m@), r),
        },
{
    let metadata = match metadata_json {
        None => {
            return Ok(());
        },
        Some(m) => m,
    };
    match lookup {
        SchemaLookup::NotRegistered => Ok(()),
        SchemaLookup::Failed(e) => {
            let message = owned("Failed to resolve GTS type '").concat(type_code).concat(
                "' for metadata validation: ",
            ).concat(e.as_str());
            Err(DomainError::validation(message))
        },
        SchemaLookup::Resolved(None) => Ok(()),
        SchemaLookup::Resolved(Some(schema)) => match check_against_schema(schema.as_str(), metadata) {
            Err(e) => Err(DomainError::validation(joined("Type metadata_schema is invalid: ", e.as_str()))),
            Ok(violations) => {
                if violations.len() == 0 {
                    Ok(())
                } else {
                    let listed = crate::text::join_texts(&violations, "; ");
                    Err(DomainError::validation(joined("Metadata does not match type schema: ", listed.as_str())))
                }
            },
        },
    }
}

} // verus!
