//! Domain errors of the types registry: structured validation errors, the
//! lookup surface a not-found came from, and the registry's error enum with
//! its rendered messages.
use vstd::prelude::*;
use vstd::arithmetic::power2::pow2;

use crate::text::{decimal, decimal_text, joined, occurs_at, owned, split_once};

verus! {

/// A structured validation error: the entity's GTS id and the message.
#[derive(Debug, Clone, PartialEq, Eq)]
pub struct ValidationError {
    pub gts_id: String,
    pub message: String,
}

/// Whether `e` is what parsing the text `s` gives: split at the first ": "
/// into id and message, or the id "unknown" and the whole text as message
/// when there is no ": ".
pub open spec fn parsed_from(s: Seq<char>, e: ValidationError) -> bool {
    if exists|i: int| occurs_at(s, ": "@, i) {
        &&& s == e.gts_id@ + ": "@ + e.message@
        &&& occurs_at(s, ": "@, e.gts_id@.len() as int)
        &&& forall|i: int| 0 <= i < e.gts_id@.len() ==> !occurs_at(s, ": "@, i)
    } else {
        e.gts_id@ == "unknown"@ && e.message@ == s
    }
}

/// The rendered text of a validation error.
pub open spec fn validation_text(e: ValidationError) -> Seq<char> {
    e.gts_id@ + ": "@ + e.message@
}

impl ValidationError {
    /// A validation error for `gts_id` with `message`.
    pub fn new(gts_id: &str, message: &str) -> (e: Self)
        ensures
            e.gts_id@ == gts_id@,
            e.message@ == message@,
    {
        ValidationError { gts_id: owned(gts_id), message: owned(message) }
    }

    /// Parses "`gts_id`: message": the text before the first ": " is the id
    /// and the rest the message; without a ": " the id is "unknown" and the
    /// whole text the message.
    pub fn from_string(s: &str) -> (e: Self)
        ensures
            parsed_from(s@, e),
    {
        match split_once(s, ": ") {
            Some((gts_id, message)) => ValidationError { gts_id, message },
            None => ValidationError::new("unknown", s),
        }
    }

    /// The rendered text: "`gts_id`: message".
    pub fn to_text(&self) -> (t: String)
        ensures
            t@ == validation_text(*self),
    {
        let head = joined(self.gts_id.as_str(), ": ");
        joined(head.as_str(), self.message.as_str())
    }
}

/// Which surface a not-found lookup used.
#[derive(Debug, Clone, Copy, PartialEq, Eq)]
pub enum LookupKind {
    /// Lookup by canonical GTS id string.
    GtsId,
    /// Lookup by deterministic UUID v5.
    Uuid,
}

/// The rendered text of a lookup kind.
pub open spec fn lookup_kind_text(k: LookupKind) -> Seq<char> {
    match k {
        LookupKind::GtsId => "GTS ID"@,
        LookupKind::Uuid => "UUID"@,
    }
}

impl LookupKind {
    /// The rendered text: "GTS ID" or "UUID".
    pub fn to_text(&self) -> (t: String)
        ensures
            t@ == lookup_kind_text(*self),
    {
        match self {
            LookupKind::GtsId => owned("GTS ID"),
            LookupKind::Uuid => owned("UUID"),
        }
    }
}

/// Domain-level errors of the types registry.
#[derive(Debug)]
pub enum DomainError {
    /// The GTS id format is invalid.
    InvalidGtsId(String),
    /// The requested entity was not found via the `kind` lookup surface.
    NotFound { kind: LookupKind, target: String },
    /// An entity with the same GTS id already exists.
    AlreadyExists(String),
    /// A batch-register item's parent type-schema is not registered.
    ParentTypeSchemaNotRegistered { parent_type_id: String, dependent_id: String },
    /// The list/query parameters are syntactically invalid.
    InvalidQuery(String),
    /// Validation of the entity content failed.
    ValidationFailed(String),
    /// The operation requires ready mode.
    NotInReadyMode,
    /// Multiple validation errors occurred while switching to ready mode.
    ReadyCommitFailed(Vec<ValidationError>),
    /// An internal error, carried as its message.
    Internal(String),
}

/// The hexadecimal digit character of `d` (lower case).
pub open spec fn hex_char(d: nat) -> char {
    if d < 10 {
        (d + 48) as char
    } else {
        (d + 87) as char
    }
}

/// The `q`-th hexadecimal digit of `n` counted from the most significant of
/// its 32 digits.
pub open spec fn uuid_nibble(n: u128, q: nat) -> nat {
    ((n as nat / pow2((4 * (31 - q)) as nat)) % 16) as nat
}

/// The hyphenated lower-case text of the 128-bit UUID value `n`: 32 hex
/// digits, most significant first, grouped 8-4-4-4-12.
pub open spec fn uuid_text(n: u128) -> Seq<char> {
    Seq::new(
        36,
        |p: int|
            if p == 8 || p == 13 || p == 18 || p == 23 {
                '-'
            } else {
                let q = if p < 8 {
                    p
                } else if p < 13 {
                    p - 1
                } else if p < 18 {
                    p - 2
                } else if p < 23 {
                    p - 3
                } else {
                    p - 4
                };
                hex_char(uuid_nibble(n, q as nat))
            },
    )
}

/// Renders a 128-bit UUID value (`Uuid::from_u128` then `to_string`: the
/// hyphenated lower-case form).
#[verifier::external_body]
pub(crate) fn uuid_hyphenated(bits: u128) -> (s: String)
    ensures
        s@ == uuid_text(bits),
{
    uuid::Uuid::from_u128(bits).to_string()
}

/// The rendered message of a domain error.
pub open spec fn message_text(e: DomainError) -> Seq<char> {
    match e {
        DomainError::InvalidGtsId(m) => "Invalid GTS ID: "@ + m@,
        DomainError::NotFound { kind, target } => "Entity not found ("@ + lookup_kind_text(kind) + "): "@
            + target@,
        DomainError::AlreadyExists(m) => "Entity already exists: "@ + m@,
        DomainError::ParentTypeSchemaNotRegistered { parent_type_id, dependent_id } => "Cannot register "@
            + dependent_id@ + ": required type-schema "@ + parent_type_id@ + " is not registered"@,
        DomainError::InvalidQuery(m) => "Invalid query: "@ + m@,
        DomainError::ValidationFailed(m) => "Validation failed: "@ + m@,
        DomainError::NotInReadyMode => "Not in ready mode"@,
        DomainError::ReadyCommitFailed(errors) => "Ready commit failed with "@ + decimal(errors@.len()) + " errors"@,
        DomainError::Internal(m) => "Internal error: "@ + m@,
    }
}

impl DomainError {
    /// An `InvalidGtsId` error.
    pub fn invalid_gts_id(message: &str) -> (e: Self)
        ensures
            e matches DomainError::InvalidGtsId(m) && m@ == message@,
    {
        DomainError::InvalidGtsId(owned(message))
    }

    /// A `NotFound` error for a GTS-id-keyed lookup miss.
    pub fn not_found_by_id(gts_id: &str) -> (e: Self)
        ensures
            e matches DomainError::NotFound { kind, target } && kind == LookupKind::GtsId && target@ == gts_id@,
    {
        DomainError::NotFound { kind: LookupKind::GtsId, target: owned(gts_id) }
    }

    /// A `NotFound` error for a UUID-keyed lookup miss; the target is the
    /// UUID's hyphenated text.
    pub fn not_found_by_uuid(uuid: u128) -> (e: Self)
        ensures
            e matches DomainError::NotFound { kind, target } && kind == LookupKind::Uuid && target@ == uuid_text(
                uuid,
            ),
    {
        DomainError::NotFound { kind: LookupKind::Uuid, target: uuid_hyphenated(uuid) }
    }

    /// An `AlreadyExists` error.
    pub fn already_exists(gts_id: &str) -> (e: Self)
        ensures
            e matches DomainError::AlreadyExists(m) && m@ == gts_id@,
    {
        DomainError::AlreadyExists(owned(gts_id))
    }

    /// An `InvalidQuery` error.
    pub fn invalid_query(message: &str) -> (e: Self)
        ensures
            e matches DomainError::InvalidQuery(m) && m@ == message@,
    {
        DomainError::InvalidQuery(owned(message))
    }

    /// A `ValidationFailed` error.
    pub fn validation_failed(message: &str) -> (e: Self)
        ensures
            e matches DomainError::ValidationFailed(m) && m@ == message@,
    {
        DomainError::ValidationFailed(owned(message))
    }

    /// An `Internal` error carrying the text of an unclassified failure.
    pub fn from_error_text(text: &str) -> (e: Self)
        ensures
            e matches DomainError::Internal(m) && m@ == text@,
    {
        DomainError::Internal(owned(text))
    }

    /// The validation errors of a `ReadyCommitFailed`, if this is one.
    pub fn validation_errors(&self) -> (r: Option<&Vec<ValidationError>>)
        ensures
            r is Some <==> self is ReadyCommitFailed,
            r matches Some(v) ==> (*self matches DomainError::ReadyCommitFailed(errors) && *v == errors),
    {
        match self {
            DomainError::ReadyCommitFailed(errors) => Some(errors),
            _ => None,
        }
    }

    /// The rendered message.
    pub fn to_text(&self) -> (t: String)
        ensures
            t@ == message_text(*self),
    {
        match self {
            DomainError::InvalidGtsId(m) => joined("Invalid GTS ID: ", m.as_str()),
            DomainError::NotFound { kind, target } => {
                let k = kind.to_text();
                let a = joined("Entity not found (", k.as_str());
                let b = joined(a.as_str(), "): ");
                joined(b.as_str(), target.as_str())
            },
            DomainError::AlreadyExists(m) => joined("Entity already exists: ", m.as_str()),
            DomainError::ParentTypeSchemaNotRegistered { parent_type_id, dependent_id } => {
                let a = joined("Cannot register ", dependent_id.as_str());
                let b = joined(a.as_str(), ": required type-schema ");
                let c = joined(b.as_str(), parent_type_id.as_str());
                joined(c.as_str(), " is not registered")
            },
            DomainError::InvalidQuery(m) => joined("Invalid query: ", m.as_str()),
            DomainError::ValidationFailed(m) => joined("Validation failed: ", m.as_str()),
            DomainError::NotInReadyMode => owned("Not in ready mode"),
            DomainError::ReadyCommitFailed(errors) => {
                let n = decimal_text(errors.len() as u64);
                let a = joined("Ready commit failed with ", n.as_str());
                joined(a.as_str(), " errors")
            },
            DomainError::Internal(m) => joined("Internal error: ", m.as_str()),
        }
    }
}

/// Parsing the rendering of a validation error gives the error back, except
/// when the rendered text holds a ": " that starts inside the id, where the
/// parse splits there instead.
pub proof fn law_validation_error_text_round_trip(e: ValidationError, parsed: ValidationError)
    requires
        forall|i: int| 0 <= i < e.gts_id@.len() ==> !#[trigger] occurs_at(validation_text(e), ": "@, i),
        parsed_from(validation_text(e), parsed),
    ensures
        parsed.gts_id@ == e.gts_id@,
        parsed.message@ == e.message@,
{
    reveal_strlit(": ");
    let s = validation_text(e);
    let n = e.gts_id@.len() as int;
    assert(s.subrange(n, n + 2) =~= ": "@);
    assert(occurs_at(s, ": "@, n));
    let m = parsed.gts_id@.len() as int;
    if m < n {
        assert(occurs_at(s, ": "@, m));
    } else if m > n {
        assert(!occurs_at(s, ": "@, n));
    }
    assert(m == n);
    assert(parsed.gts_id@ =~= s.subrange(0, n));
    assert(e.gts_id@ =~= s.subrange(0, n));
    assert(parsed.message@ =~= s.subrange(n + 2, s.len() as int));
    assert(e.message@ =~= s.subrange(n + 2, s.len() as int));
}

} // verus!
