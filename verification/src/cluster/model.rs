//! The reference model and replay oracle for the cache contract.
//!
//! A sequence of cache operations is replayed against a backend and against
//! a trivial reference model, and after every operation the backend's
//! observable state is checked against the model. The model tracks value and
//! presence exactly; versions are checked only for what the contract
//! guarantees: a present entry's version is not 0, a successful mutation of a
//! continuously-present key strictly increases it, and a non-mutating
//! operation leaves it unchanged.
//!
//! The replay itself talks to the backend; the functions here make every
//! decision from what the backend answered.
use vstd::prelude::*;
use vstd::hash_map::StringHashMap;
use vstd::slice::slice_to_vec;

use crate::cluster::cache::CacheEntry;
use crate::cluster::store::same_bytes;
use crate::text::{bytes_debug, bytes_text, debug_quoted, debug_text, decimal, decimal_text, owned};

verus! {

/// A trivial single-threaded reference cache: value and presence only.
pub struct CacheModel {
    map: StringHashMap<Vec<u8>>,
}

impl CacheModel {
    /// The key → value contents.
    pub closed spec fn contents(&self) -> Map<Seq<char>, Seq<u8>> {
        Map::new(|k: Seq<char>| self.map@.contains_key(k), |k: Seq<char>| self.map@[k]@)
    }

    /// An empty model.
    pub fn new() -> (m: Self)
        ensures
            m.contents() == Map::<Seq<char>, Seq<u8>>::empty(),
    {
        let m = CacheModel { map: StringHashMap::new() };
        assert(m.contents() =~= Map::<Seq<char>, Seq<u8>>::empty());
        m
    }

    /// The value currently stored under `key`, if any.
    pub fn get(&self, key: &str) -> (r: Option<&Vec<u8>>)
        ensures
            r is Some <==> self.contents().contains_key(key@),
            r matches Some(v) ==> v@ == self.contents()[key@],
    {
        self.map.get(key)
    }

    /// Whether `key` is present.
    pub fn contains(&self, key: &str) -> (r: bool)
        ensures
            r == self.contents().contains_key(key@),
    {
        self.map.contains_key(key)
    }

    /// Unconditional overwrite.
    pub fn put(&mut self, key: &str, value: &[u8])
        ensures
            final(self).contents() == old(self).contents().insert(key@, value@),
    {
        self.map.insert(owned(key), slice_to_vec(value));
        assert(self.contents() =~= old(self).contents().insert(key@, value@));
    }

    /// Create-if-absent; returns whether it created.
    pub fn create_if_absent(&mut self, key: &str, value: &[u8]) -> (created: bool)
        ensures
            created == !old(self).contents().contains_key(key@),
            final(self).contents() == (if created {
                old(self).contents().insert(key@, value@)
            } else {
                old(self).contents()
            }),
    {
        if self.map.contains_key(key) {
            false
        } else {
            self.put(key, value);
            true
        }
    }

    /// Delete; returns whether the key existed.
    pub fn remove(&mut self, key: &str) -> (existed: bool)
        ensures
            existed == old(self).contents().contains_key(key@),
            final(self).contents() == old(self).contents().remove(key@),
    {
        let existed = self.map.contains_key(key);
        self.map.remove(key);
        assert(self.contents() =~= old(self).contents().remove(key@));
        existed
    }
}

impl Default for CacheModel {
    fn default() -> (m: Self)
        ensures
            m.contents() == Map::<Seq<char>, Seq<u8>>::empty(),
    {
        CacheModel::new()
    }
}

/// How a generated compare-and-swap picks its expected version, resolved
/// against a live read at replay time.
#[derive(Debug, Clone, Copy, PartialEq, Eq)]
pub enum VersionTarget {
    /// Use the key's current backend version — should succeed iff present.
    Current,
    /// Use a deliberately stale version — should always conflict.
    Stale,
}

/// One operation in the model alphabet.
#[derive(Debug, Clone)]
pub enum CacheOp {
    /// Unconditional overwrite (always mutates).
    Put { key: String, value: Vec<u8> },
    /// Atomic create-if-absent (mutates iff it created).
    PutIfAbsent { key: String, value: Vec<u8> },
    /// Version-guarded compare-and-swap (mutates iff it succeeded).
    CompareAndSwap { key: String, target: VersionTarget, value: Vec<u8> },
    /// Unconditional delete (mutates iff the key existed).
    Delete { key: String },
}

/// The key an operation targets.
pub open spec fn op_key(op: CacheOp) -> Seq<char> {
    match op {
        CacheOp::Put { key, .. } => key@,
        CacheOp::PutIfAbsent { key, .. } => key@,
        CacheOp::CompareAndSwap { key, .. } => key@,
        CacheOp::Delete { key } => key@,
    }
}

impl CacheOp {
    /// The key this operation targets.
    pub fn key(&self) -> (k: &str)
        ensures
            k@ == op_key(*self),
    {
        match self {
            CacheOp::Put { key, .. } => key.as_str(),
            CacheOp::PutIfAbsent { key, .. } => key.as_str(),
            CacheOp::CompareAndSwap { key, .. } => key.as_str(),
            CacheOp::Delete { key } => key.as_str(),
        }
    }
}

/// The expected version a compare-and-swap sends for `target`, given the
/// backend's current version (0 when absent).
pub open spec fn expected_version_for(target: VersionTarget, current: u64) -> u64 {
    match target {
        VersionTarget::Current => current,
        VersionTarget::Stale => if current == u64::MAX { 0 } else { (current + 1) as u64 },
    }
}

/// Resolves a compare-and-swap target against the backend's current version
/// (0 when the key is absent): the version itself, or one past it (wrapping)
/// so that it never matches the live version.
pub fn expected_version(target: VersionTarget, current: u64) -> (v: u64)
    ensures
        v == expected_version_for(target, current),
        target is Stale ==> v != current,
{
    match target {
        VersionTarget::Current => current,
        VersionTarget::Stale => current.wrapping_add(1),
    }
}

/// What the backend answered to a compare-and-swap.
#[derive(Debug, Clone)]
pub enum CasReply {
    /// Reading the current version before the swap failed.
    ReadFailed(String),
    /// The swap applied.
    Swapped,
    /// The swap reported a version conflict.
    Conflict,
    /// The swap failed with some other error.
    Failed(String),
}

/// What the backend answered to one replayed operation; an `Err` carries the
/// backend's error text.
#[derive(Debug)]
pub enum OpReply {
    Put(Result<(), String>),
    /// Whether the create-if-absent created the entry.
    PutIfAbsent(Result<bool, String>),
    CompareAndSwap(CasReply),
    /// Whether the delete found the key.
    Delete(Result<bool, String>),
}

/// Which backend call failed.
#[derive(Debug, Clone, Copy, PartialEq, Eq)]
pub enum Operation {
    Put,
    PutIfAbsent,
    ReadForSwap,
    CompareAndSwap,
    Delete,
    ReadAfter,
}

/// How the backend diverged from the model.
#[derive(Debug, Clone)]
pub enum DivergenceKind {
    /// A backend call returned an unexpected error.
    BackendError { operation: Operation, detail: String },
    /// A create-if-absent created (or not) against the model's expectation.
    CreateMismatch { created: bool, expected: bool },
    /// A compare-and-swap applied where the model expected a conflict.
    SwapUnexpected,
    /// A compare-and-swap conflicted where the model expected success.
    ConflictUnexpected,
    /// A delete found the key (or not) against the model's expectation.
    DeleteMismatch { existed: bool, expected: bool },
    /// The backend holds another value than the model.
    ValueMismatch { backend: Vec<u8>, model: Vec<u8> },
    /// A present entry carries the reserved version 0.
    ZeroVersion,
    /// A mutation did not strictly increase the version.
    VersionNotIncreased { previous: u64, current: u64 },
    /// A non-mutating operation changed the version.
    VersionChanged { previous: u64, current: u64 },
    /// The backend holds a key the model deleted.
    UnexpectedPresent { version: u64 },
    /// The backend lacks a key the model holds.
    UnexpectedAbsent { model: Vec<u8> },
}

/// The first invariant violation, tagged with the operation's index and key.
#[derive(Debug, Clone)]
pub struct Divergence {
    pub index: usize,
    pub key: String,
    pub kind: DivergenceKind,
}

/// A divergence's kind without its payload.
#[derive(Debug, Clone, Copy, PartialEq, Eq)]
pub enum DivergenceTag {
    BackendError,
    CreateMismatch,
    SwapUnexpected,
    ConflictUnexpected,
    DeleteMismatch,
    ValueMismatch,
    ZeroVersion,
    VersionNotIncreased,
    VersionChanged,
    UnexpectedPresent,
    UnexpectedAbsent,
}

/// The tag of a divergence kind.
pub open spec fn tag_of(kind: DivergenceKind) -> DivergenceTag {
    match kind {
        DivergenceKind::BackendError { .. } => DivergenceTag::BackendError,
        DivergenceKind::CreateMismatch { .. } => DivergenceTag::CreateMismatch,
        DivergenceKind::SwapUnexpected => DivergenceTag::SwapUnexpected,
        DivergenceKind::ConflictUnexpected => DivergenceTag::ConflictUnexpected,
        DivergenceKind::DeleteMismatch { .. } => DivergenceTag::DeleteMismatch,
        DivergenceKind::ValueMismatch { .. } => DivergenceTag::ValueMismatch,
        DivergenceKind::ZeroVersion => DivergenceTag::ZeroVersion,
        DivergenceKind::VersionNotIncreased { .. } => DivergenceTag::VersionNotIncreased,
        DivergenceKind::VersionChanged { .. } => DivergenceTag::VersionChanged,
        DivergenceKind::UnexpectedPresent { .. } => DivergenceTag::UnexpectedPresent,
        DivergenceKind::UnexpectedAbsent { .. } => DivergenceTag::UnexpectedAbsent,
    }
}

/// The verdict on one applied operation: accepted (with whether it mutated
/// the key), or rejected with a divergence tag.
pub enum ApplyVerdict {
    Accepted(bool),
    Rejected(DivergenceTag),
}

/// Whether a compare-and-swap should succeed per the model.
pub open spec fn swap_expected(m: Map<Seq<char>, Seq<u8>>, key: Seq<char>, target: VersionTarget) -> bool {
    target is Current && m.contains_key(key)
}

/// The verdict on applying `op` to the model `m`, given the backend's reply.
pub open spec fn apply_verdict(m: Map<Seq<char>, Seq<u8>>, op: CacheOp, reply: OpReply) -> ApplyVerdict {
    match (op, reply) {
        (CacheOp::Put { .. }, OpReply::Put(Ok(()))) => ApplyVerdict::Accepted(true),
        (CacheOp::PutIfAbsent { key, .. }, OpReply::PutIfAbsent(Ok(created))) => {
            if created == !m.contains_key(key@) {
                ApplyVerdict::Accepted(created)
            } else {
                ApplyVerdict::Rejected(DivergenceTag::CreateMismatch)
            }
        },
        (CacheOp::CompareAndSwap { key, target, .. }, OpReply::CompareAndSwap(CasReply::Swapped)) => {
            if swap_expected(m, key@, target) {
                ApplyVerdict::Accepted(true)
            } else {
                ApplyVerdict::Rejected(DivergenceTag::SwapUnexpected)
            }
        },
        (CacheOp::CompareAndSwap { key, target, .. }, OpReply::CompareAndSwap(CasReply::Conflict)) => {
            if swap_expected(m, key@, target) {
                ApplyVerdict::Rejected(DivergenceTag::ConflictUnexpected)
            } else {
                ApplyVerdict::Accepted(false)
            }
        },
        (CacheOp::Delete { key }, OpReply::Delete(Ok(existed))) => {
            if existed == m.contains_key(key@) {
                ApplyVerdict::Accepted(existed)
            } else {
                ApplyVerdict::Rejected(DivergenceTag::DeleteMismatch)
            }
        },
        _ => ApplyVerdict::Rejected(DivergenceTag::BackendError),
    }
}

/// The model after applying `op` given the backend's reply (a rejected
/// operation may still have updated the model; the replay stops there).
pub open spec fn model_after(m: Map<Seq<char>, Seq<u8>>, op: CacheOp, reply: OpReply) -> Map<Seq<char>, Seq<u8>> {
    match (op, reply) {
        (CacheOp::Put { key, value }, OpReply::Put(Ok(()))) => m.insert(key@, value@),
        (CacheOp::PutIfAbsent { key, value }, OpReply::PutIfAbsent(Ok(_))) => {
            if m.contains_key(key@) {
                m
            } else {
                m.insert(key@, value@)
            }
        },
        (CacheOp::CompareAndSwap { key, target, value }, OpReply::CompareAndSwap(CasReply::Swapped)) => {
            if swap_expected(m, key@, target) {
                m.insert(key@, value@)
            } else {
                m
            }
        },
        (CacheOp::Delete { key }, OpReply::Delete(Ok(_))) => m.remove(key@),
        _ => m,
    }
}

/// The operation whose backend call an error reply reports.
pub open spec fn failed_operation(reply: OpReply) -> Operation {
    match reply {
        OpReply::Put(_) => Operation::Put,
        OpReply::PutIfAbsent(_) => Operation::PutIfAbsent,
        OpReply::CompareAndSwap(CasReply::ReadFailed(_)) => Operation::ReadForSwap,
        OpReply::CompareAndSwap(_) => Operation::CompareAndSwap,
        OpReply::Delete(_) => Operation::Delete,
    }
}

/// Whether a reply answers the kind of operation it is paired with.
pub open spec fn reply_fits(op: CacheOp, reply: OpReply) -> bool {
    match (op, reply) {
        (CacheOp::Put { .. }, OpReply::Put(_)) => true,
        (CacheOp::PutIfAbsent { .. }, OpReply::PutIfAbsent(_)) => true,
        (CacheOp::CompareAndSwap { .. }, OpReply::CompareAndSwap(_)) => true,
        (CacheOp::Delete { .. }, OpReply::Delete(_)) => true,
        _ => false,
    }
}

/// The backend error text a failing reply carries.
fn failure_detail(reply: &OpReply) -> (d: Option<&String>)
    ensures
        d is Some <==> apply_verdict_is_backend_error(*reply),
        d matches Some(e) ==> reply_failure(*reply) == Some(e@),
        d is None ==> reply_failure(*reply) is None,
{
    match reply {
        OpReply::Put(Err(e)) => Some(e),
        OpReply::PutIfAbsent(Err(e)) => Some(e),
        OpReply::CompareAndSwap(CasReply::ReadFailed(e)) => Some(e),
        OpReply::CompareAndSwap(CasReply::Failed(e)) => Some(e),
        OpReply::Delete(Err(e)) => Some(e),
        _ => None,
    }
}

/// Whether a reply reports a backend error.
pub open spec fn apply_verdict_is_backend_error(reply: OpReply) -> bool {
    match reply {
        OpReply::Put(Err(_)) => true,
        OpReply::PutIfAbsent(Err(_)) => true,
        OpReply::CompareAndSwap(CasReply::ReadFailed(_)) => true,
        OpReply::CompareAndSwap(CasReply::Failed(_)) => true,
        OpReply::Delete(Err(_)) => true,
        _ => false,
    }
}

/// The backend error text a reply carries, if it reports an error.
pub open spec fn reply_failure(reply: OpReply) -> Option<Seq<char>> {
    match reply {
        OpReply::Put(Err(e)) => Some(e@),
        OpReply::PutIfAbsent(Err(e)) => Some(e@),
        OpReply::CompareAndSwap(CasReply::ReadFailed(e)) => Some(e@),
        OpReply::CompareAndSwap(CasReply::Failed(e)) => Some(e@),
        OpReply::Delete(Err(e)) => Some(e@),
        _ => None,
    }
}

/// How a backend call is named in a divergence report.
pub open spec fn operation_word(o: Operation) -> Seq<char> {
    match o {
        Operation::Put => "put"@,
        Operation::PutIfAbsent => "put_if_absent"@,
        Operation::ReadForSwap => "get (for CAS)"@,
        Operation::CompareAndSwap => "compare_and_swap"@,
        Operation::Delete => "delete"@,
        Operation::ReadAfter => "get (post-op)"@,
    }
}

/// The text of a boolean.
pub open spec fn bool_text(b: bool) -> Seq<char> {
    if b {
        "true"@
    } else {
        "false"@
    }
}

/// The reason a divergence of `kind` is reported with.
pub open spec fn kind_reason(kind: DivergenceKind) -> Seq<char> {
    match kind {
        DivergenceKind::BackendError { operation, detail } => operation_word(operation) + " errored: "@ + detail@,
        DivergenceKind::CreateMismatch { created, expected } => "put_if_absent created="@ + bool_text(created)
            + " but model expected "@ + bool_text(expected),
        DivergenceKind::SwapUnexpected => "compare_and_swap succeeded but the model expected a conflict"@,
        DivergenceKind::ConflictUnexpected => "compare_and_swap conflicted but the model expected success"@,
        DivergenceKind::DeleteMismatch { existed, expected } => "delete existed="@ + bool_text(existed)
            + " but model expected "@ + bool_text(expected),
        DivergenceKind::ValueMismatch { backend, model } => "value divergence: backend "@ + bytes_text(backend@)
            + " vs model "@ + bytes_text(model@),
        DivergenceKind::ZeroVersion => "present entry has version 0 (sentinel)"@,
        DivergenceKind::VersionNotIncreased { previous, current } => "version not strictly increasing on mutation: "@
            + decimal(previous as nat) + " -> "@ + decimal(current as nat),
        DivergenceKind::VersionChanged { previous, current } => "version changed on a non-mutating op: "@ + decimal(
            previous as nat,
        ) + " -> "@ + decimal(current as nat),
        DivergenceKind::UnexpectedPresent { version } => "backend has the key (v"@ + decimal(version as nat)
            + ") but the model deleted it"@,
        DivergenceKind::UnexpectedAbsent { model } => "backend is missing the key but the model holds "@ + bytes_text(
            model@,
        ),
    }
}

/// A divergence report: the operation's index and key, then the reason.
pub open spec fn divergence_text(index: nat, key: Seq<char>, reason: Seq<char>) -> Seq<char> {
    "op #"@ + decimal(index) + " on key "@ + debug_text(key) + ": "@ + reason
}

/// The reason applying `op` to the model `m` rejects the backend's `reply`.
pub open spec fn apply_reason(m: Map<Seq<char>, Seq<u8>>, op: CacheOp, reply: OpReply) -> Seq<char> {
    match reply_failure(reply) {
        Some(e) => operation_word(failed_operation(reply)) + " errored: "@ + e,
        None => match reply {
            OpReply::PutIfAbsent(Ok(created)) => "put_if_absent created="@ + bool_text(created)
                + " but model expected "@ + bool_text(!m.contains_key(op_key(op))),
            OpReply::CompareAndSwap(CasReply::Swapped) => "compare_and_swap succeeded but the model expected a conflict"@,
            OpReply::CompareAndSwap(CasReply::Conflict) => "compare_and_swap conflicted but the model expected success"@,
            OpReply::Delete(Ok(existed)) => "delete existed="@ + bool_text(existed) + " but model expected "@
                + bool_text(m.contains_key(op_key(op))),
            _ => Seq::empty(),
        },
    }
}

/// The reason the backend's post-operation read `observed` of `key`
/// disagrees with the model `m` and the watermarks `marks`.
pub open spec fn check_reason(
    m: Map<Seq<char>, Seq<u8>>,
    marks: Map<Seq<char>, u64>,
    key: Seq<char>,
    observed: Result<Option<CacheEntry>, String>,
    mutated: bool,
) -> Seq<char> {
    match observed {
        Err(e) => operation_word(Operation::ReadAfter) + " errored: "@ + e@,
        Ok(Some(entry)) => {
            if !m.contains_key(key) {
                "backend has the key (v"@ + decimal(entry.version as nat) + ") but the model deleted it"@
            } else if entry.value@ != m[key] {
                "value divergence: backend "@ + bytes_text(entry.value@) + " vs model "@ + bytes_text(m[key])
            } else if entry.version == 0 {
                "present entry has version 0 (sentinel)"@
            } else if mutated {
                "version not strictly increasing on mutation: "@ + decimal(marks[key] as nat) + " -> "@ + decimal(
                    entry.version as nat,
                )
            } else {
                "version changed on a non-mutating op: "@ + decimal(marks[key] as nat) + " -> "@ + decimal(
                    entry.version as nat,
                )
            }
        },
        Ok(None) => "backend is missing the key but the model holds "@ + bytes_text(m[key]),
    }
}

/// The text of a boolean.
fn bool_word(b: bool) -> (t: &'static str)
    ensures
        t@ == bool_text(b),
{
    if b {
        "true"
    } else {
        "false"
    }
}

/// Renders a divergence report: `op #<index> on key <key, Debug-quoted>:
/// <reason>`, with byte lists in their `Debug` form.
pub fn render_divergence(d: &Divergence) -> (s: String)
    ensures
        s@ == divergence_text(d.index as nat, d.key@, kind_reason(d.kind)),
{
    let reason: String = match &d.kind {
        DivergenceKind::BackendError { operation, detail } => {
            let word = match operation {
                Operation::Put => "put",
                Operation::PutIfAbsent => "put_if_absent",
                Operation::ReadForSwap => "get (for CAS)",
                Operation::CompareAndSwap => "compare_and_swap",
                Operation::Delete => "delete",
                Operation::ReadAfter => "get (post-op)",
            };
            owned(word).concat(" errored: ").concat(detail.as_str())
        },
        DivergenceKind::CreateMismatch { created, expected } => owned("put_if_absent created=").concat(
            bool_word(*created),
        ).concat(" but model expected ").concat(bool_word(*expected)),
        DivergenceKind::SwapUnexpected => owned("compare_and_swap succeeded but the model expected a conflict"),
        DivergenceKind::ConflictUnexpected => owned("compare_and_swap conflicted but the model expected success"),
        DivergenceKind::DeleteMismatch { existed, expected } => owned("delete existed=").concat(
            bool_word(*existed),
        ).concat(" but model expected ").concat(bool_word(*expected)),
        DivergenceKind::ValueMismatch { backend, model } => owned("value divergence: backend ").concat(
            bytes_debug(backend.as_slice()).as_str(),
        ).concat(" vs model ").concat(bytes_debug(model.as_slice()).as_str()),
        DivergenceKind::ZeroVersion => owned("present entry has version 0 (sentinel)"),
        DivergenceKind::VersionNotIncreased { previous, current } => owned(
            "version not strictly increasing on mutation: ",
        ).concat(decimal_text(*previous).as_str()).concat(" -> ").concat(decimal_text(*current).as_str()),
        DivergenceKind::VersionChanged { previous, current } => owned("version changed on a non-mutating op: ").concat(
            decimal_text(*previous).as_str(),
        ).concat(" -> ").concat(decimal_text(*current).as_str()),
        DivergenceKind::UnexpectedPresent { version } => owned("backend has the key (v").concat(
            decimal_text(*version).as_str(),
        ).concat(") but the model deleted it"),
        DivergenceKind::UnexpectedAbsent { model } => owned("backend is missing the key but the model holds ").concat(
            bytes_debug(model.as_slice()).as_str(),
        ),
    };
    owned("op #").concat(decimal_text(d.index as u64).as_str()).concat(" on key ").concat(
        debug_quoted(d.key.as_str()).as_str(),
    ).concat(": ").concat(reason.as_str())
}

/// A divergence at operation `index` on `key`.
fn diverge(index: usize, key: &str, kind: DivergenceKind) -> (d: Divergence)
    ensures
        d.index == index,
        d.key@ == key@,
        d.kind == kind,
{
    Divergence { index, key: owned(key), kind }
}

/// Applies `op` to the model given the backend's `reply`, deciding whether the
/// backend's success or failure of a conditional operation agrees with the
/// model. Returns whether the operation mutated the key.
pub fn apply_reply(model: &mut CacheModel, op: &CacheOp, index: usize, reply: OpReply) -> (r: Result<
    bool,
    Divergence,
>)
    requires
        reply_fits(*op, reply),
    ensures
        final(model).contents() == model_after(old(model).contents(), *op, reply),
        r matches Ok(mutated) ==> apply_verdict(old(model).contents(), *op, reply) == ApplyVerdict::Accepted(
            mutated,
        ),
        r matches Err(d) ==> d.index == index && d.key@ == op_key(*op) && apply_verdict(
            old(model).contents(),
            *op,
            reply,
        ) == ApplyVerdict::Rejected(tag_of(d.kind)),
        r matches Err(d) ==> (d.kind matches DivergenceKind::BackendError { operation, detail }
            ==> operation == failed_operation(reply)),
        r matches Err(d) ==> kind_reason(d.kind) == apply_reason(old(model).contents(), *op, reply),
        r is Ok <==> apply_verdict(old(model).contents(), *op, reply) is Accepted,
{
    let key = op.key();
    if let Some(detail) = failure_detail(&reply) {
        let operation = match &reply {
            OpReply::Put(_) => Operation::Put,
            OpReply::PutIfAbsent(_) => Operation::PutIfAbsent,
            OpReply::CompareAndSwap(CasReply::ReadFailed(_)) => Operation::ReadForSwap,
            OpReply::CompareAndSwap(_) => Operation::CompareAndSwap,
            OpReply::Delete(_) => Operation::Delete,
        };
        return Err(diverge(index, key, DivergenceKind::BackendError { operation, detail: detail.clone() }));
    }
    match op {
        CacheOp::Put { key, value } => {
            model.put(key.as_str(), value.as_slice());
            Ok(true)
        },
        CacheOp::PutIfAbsent { key, value } => {
            let created = match reply {
                OpReply::PutIfAbsent(Ok(created)) => created,
                _ => false,
            };
            let model_created = model.create_if_absent(key.as_str(), value.as_slice());
            if created != model_created {
                Err(diverge(index, key.as_str(), DivergenceKind::CreateMismatch { created, expected: model_created }))
            } else {
                Ok(created)
            }
        },
        CacheOp::CompareAndSwap { key, target, value } => {
            let swapped = match reply {
                OpReply::CompareAndSwap(CasReply::Swapped) => true,
                _ => false,
            };
            let should_succeed = match target {
                VersionTarget::Current => model.contains(key.as_str()),
                VersionTarget::Stale => false,
            };
            if swapped && should_succeed {
                model.put(key.as_str(), value.as_slice());
                Ok(true)
            } else if !swapped && !should_succeed {
                Ok(false)
            } else if swapped {
                Err(diverge(index, key.as_str(), DivergenceKind::SwapUnexpected))
            } else {
                Err(diverge(index, key.as_str(), DivergenceKind::ConflictUnexpected))
            }
        },
        CacheOp::Delete { key } => {
            let existed = match reply {
                OpReply::Delete(Ok(existed)) => existed,
                _ => false,
            };
            let model_existed = model.remove(key.as_str());
            if existed != model_existed {
                Err(diverge(index, key.as_str(), DivergenceKind::DeleteMismatch { existed, expected: model_existed }))
            } else {
                Ok(existed)
            }
        },
    }
}

/// The divergence, if any, found when the backend's post-operation read of
/// `key` is `observed` while the model holds `m` and the watermarks are
/// `marks`; `None` means the state agrees.
pub open spec fn check_verdict(
    m: Map<Seq<char>, Seq<u8>>,
    marks: Map<Seq<char>, u64>,
    key: Seq<char>,
    observed: Result<Option<CacheEntry>, String>,
    mutated: bool,
) -> Option<DivergenceTag> {
    match observed {
        Err(_) => Some(DivergenceTag::BackendError),
        Ok(Some(entry)) => {
            if !m.contains_key(key) {
                Some(DivergenceTag::UnexpectedPresent)
            } else if entry.value@ != m[key] {
                Some(DivergenceTag::ValueMismatch)
            } else if entry.version == 0 {
                Some(DivergenceTag::ZeroVersion)
            } else if marks.contains_key(key) && mutated && entry.version <= marks[key] {
                Some(DivergenceTag::VersionNotIncreased)
            } else if marks.contains_key(key) && !mutated && entry.version != marks[key] {
                Some(DivergenceTag::VersionChanged)
            } else {
                None
            }
        },
        Ok(None) => {
            if m.contains_key(key) {
                Some(DivergenceTag::UnexpectedAbsent)
            } else {
                None
            }
        },
    }
}

/// The watermarks after an agreeing check: the observed version is recorded
/// for a present key and the mark is cleared for an absent one.
pub open spec fn marks_after(
    marks: Map<Seq<char>, u64>,
    key: Seq<char>,
    observed: Result<Option<CacheEntry>, String>,
) -> Map<Seq<char>, u64> {
    match observed {
        Ok(Some(entry)) => marks.insert(key, entry.version),
        Ok(None) => marks.remove(key),
        Err(_) => marks,
    }
}

/// Per-key high-water version marks.
pub type Watermarks = StringHashMap<u64>;

/// Checks the backend's post-operation read of the operation's key against
/// the model (value and presence) and the version invariants (not 0;
/// strictly increasing on a mutation, unchanged otherwise), then records the
/// observed version in the watermarks.
pub fn check_observation(
    model: &CacheModel,
    marks: &mut Watermarks,
    op: &CacheOp,
    index: usize,
    observed: Result<Option<CacheEntry>, String>,
    mutated: bool,
) -> (r: Result<(), Divergence>)
    ensures
        r is Ok <==> check_verdict(model.contents(), old(marks)@, op_key(*op), observed, mutated) is None,
        r matches Err(d) ==> d.index == index && d.key@ == op_key(*op) && check_verdict(
            model.contents(),
            old(marks)@,
            op_key(*op),
            observed,
            mutated,
        ) == Some(tag_of(d.kind)),
        r matches Err(d) ==> kind_reason(d.kind) == check_reason(
            model.contents(),
            old(marks)@,
            op_key(*op),
            observed,
            mutated,
        ),
        r is Ok ==> final(marks)@ == marks_after(old(marks)@, op_key(*op), observed),
        r is Err ==> final(marks)@ == old(marks)@,
{
    let key = op.key();
    match observed {
        Err(detail) => Err(diverge(index, key, DivergenceKind::BackendError { operation: Operation::ReadAfter, detail })),
        Ok(Some(entry)) => {
            match model.get(key) {
                None => Err(diverge(index, key, DivergenceKind::UnexpectedPresent { version: entry.version })),
                Some(model_value) => {
                    if !same_bytes(entry.value.as_slice(), model_value.as_slice()) {
                        return Err(diverge(
                            index,
                            key,
                            DivergenceKind::ValueMismatch {
                                backend: entry.value,
                                model: slice_to_vec(model_value.as_slice()),
                            },
                        ));
                    }
                    if entry.version == 0 {
                        return Err(diverge(index, key, DivergenceKind::ZeroVersion));
                    }
                    match marks.get(key) {
                        Some(prev) => {
                            let previous = *prev;
                            if mutated && entry.version <= previous {
                                return Err(diverge(
                                    index,
                                    key,
                                    DivergenceKind::VersionNotIncreased { previous, current: entry.version },
                                ));
                            }
                            if !mutated && entry.version != previous {
                                return Err(diverge(
                                    index,
                                    key,
                                    DivergenceKind::VersionChanged { previous, current: entry.version },
                                ));
                            }
                        },
                        None => {},
                    }
                    marks.insert(owned(key), entry.version);
                    Ok(())
                },
            }
        },
        Ok(None) => {
            match model.get(key) {
                Some(model_value) => Err(diverge(
                    index,
                    key,
                    DivergenceKind::UnexpectedAbsent { model: slice_to_vec(model_value.as_slice()) },
                )),
                None => {
                    marks.remove(key);
                    Ok(())
                },
            }
        },
    }
}

/// One replay step on the model: applies `op` given the backend's `reply`
/// and, on a disagreement, reports it as text. Returns whether the operation
/// mutated the key.
pub fn apply_step(model: &mut CacheModel, op: &CacheOp, index: usize, reply: OpReply) -> (r: Result<bool, String>)
    requires
        reply_fits(*op, reply),
    ensures
        final(model).contents() == model_after(old(model).contents(), *op, reply),
        r is Ok <==> apply_verdict(old(model).contents(), *op, reply) is Accepted,
        r matches Ok(mutated) ==> apply_verdict(old(model).contents(), *op, reply) == ApplyVerdict::Accepted(
            mutated,
        ),
        r matches Err(s) ==> s@ == divergence_text(index as nat, op_key(*op), apply_reason(old(model).contents(), *op, reply)),
{
    match apply_reply(model, op, index, reply) {
        Ok(mutated) => Ok(mutated),
        Err(d) => Err(render_divergence(&d)),
    }
}

/// One replay check: compares the backend's post-operation read of the
/// operation's key with the model and the watermarks and, on a
/// disagreement, reports it as text.
pub fn check_step(
    model: &CacheModel,
    marks: &mut Watermarks,
    op: &CacheOp,
    index: usize,
    observed: Result<Option<CacheEntry>, String>,
    mutated: bool,
) -> (r: Result<(), String>)
    ensures
        r is Ok <==> check_verdict(model.contents(), old(marks)@, op_key(*op), observed, mutated) is None,
        r is Ok ==> final(marks)@ == marks_after(old(marks)@, op_key(*op), observed),
        r is Err ==> final(marks)@ == old(marks)@,
        r matches Err(s) ==> s@ == divergence_text(
            index as nat,
            op_key(*op),
            check_reason(model.contents(), old(marks)@, op_key(*op), observed, mutated),
        ),
{
    match check_observation(model, marks, op, index, observed, mutated) {
        Ok(()) => Ok(()),
        Err(d) => Err(render_divergence(&d)),
    }
}

} // verus!
