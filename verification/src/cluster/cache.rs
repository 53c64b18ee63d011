//! Cache contract vocabulary: consistency level, entries, time-to-live,
//! compare-and-swap conflicts, and the abstract cache state the store and
//! its laws are stated over.
use vstd::prelude::*;

verus! {

/// Which consistency level a cache backend declares.
#[derive(Debug, Clone, Copy, PartialEq, Eq)]
pub enum CacheConsistency {
    Linearizable,
    EventuallyConsistent,
}

/// The optional capabilities a cache backend declares.
#[derive(Debug, Clone, Copy, PartialEq, Eq)]
pub struct CacheFeatures {
    pub prefix_watch: bool,
}

/// A helper plugins use to assert a backend's self-declared consistency
/// before handing it to consistency-sensitive default backends.
pub fn is_linearizable(consistency: CacheConsistency) -> (res: bool)
    ensures
        res <==> (consistency is Linearizable),
{
    match consistency {
        CacheConsistency::Linearizable => true,
        CacheConsistency::EventuallyConsistent => false,
    }
}

/// How long a written entry lives, in milliseconds of the store's clock.
#[derive(Debug, Clone, Copy, PartialEq, Eq)]
pub enum Ttl {
    /// Never expires; survives until explicitly deleted.
    Indefinite,
    /// Expires this many milliseconds after the write.
    Of(u64),
}

/// A live cache entry: its value and its version (never 0).
#[derive(Debug, Clone, PartialEq, Eq)]
pub struct CacheEntry {
    pub value: Vec<u8>,
    pub version: u64,
}

/// A compare-and-swap that did not apply: the key and the live entry, if any.
#[derive(Debug, Clone, PartialEq, Eq)]
pub struct CasConflict {
    pub key: String,
    pub current: Option<CacheEntry>,
}

/// The abstract state of one stored key: its value, version, and optional
/// expiry deadline on the store's clock.
pub struct SlotView {
    pub value: Seq<u8>,
    pub version: u64,
    pub expires_at: Option<u64>,
}

/// Whether a slot has expired at `now` (its deadline is at or before `now`).
pub open spec fn slot_expired(s: SlotView, now: u64) -> bool {
    match s.expires_at {
        Some(deadline) => deadline <= now,
        None => false,
    }
}

/// Whether `k` is present and unexpired at `now`.
pub open spec fn is_live(m: Map<Seq<char>, SlotView>, k: Seq<char>, now: u64) -> bool {
    m.contains_key(k) && !slot_expired(m[k], now)
}

/// The expiry deadline a write at `now` with `ttl` gets.
pub open spec fn deadline_of(ttl: Ttl, now: u64) -> Option<u64> {
    match ttl {
        Ttl::Indefinite => None,
        Ttl::Of(ms) => Some((now + ms) as u64),
    }
}

/// Whether a write at `now` with `ttl` has a representable deadline.
pub open spec fn deadline_fits(ttl: Ttl, now: u64) -> bool {
    match ttl {
        Ttl::Indefinite => true,
        Ttl::Of(ms) => now + ms <= u64::MAX,
    }
}

/// The version an unconditional write of `k` gets: one past the live
/// version, or 1 when `k` is not live (fresh create or after expiry/delete).
pub open spec fn next_version(m: Map<Seq<char>, SlotView>, k: Seq<char>, now: u64) -> u64 {
    if is_live(m, k, now) {
        (m[k].version + 1) as u64
    } else {
        1
    }
}

/// State after an unconditional `put`.
pub open spec fn put_state(
    m: Map<Seq<char>, SlotView>,
    k: Seq<char>,
    v: Seq<u8>,
    ttl: Ttl,
    now: u64,
) -> Map<Seq<char>, SlotView> {
    m.insert(k, SlotView { value: v, version: next_version(m, k, now), expires_at: deadline_of(ttl, now) })
}

/// State after `delete`: the key is gone whether or not it was live.
pub open spec fn delete_state(m: Map<Seq<char>, SlotView>, k: Seq<char>) -> Map<
    Seq<char>,
    SlotView,
> {
    m.remove(k)
}

/// State after `put_if_absent`: written at version 1 only when `k` is not live.
pub open spec fn create_state(
    m: Map<Seq<char>, SlotView>,
    k: Seq<char>,
    v: Seq<u8>,
    ttl: Ttl,
    now: u64,
) -> Map<Seq<char>, SlotView> {
    if is_live(m, k, now) {
        m
    } else {
        m.insert(k, SlotView { value: v, version: 1, expires_at: deadline_of(ttl, now) })
    }
}

/// Whether a compare-and-swap of `k` at `expected` applies.
pub open spec fn cas_applies(m: Map<Seq<char>, SlotView>, k: Seq<char>, expected: u64, now: u64) -> bool {
    is_live(m, k, now) && m[k].version == expected
}

/// State after `compare_and_swap`.
pub open spec fn cas_state(
    m: Map<Seq<char>, SlotView>,
    k: Seq<char>,
    expected: u64,
    v: Seq<u8>,
    ttl: Ttl,
    now: u64,
) -> Map<Seq<char>, SlotView> {
    if cas_applies(m, k, expected, now) {
        m.insert(k, SlotView { value: v, version: (expected + 1) as u64, expires_at: deadline_of(ttl, now) })
    } else {
        m
    }
}

/// Whether an owner-token-guarded delete of `k` applies.
pub open spec fn cad_applies(m: Map<Seq<char>, SlotView>, k: Seq<char>, expected: Seq<u8>, now: u64) -> bool {
    is_live(m, k, now) && m[k].value == expected
}

/// State after `compare_and_delete`.
pub open spec fn cad_state(
    m: Map<Seq<char>, SlotView>,
    k: Seq<char>,
    expected: Seq<u8>,
    now: u64,
) -> Map<Seq<char>, SlotView> {
    if cad_applies(m, k, expected, now) {
        m.remove(k)
    } else {
        m
    }
}

/// State after sweeping: every entry expired at `now` is removed.
pub open spec fn sweep_state(m: Map<Seq<char>, SlotView>, now: u64) -> Map<Seq<char>, SlotView> {
    m.restrict(m.dom().filter(|k: Seq<char>| !slot_expired(m[k], now)))
}

/// No stored version is 0: 0 is the reserved "absent" sentinel.
pub open spec fn versions_nonzero(m: Map<Seq<char>, SlotView>) -> bool {
    forall|k: Seq<char>| #[trigger] m.contains_key(k) ==> m[k].version != 0
}

} // verus!
