//! `MemCache`: a compact, linearizable in-process cache store. Real
//! versioning (monotonic per key, reset to 1 on a fresh create), lazy and
//! swept time-to-live expiry on a caller-supplied millisecond clock, exact and
//! prefix watch registrations, and an atomic owner-token-guarded delete.
//!
//! The store is the state behind one lock; the caller holds the lock, reads
//! the clock, and delivers watch events to the watchers the store names.
use vstd::prelude::*;
use vstd::hash_map::StringHashMap;
use vstd::slice::slice_to_vec;

use crate::cluster::cache::{
    cad_applies, cad_state, cas_applies, cas_state, create_state, deadline_fits, deadline_of,
    delete_state, is_live, put_state, sweep_state, slot_expired, versions_nonzero, CacheConsistency, CacheEntry,
    CacheFeatures, CasConflict, SlotView, Ttl,
};
use crate::text::{has_prefix, owned, same_text};

verus! {

/// A stored value with its version and optional expiry deadline.
pub struct Stored {
    pub value: Vec<u8>,
    pub version: u64,
    pub expires_at: Option<u64>,
}

/// The abstract slot a stored value stands for.
pub open spec fn slot_of(s: Stored) -> SlotView {
    SlotView { value: s.value@, version: s.version, expires_at: s.expires_at }
}

impl Stored {
    /// Whether this value has expired at `now`.
    pub fn is_expired(&self, now: u64) -> (res: bool)
        ensures
            res == slot_expired(slot_of(*self), now),
    {
        match self.expires_at {
            Some(deadline) => deadline <= now,
            None => false,
        }
    }

    /// The entry a read of this value returns.
    pub fn entry(&self) -> (e: CacheEntry)
        ensures
            e.value@ == self.value@,
            e.version == self.version,
    {
        CacheEntry { value: slice_to_vec(self.value.as_slice()), version: self.version }
    }
}

/// The subscription kind a watcher matches keys against.
pub enum WatchKind {
    Exact(String),
    Prefix(String),
}

/// Whether a watch of `kind` covers `key`.
pub open spec fn kind_matches(kind: WatchKind, key: Seq<char>) -> bool {
    match kind {
        WatchKind::Exact(exact) => exact@ == key,
        WatchKind::Prefix(prefix) => prefix@.is_prefix_of(key),
    }
}

impl WatchKind {
    /// Whether this watch covers `key`: the exact key, or any key that begins
    /// with the prefix.
    pub fn matches(&self, key: &str) -> (res: bool)
        ensures
            res == kind_matches(*self, key@),
    {
        match self {
            WatchKind::Exact(exact) => same_text(exact.as_str(), key),
            WatchKind::Prefix(prefix) => has_prefix(key, prefix.as_str()),
        }
    }
}

/// One live watch registration.
pub struct Watcher {
    pub id: u64,
    pub kind: WatchKind,
}

/// The keys a sequence of owned strings spells.
pub open spec fn key_views(keys: Seq<String>) -> Seq<Seq<char>> {
    keys.map_values(|s: String| s@)
}

/// Whether `id` occurs in `ids`.
pub fn contains_id(ids: &[u64], id: u64) -> (res: bool)
    ensures
        res == ids@.contains(id),
{
    let mut i: usize = 0;
    while i < ids.len()
        invariant
            i <= ids@.len(),
            forall|j: int| 0 <= j < i ==> ids@[j] != id,
        decreases ids@.len() - i,
    {
        if ids[i] == id {
            return true;
        }
        i = i + 1;
    }
    false
}

/// Whether two byte slices hold the same bytes.
pub fn same_bytes(a: &[u8], b: &[u8]) -> (res: bool)
    ensures
        res == (a@ == b@),
{
    if a.len() != b.len() {
        return false;
    }
    let mut i: usize = 0;
    while i < a.len()
        invariant
            a@.len() == b@.len(),
            i <= a@.len(),
            forall|j: int| 0 <= j < i ==> a@[j] == b@[j],
        decreases a@.len() - i,
    {
        if a[i] != b[i] {
            return false;
        }
        i = i + 1;
    }
    assert(a@ =~= b@);
    true
}

/// The ids of the watchers in `ws` that cover `key`, in registration order.
pub open spec fn matching_ids(ws: Seq<Watcher>, key: Seq<char>) -> Seq<u64>
    decreases ws.len(),
{
    if ws.len() == 0 {
        Seq::empty()
    } else {
        let rest = matching_ids(ws.drop_last(), key);
        if kind_matches(ws.last().kind, key) {
            rest.push(ws.last().id)
        } else {
            rest
        }
    }
}

/// The watchers in `ws` whose id is not in `dead`, in registration order.
pub open spec fn surviving(ws: Seq<Watcher>, dead: Seq<u64>) -> Seq<Watcher>
    decreases ws.len(),
{
    if ws.len() == 0 {
        Seq::empty()
    } else {
        let rest = surviving(ws.drop_last(), dead);
        if dead.contains(ws.last().id) {
            rest
        } else {
            rest.push(ws.last())
        }
    }
}

/// Whether the watch ids of `ws` strictly increase along the list.
pub open spec fn ids_increasing(ws: Seq<Watcher>) -> bool {
    forall|i: int, j: int| 0 <= i < j < ws.len() ==> #[trigger] ws[i].id < #[trigger] ws[j].id
}

/// The watchers matching a key, taken from a list with increasing ids, have
/// increasing ids too: each is named once.
pub proof fn lemma_matching_ids_increase(ws: Seq<Watcher>, key: Seq<char>)
    requires
        ids_increasing(ws),
    ensures
        forall|i: int, j: int|
            0 <= i < j < matching_ids(ws, key).len() ==> #[trigger] matching_ids(ws, key)[i] < #[trigger] matching_ids(
                ws,
                key,
            )[j],
        forall|i: int| 0 <= i < matching_ids(ws, key).len() ==> exists|j: int| 0 <= j < ws.len() && ws[j].id == #[trigger] matching_ids(ws, key)[i],
        matching_ids(ws, key).no_duplicates(),
    decreases ws.len(),
{
    if ws.len() > 0 {
        let init = ws.drop_last();
        assert(ids_increasing(init));
        lemma_matching_ids_increase(init, key);
        let rest = matching_ids(init, key);
        let m = matching_ids(ws, key);
        assert forall|i: int| 0 <= i < m.len() implies exists|j: int| 0 <= j < ws.len() && ws[j].id == #[trigger] m[i] by {
            if i < rest.len() {
                assert(m[i] == rest[i]);
                let j = choose|j: int| 0 <= j < init.len() && init[j].id == rest[i];
                assert(ws[j] == init[j]);
            } else {
                assert(ws[ws.len() - 1].id == m[i]);
            }
        }
        assert forall|i: int, j: int| 0 <= i < j < m.len() implies #[trigger] m[i] < #[trigger] m[j] by {
            if j >= rest.len() {
                let jj = choose|jj: int| 0 <= jj < init.len() && init[jj].id == rest[i];
                assert(ws[jj] == init[jj]);
                assert(m[j] == ws.last().id);
                assert(m[i] == rest[i]);
            } else {
                assert(m[i] == rest[i] && m[j] == rest[j]);
            }
        }
        assert forall|i: int, j: int| 0 <= i < m.len() && 0 <= j < m.len() && i != j implies m[i] != m[j] by {
            if i < j {
                assert(m[i] < m[j]);
            } else {
                assert(m[j] < m[i]);
            }
        }
    }
}

/// An id is among the watchers matching `key` exactly when some watcher in
/// `ws` with that id covers `key`.
pub proof fn lemma_matching_ids_members(ws: Seq<Watcher>, key: Seq<char>)
    ensures
        forall|id: u64|
            #[trigger] matching_ids(ws, key).contains(id) <==> exists|j: int|
                0 <= j < ws.len() && ws[j].id == id && kind_matches(ws[j].kind, key),
    decreases ws.len(),
{
    if ws.len() > 0 {
        let init = ws.drop_last();
        lemma_matching_ids_members(init, key);
        let rest = matching_ids(init, key);
        let m = matching_ids(ws, key);
        assert forall|id: u64| #[trigger] m.contains(id) <==> exists|j: int|
            0 <= j < ws.len() && ws[j].id == id && kind_matches(ws[j].kind, key) by {
            if m.contains(id) {
                let p = choose|p: int| 0 <= p < m.len() && m[p] == id;
                if p < rest.len() {
                    assert(m[p] == rest[p]);
                    assert(rest.contains(id));
                    let j = choose|j: int| 0 <= j < init.len() && init[j].id == id && kind_matches(init[j].kind, key);
                    assert(ws[j] == init[j]);
                } else {
                    assert(ws[ws.len() - 1].id == id);
                }
            }
            if exists|j: int| 0 <= j < ws.len() && ws[j].id == id && kind_matches(ws[j].kind, key) {
                let j = choose|j: int| 0 <= j < ws.len() && ws[j].id == id && kind_matches(ws[j].kind, key);
                if j < init.len() {
                    assert(init[j] == ws[j]);
                    assert(rest.contains(id));
                    let p = choose|p: int| 0 <= p < rest.len() && rest[p] == id;
                    assert(m[p] == rest[p]);
                } else {
                    assert(m[m.len() - 1] == id);
                }
            }
        }
    }
}

/// The in-memory linearizable cache store.
pub struct MemCache {
    map: StringHashMap<Stored>,
    order: Vec<String>,
    watchers: Vec<Watcher>,
    next_watch_id: u64,
    consistency: CacheConsistency,
    prefix_watch: bool,
}

impl MemCache {
    /// The abstract key → slot state.
    pub closed spec fn state(&self) -> Map<Seq<char>, SlotView> {
        Map::new(|k: Seq<char>| self.map@.contains_key(k), |k: Seq<char>| slot_of(self.map@[k]))
    }

    /// The live watch registrations, in registration order.
    pub closed spec fn watch_list(&self) -> Seq<Watcher> {
        self.watchers@
    }

    /// The id the next registration gets.
    pub closed spec fn next_id(&self) -> u64 {
        self.next_watch_id
    }

    /// The declared consistency level.
    pub closed spec fn declared_consistency(&self) -> CacheConsistency {
        self.consistency
    }

    /// Whether prefix watches are supported.
    pub closed spec fn declares_prefix_watch(&self) -> bool {
        self.prefix_watch
    }

    /// The store's invariant: the key list names each stored key once, no
    /// stored version is 0, and every watch id is below the next id.
    pub closed spec fn wf(&self) -> bool {
        &&& key_views(self.order@).no_duplicates()
        &&& forall|k: Seq<char>| self.map@.contains_key(k) <==> #[trigger] key_views(self.order@).contains(k)
        &&& versions_nonzero(self.state())
        &&& forall|j: int| 0 <= j < self.watchers@.len() ==> #[trigger] self.watchers@[j].id < self.next_watch_id
        &&& ids_increasing(self.watchers@)
    }

    fn spawn(consistency: CacheConsistency, prefix_watch: bool) -> (c: Self)
        ensures
            c.wf(),
            c.state() == Map::<Seq<char>, SlotView>::empty(),
            c.watch_list().len() == 0,
            c.declared_consistency() == consistency,
            c.declares_prefix_watch() == prefix_watch,
    {
        let c = MemCache {
            map: StringHashMap::new(),
            order: Vec::new(),
            watchers: Vec::new(),
            next_watch_id: 0,
            consistency,
            prefix_watch,
        };
        assert(c.state() =~= Map::<Seq<char>, SlotView>::empty());
        assert(key_views(c.order@) =~= Seq::<Seq<char>>::empty());
        c
    }

    /// A linearizable cache with native prefix-watch support.
    pub fn linearizable() -> (c: Self)
        ensures
            c.wf(),
            c.state() == Map::<Seq<char>, SlotView>::empty(),
            c.watch_list().len() == 0,
            c.declared_consistency() == CacheConsistency::Linearizable,
            c.declares_prefix_watch(),
    {
        Self::spawn(CacheConsistency::Linearizable, true)
    }

    /// An eventually-consistent cache.
    pub fn eventually_consistent() -> (c: Self)
        ensures
            c.wf(),
            c.state() == Map::<Seq<char>, SlotView>::empty(),
            c.watch_list().len() == 0,
            c.declared_consistency() == CacheConsistency::EventuallyConsistent,
            c.declares_prefix_watch(),
    {
        Self::spawn(CacheConsistency::EventuallyConsistent, true)
    }

    /// A linearizable cache that declares no native prefix watch.
    pub fn linearizable_without_prefix_watch() -> (c: Self)
        ensures
            c.wf(),
            c.state() == Map::<Seq<char>, SlotView>::empty(),
            c.watch_list().len() == 0,
            c.declared_consistency() == CacheConsistency::Linearizable,
            !c.declares_prefix_watch(),
    {
        Self::spawn(CacheConsistency::Linearizable, false)
    }

    /// The declared consistency level.
    pub fn consistency(&self) -> (c: CacheConsistency)
        ensures
            c == self.declared_consistency(),
    {
        self.consistency
    }

    /// The declared optional capabilities.
    pub fn features(&self) -> (f: CacheFeatures)
        ensures
            f.prefix_watch == self.declares_prefix_watch(),
    {
        CacheFeatures { prefix_watch: self.prefix_watch }
    }

    /// The live entry under `key` at `now`, if any.
    pub fn get(&self, key: &str, now: u64) -> (r: Option<CacheEntry>)
        requires
            self.wf(),
        ensures
            r is Some <==> is_live(self.state(), key@, now),
            r matches Some(e) ==> e.value@ == self.state()[key@].value && e.version == self.state()[key@].version,
    {
        match self.map.get(key) {
            Some(stored) => {
                if stored.is_expired(now) {
                    None
                } else {
                    Some(stored.entry())
                }
            },
            None => None,
        }
    }

    /// Whether `key` is live at `now`.
    pub fn contains(&self, key: &str, now: u64) -> (r: bool)
        requires
            self.wf(),
        ensures
            r == is_live(self.state(), key@, now),
    {
        match self.map.get(key) {
            Some(stored) => !stored.is_expired(now),
            None => false,
        }
    }

    /// The deadline a write at `now` with `ttl` gets.
    fn deadline(ttl: Ttl, now: u64) -> (d: Option<u64>)
        requires
            deadline_fits(ttl, now),
        ensures
            d == deadline_of(ttl, now),
    {
        match ttl {
            Ttl::Indefinite => None,
            Ttl::Of(ms) => Some(now + ms),
        }
    }

    /// Unconditional overwrite: the version is one past the live version, or
    /// 1 when `key` is not live.
    pub fn put(&mut self, key: &str, value: &[u8], ttl: Ttl, now: u64)
        requires
            old(self).wf(),
            deadline_fits(ttl, now),
            is_live(old(self).state(), key@, now) ==> old(self).state()[key@].version < u64::MAX,
        ensures
            final(self).wf(),
            final(self).state() == put_state(old(self).state(), key@, value@, ttl, now),
            final(self).watch_list() == old(self).watch_list(),
            final(self).next_id() == old(self).next_id(),
            final(self).declared_consistency() == old(self).declared_consistency(),
            final(self).declares_prefix_watch() == old(self).declares_prefix_watch(),
    {
        let version = match self.map.get(key) {
            Some(stored) => {
                if stored.is_expired(now) {
                    1
                } else {
                    stored.version + 1
                }
            },
            None => 1,
        };
        let expires_at = Self::deadline(ttl, now);
        self.store(key, Stored { value: slice_to_vec(value), version, expires_at });
    }

    /// Removes `key`; reports whether it was live.
    pub fn delete(&mut self, key: &str, now: u64) -> (was_live: bool)
        requires
            old(self).wf(),
        ensures
            final(self).wf(),
            was_live == is_live(old(self).state(), key@, now),
            final(self).state() == delete_state(old(self).state(), key@),
            final(self).watch_list() == old(self).watch_list(),
            final(self).next_id() == old(self).next_id(),
            final(self).declared_consistency() == old(self).declared_consistency(),
            final(self).declares_prefix_watch() == old(self).declares_prefix_watch(),
    {
        let live = self.contains(key, now);
        self.forget(key);
        live
    }

    /// Atomic create-if-absent: writes at version 1 and returns the new entry
    /// when `key` is not live; otherwise changes nothing and returns `None`.
    pub fn put_if_absent(&mut self, key: &str, value: &[u8], ttl: Ttl, now: u64) -> (created: Option<CacheEntry>)
        requires
            old(self).wf(),
            deadline_fits(ttl, now),
        ensures
            final(self).wf(),
            created is Some <==> !is_live(old(self).state(), key@, now),
            created matches Some(e) ==> e.value@ == value@ && e.version == 1,
            final(self).state() == create_state(old(self).state(), key@, value@, ttl, now),
            final(self).watch_list() == old(self).watch_list(),
            final(self).next_id() == old(self).next_id(),
            final(self).declared_consistency() == old(self).declared_consistency(),
            final(self).declares_prefix_watch() == old(self).declares_prefix_watch(),
    {
        if self.contains(key, now) {
            None
        } else {
            let expires_at = Self::deadline(ttl, now);
            let stored = Stored { value: slice_to_vec(value), version: 1, expires_at };
            let entry = stored.entry();
            self.store(key, stored);
            Some(entry)
        }
    }

    /// Version-guarded swap: applies iff `key` is live at version
    /// `expected_version`, writing `new_value` at the next version; otherwise
    /// changes nothing and reports the key with its live entry, if any.
    pub fn compare_and_swap(
        &mut self,
        key: &str,
        expected_version: u64,
        new_value: &[u8],
        ttl: Ttl,
        now: u64,
    ) -> (outcome: Result<CacheEntry, CasConflict>)
        requires
            old(self).wf(),
            deadline_fits(ttl, now),
            cas_applies(old(self).state(), key@, expected_version, now) ==> expected_version < u64::MAX,
        ensures
            final(self).wf(),
            outcome is Ok <==> cas_applies(old(self).state(), key@, expected_version, now),
            outcome matches Ok(e) ==> e.value@ == new_value@ && e.version == expected_version + 1,
            outcome matches Err(c) ==> c.key@ == key@ && (c.current is Some <==> is_live(
                old(self).state(),
                key@,
                now,
            )) && (c.current matches Some(cur) ==> cur.value@ == old(self).state()[key@].value
                && cur.version == old(self).state()[key@].version),
            final(self).state() == cas_state(old(self).state(), key@, expected_version, new_value@, ttl, now),
            final(self).watch_list() == old(self).watch_list(),
            final(self).next_id() == old(self).next_id(),
            final(self).declared_consistency() == old(self).declared_consistency(),
            final(self).declares_prefix_watch() == old(self).declares_prefix_watch(),
    {
        match self.get(key, now) {
            Some(current) => {
                if current.version == expected_version {
                    let expires_at = Self::deadline(ttl, now);
                    let stored = Stored {
                        value: slice_to_vec(new_value),
                        version: expected_version + 1,
                        expires_at,
                    };
                    let entry = stored.entry();
                    self.store(key, stored);
                    Ok(entry)
                } else {
                    Err(CasConflict { key: owned(key), current: Some(current) })
                }
            },
            None => Err(CasConflict { key: owned(key), current: None }),
        }
    }

    /// Owner-token-guarded delete: removes `key` only when it is live and its
    /// value equals `expected_value`.
    pub fn compare_and_delete(&mut self, key: &str, expected_value: &[u8], now: u64) -> (deleted: bool)
        requires
            old(self).wf(),
        ensures
            final(self).wf(),
            deleted == cad_applies(old(self).state(), key@, expected_value@, now),
            final(self).state() == cad_state(old(self).state(), key@, expected_value@, now),
            final(self).watch_list() == old(self).watch_list(),
            final(self).next_id() == old(self).next_id(),
            final(self).declared_consistency() == old(self).declared_consistency(),
            final(self).declares_prefix_watch() == old(self).declares_prefix_watch(),
    {
        let matched = match self.map.get(key) {
            Some(stored) => !stored.is_expired(now) && same_bytes(stored.value.as_slice(), expected_value),
            None => false,
        };
        if matched {
            self.forget(key);
        }
        matched
    }

    /// The live keys beginning with `prefix`, each once, in no promised order.
    pub fn scan_prefix(&self, prefix: &str, now: u64) -> (keys: Vec<String>)
        requires
            self.wf(),
        ensures
            key_views(keys@).no_duplicates(),
            forall|k: Seq<char>| #[trigger] key_views(keys@).contains(k) <==> (is_live(self.state(), k, now)
                && prefix@.is_prefix_of(k)),
    {
        let mut out: Vec<String> = Vec::new();
        let mut i: usize = 0;
        let ghost order = key_views(self.order@);
        while i < self.order.len()
            invariant
                self.wf(),
                order == key_views(self.order@),
                i <= self.order.len(),
                key_views(out@).no_duplicates(),
                forall|k: Seq<char>| #[trigger] key_views(out@).contains(k) <==> (order.take(i as int).contains(k)
                    && is_live(self.state(), k, now) && prefix@.is_prefix_of(k)),
            decreases self.order.len() - i,
        {
            let key = &self.order[i];
            let ghost kv = order[i as int];
            let live = self.contains(key.as_str(), now);
            let ghost before = key_views(out@);
            assert(forall|k: Seq<char>| #[trigger] before.contains(k) <==> (order.take(i as int).contains(k)
                && is_live(self.state(), k, now) && prefix@.is_prefix_of(k)));
            if live && has_prefix(key.as_str(), prefix) {
                out.push(key.clone());
                proof {
                    assert(key_views(out@) =~= before.push(kv));
                    assert(key_views(out@)[before.len() as int] == kv);
                    assert(!before.contains(kv)) by {
                        if before.contains(kv) {
                            assert(order.take(i as int).contains(kv));
                            let tp = order.take(i as int);
                            let j = choose|j: int| 0 <= j < tp.len() && tp[j] == kv;
                            assert(order[j] == order[i as int]);
                        }
                    }
                    assert forall|a: int, b: int|
                        0 <= a < b < key_views(out@).len() implies key_views(out@)[a] != key_views(out@)[b] by {
                        if b == before.len() {
                            assert(before.contains(before[a]));
                        }
                    }
                }
            }
            proof {
                let tn = order.take(i + 1);
                let tp = order.take(i as int);
                assert(tn =~= tp.push(kv));
                assert forall|k: Seq<char>| #[trigger] key_views(out@).contains(k) <==> (tn.contains(k)
                    && is_live(self.state(), k, now) && prefix@.is_prefix_of(k)) by {
                    if tn.contains(k) && !tp.contains(k) {
                        let j = choose|j: int| 0 <= j < tn.len() && tn[j] == k;
                        if j < i {
                            assert(tp[j] == k);
                        }
                        assert(k == kv);
                    }
                    if key_views(out@).contains(k) && !before.contains(k) {
                        let j = choose|j: int| 0 <= j < key_views(out@).len() && key_views(out@)[j] == k;
                        if j < before.len() {
                            assert(before[j] == k);
                        }
                    }
                    if before.contains(k) {
                        let j = choose|j: int| 0 <= j < before.len() && before[j] == k;
                        assert(key_views(out@)[j] == k);
                    }
                    if tp.contains(k) {
                        let j = choose|j: int| 0 <= j < tp.len() && tp[j] == k;
                        assert(tn[j] == k);
                    }
                    assert(before.contains(k) <==> (tp.contains(k) && is_live(self.state(), k, now)
                        && prefix@.is_prefix_of(k)));
                    if k == kv {
                        assert(tn[i as int] == kv);
                        assert(tn.contains(k));
                    }
                }
            }
            i = i + 1;
        }
        proof {
            assert(order.take(self.order.len() as int) =~= order);
            assert forall|k: Seq<char>| is_live(self.state(), k, now) implies order.contains(k) by {
                assert(self.map@.contains_key(k));
            }
        }
        out
    }

    /// Removes every entry expired at `now` and returns the removed keys,
    /// each once; unexpired entries are kept unchanged.
    pub fn sweep_expired(&mut self, now: u64) -> (expired: Vec<String>)
        requires
            old(self).wf(),
        ensures
            final(self).wf(),
            final(self).state() == sweep_state(old(self).state(), now),
            key_views(expired@).no_duplicates(),
            forall|k: Seq<char>| #[trigger] key_views(expired@).contains(k) <==> (old(self).state().contains_key(k)
                && slot_expired(old(self).state()[k], now)),
            final(self).watch_list() == old(self).watch_list(),
            final(self).next_id() == old(self).next_id(),
            final(self).declared_consistency() == old(self).declared_consistency(),
            final(self).declares_prefix_watch() == old(self).declares_prefix_watch(),
    {
        let ghost old_state = self.state();
        let ghost order = key_views(self.order@);
        let mut kept_map: StringHashMap<Stored> = StringHashMap::new();
        let mut kept_order: Vec<String> = Vec::new();
        let mut expired: Vec<String> = Vec::new();
        let mut i: usize = 0;
        while i < self.order.len()
            invariant
                self.wf(),
                old_state == self.state(),
                order == key_views(self.order@),
                i <= self.order.len(),
                key_views(kept_order@).no_duplicates(),
                key_views(expired@).no_duplicates(),
                forall|k: Seq<char>| #[trigger] kept_map@.contains_key(k) <==> key_views(kept_order@).contains(k),
                forall|k: Seq<char>| #[trigger] key_views(kept_order@).contains(k) <==> (order.take(i as int).contains(k)
                    && !slot_expired(old_state[k], now)),
                forall|k: Seq<char>| #[trigger] key_views(expired@).contains(k) <==> (order.take(i as int).contains(k)
                    && slot_expired(old_state[k], now)),
                forall|k: Seq<char>| #[trigger] kept_map@.contains_key(k) ==> slot_of(kept_map@[k]) == old_state[k],
            decreases self.order.len() - i,
        {
            let key = &self.order[i];
            let ghost kv = order[i as int];
            let ghost tp = order.take(i as int);
            let ghost tn = order.take(i + 1);
            proof {
                assert(tn =~= tp.push(kv));
                assert(tn[i as int] == kv);
                assert(!tp.contains(kv)) by {
                    if tp.contains(kv) {
                        let j = choose|j: int| 0 <= j < tp.len() && tp[j] == kv;
                        assert(order[j] == order[i as int]);
                    }
                }
                assert(order.contains(kv));
                assert(self.map@.contains_key(kv));
            }
            let ghost kept_before = key_views(kept_order@);
            let ghost expired_before = key_views(expired@);
            let ghost kept_map_before = kept_map@;
            match self.map.get(key.as_str()) {
                Some(stored) => {
                    if stored.is_expired(now) {
                        expired.push(key.clone());
                        proof {
                            assert(key_views(expired@) =~= expired_before.push(kv));
                            assert(key_views(expired@)[expired_before.len() as int] == kv);
                            assert(!expired_before.contains(kv));
                            assert forall|a: int, b: int|
                                0 <= a < b < key_views(expired@).len() implies key_views(expired@)[a] != key_views(expired@)[b] by {
                                if b == expired_before.len() {
                                    assert(expired_before.contains(expired_before[a]));
                                }
                            }
                        }
                    } else {
                        let copy = Stored {
                            value: slice_to_vec(stored.value.as_slice()),
                            version: stored.version,
                            expires_at: stored.expires_at,
                        };
                        kept_map.insert(key.clone(), copy);
                        kept_order.push(key.clone());
                        proof {
                            assert(key_views(kept_order@) =~= kept_before.push(kv));
                            assert(key_views(kept_order@)[kept_before.len() as int] == kv);
                            assert(!kept_before.contains(kv));
                            assert forall|a: int, b: int|
                                0 <= a < b < key_views(kept_order@).len() implies key_views(kept_order@)[a] != key_views(kept_order@)[b] by {
                                if b == kept_before.len() {
                                    assert(kept_before.contains(kept_before[a]));
                                }
                            }
                        }
                    }
                },
                None => {},
            }
            proof {
                assert forall|k: Seq<char>| #[trigger] key_views(kept_order@).contains(k) <==> (tn.contains(k)
                    && !slot_expired(old_state[k], now)) by {
                    assert(kept_before.contains(k) <==> (tp.contains(k) && !slot_expired(old_state[k], now)));
                    if key_views(kept_order@).contains(k) && !kept_before.contains(k) {
                        let j = choose|j: int| 0 <= j < key_views(kept_order@).len() && key_views(kept_order@)[j] == k;
                        if j < kept_before.len() {
                            assert(kept_before[j] == k);
                        }
                    }
                    if kept_before.contains(k) {
                        let j = choose|j: int| 0 <= j < kept_before.len() && kept_before[j] == k;
                        assert(key_views(kept_order@)[j] == k);
                    }
                    if tp.contains(k) {
                        let j = choose|j: int| 0 <= j < tp.len() && tp[j] == k;
                        assert(tn[j] == k);
                    }
                    if tn.contains(k) && !tp.contains(k) {
                        let j = choose|j: int| 0 <= j < tn.len() && tn[j] == k;
                        if j < i {
                            assert(tp[j] == k);
                        }
                    }
                }
                assert forall|k: Seq<char>| #[trigger] key_views(expired@).contains(k) <==> (tn.contains(k)
                    && slot_expired(old_state[k], now)) by {
                    assert(expired_before.contains(k) <==> (tp.contains(k) && slot_expired(old_state[k], now)));
                    if key_views(expired@).contains(k) && !expired_before.contains(k) {
                        let j = choose|j: int| 0 <= j < key_views(expired@).len() && key_views(expired@)[j] == k;
                        if j < expired_before.len() {
                            assert(expired_before[j] == k);
                        }
                    }
                    if expired_before.contains(k) {
                        let j = choose|j: int| 0 <= j < expired_before.len() && expired_before[j] == k;
                        assert(key_views(expired@)[j] == k);
                    }
                    if tp.contains(k) {
                        let j = choose|j: int| 0 <= j < tp.len() && tp[j] == k;
                        assert(tn[j] == k);
                    }
                    if tn.contains(k) && !tp.contains(k) {
                        let j = choose|j: int| 0 <= j < tn.len() && tn[j] == k;
                        if j < i {
                            assert(tp[j] == k);
                        }
                    }
                }
                assert forall|k: Seq<char>| #[trigger] kept_map@.contains_key(k) <==> key_views(kept_order@).contains(k) by {
                    assert(kept_map_before.contains_key(k) <==> kept_before.contains(k));
                    if kept_before.contains(k) {
                        let j = choose|j: int| 0 <= j < kept_before.len() && kept_before[j] == k;
                        assert(key_views(kept_order@)[j] == k);
                    }
                    if key_views(kept_order@).contains(k) && !kept_before.contains(k) {
                        let j = choose|j: int| 0 <= j < key_views(kept_order@).len() && key_views(kept_order@)[j] == k;
                        if j < kept_before.len() {
                            assert(kept_before[j] == k);
                        }
                    }
                }
            }
            i = i + 1;
        }
        proof {
            assert(order.take(self.order.len() as int) =~= order);
            assert forall|k: Seq<char>| old_state.contains_key(k) implies order.contains(k) by {
                assert(self.map@.contains_key(k));
            }
        }
        self.map = kept_map;
        self.order = kept_order;
        proof {
            assert(self.state() =~= sweep_state(old_state, now));
            assert forall|k: Seq<char>| self.map@.contains_key(k) <==> #[trigger] key_views(self.order@).contains(k) by {}
        }
        expired
    }

    /// Under the store's invariant, watch ids increase along the registrations.
    pub proof fn lemma_watch_ids_increase(&self)
        requires
            self.wf(),
        ensures
            ids_increasing(self.watch_list()),
    {
    }

    /// The id the next watch registration gets.
    pub fn next_watch_id(&self) -> (n: u64)
        ensures
            n == self.next_id(),
    {
        self.next_watch_id
    }

    /// Drops every watch registration and returns their ids, in registration
    /// order.
    pub fn clear_watchers(&mut self) -> (ids: Vec<u64>)
        requires
            old(self).wf(),
        ensures
            final(self).wf(),
            ids@ == old(self).watch_list().map_values(|w: Watcher| w.id),
            final(self).watch_list() == Seq::<Watcher>::empty(),
            final(self).state() == old(self).state(),
            final(self).next_id() == old(self).next_id(),
            final(self).declared_consistency() == old(self).declared_consistency(),
            final(self).declares_prefix_watch() == old(self).declares_prefix_watch(),
    {
        let mut ids: Vec<u64> = Vec::new();
        let mut i: usize = 0;
        while i < self.watchers.len()
            invariant
                i <= self.watchers@.len(),
                ids@ == self.watchers@.take(i as int).map_values(|w: Watcher| w.id),
            decreases self.watchers@.len() - i,
        {
            ids.push(self.watchers[i].id);
            proof {
                assert(self.watchers@.take(i + 1).map_values(|w: Watcher| w.id) =~= self.watchers@.take(
                    i as int,
                ).map_values(|w: Watcher| w.id).push(self.watchers@[i as int].id));
            }
            i = i + 1;
        }
        proof {
            assert(self.watchers@.take(self.watchers@.len() as int) =~= self.watchers@);
        }
        self.watchers = Vec::new();
        ids
    }

    /// Registers a watch of `kind` and returns its id.
    pub fn register_watch(&mut self, kind: WatchKind) -> (id: u64)
        requires
            old(self).wf(),
            old(self).next_id() < u64::MAX,
        ensures
            final(self).wf(),
            id == old(self).next_id(),
            final(self).next_id() == old(self).next_id() + 1,
            final(self).watch_list() == old(self).watch_list().push(Watcher { id, kind }),
            final(self).state() == old(self).state(),
            final(self).declared_consistency() == old(self).declared_consistency(),
            final(self).declares_prefix_watch() == old(self).declares_prefix_watch(),
    {
        let id = self.next_watch_id;
        self.next_watch_id = self.next_watch_id + 1;
        let ghost before = self.watchers@;
        self.watchers.push(Watcher { id, kind });
        proof {
            assert forall|i: int, j: int| 0 <= i < j < self.watchers@.len() implies #[trigger] self.watchers@[i].id
                < #[trigger] self.watchers@[j].id by {
                if j == before.len() {
                    assert(before[i].id < id);
                } else {
                    assert(self.watchers@[i] == before[i] && self.watchers@[j] == before[j]);
                }
            }
        }
        id
    }

    /// The ids of the watchers that cover `key`, in registration order: the
    /// targets of an event about `key`.
    pub fn matching_watchers(&self, key: &str) -> (ids: Vec<u64>)
        ensures
            ids@ == matching_ids(self.watch_list(), key@),
    {
        let mut ids: Vec<u64> = Vec::new();
        let mut i: usize = 0;
        while i < self.watchers.len()
            invariant
                i <= self.watchers.len(),
                ids@ == matching_ids(self.watchers@.take(i as int), key@),
            decreases self.watchers.len() - i,
        {
            proof {
                assert(self.watchers@.take(i + 1).drop_last() =~= self.watchers@.take(i as int));
            }
            if self.watchers[i].kind.matches(key) {
                ids.push(self.watchers[i].id);
            }
            i = i + 1;
        }
        proof {
            assert(self.watchers@.take(self.watchers.len() as int) =~= self.watchers@);
        }
        ids
    }

    /// Drops every watcher whose id is in `dead` (their consumers went away).
    pub fn prune_watchers(&mut self, dead: &[u64])
        requires
            old(self).wf(),
        ensures
            final(self).wf(),
            final(self).watch_list() == surviving(old(self).watch_list(), dead@),
            final(self).next_id() == old(self).next_id(),
            final(self).state() == old(self).state(),
            final(self).declared_consistency() == old(self).declared_consistency(),
            final(self).declares_prefix_watch() == old(self).declares_prefix_watch(),
    {
        let mut old_watchers: Vec<Watcher> = Vec::new();
        std::mem::swap(&mut old_watchers, &mut self.watchers);
        let ghost ws = old_watchers@;
        let mut kept: Vec<Watcher> = Vec::new();
        for w in it: old_watchers
            invariant
                it.seq() == ws,
                kept@ == surviving(ws.take(it.index() as int), dead@),
                forall|j: int| 0 <= j < kept@.len() ==> #[trigger] kept@[j].id < self.next_watch_id,
                forall|j: int| 0 <= j < ws.len() ==> #[trigger] ws[j].id < self.next_watch_id,
                ids_increasing(ws),
                ids_increasing(kept@),
                forall|j: int, m: int|
                    0 <= j < kept@.len() && it.index() <= m < ws.len() ==> #[trigger] kept@[j].id < #[trigger] ws[m].id,
        {
            proof {
                assert(ws.take(it.index() + 1).drop_last() =~= ws.take(it.index() as int));
            }
            let ghost idx = it.index();
            let ghost before = kept@;
            if !contains_id(dead, w.id) {
                kept.push(w);
                proof {
                    assert(w == ws[idx]);
                    assert forall|a: int, b: int| 0 <= a < b < kept@.len() implies #[trigger] kept@[a].id
                        < #[trigger] kept@[b].id by {
                        if b == before.len() {
                            assert(kept@[a] == before[a]);
                        } else {
                            assert(kept@[a] == before[a] && kept@[b] == before[b]);
                        }
                    }
                    assert forall|j: int, m: int| 0 <= j < kept@.len() && idx + 1 <= m < ws.len() implies #[trigger] kept@[j].id
                        < #[trigger] ws[m].id by {
                        if j == before.len() {
                            assert(ws[idx].id < ws[m].id);
                        } else {
                            assert(kept@[j] == before[j]);
                        }
                    }
                }
            }
        }
        proof {
            assert(ws.take(ws.len() as int) =~= ws);
        }
        self.watchers = kept;
    }

    /// Stores `s` under `key`, adding `key` to the key list when it is new.
    fn store(&mut self, key: &str, s: Stored)
        requires
            old(self).wf(),
            s.version != 0,
        ensures
            final(self).wf(),
            final(self).state() == old(self).state().insert(key@, slot_of(s)),
            final(self).watch_list() == old(self).watch_list(),
            final(self).next_id() == old(self).next_id(),
            final(self).declared_consistency() == old(self).declared_consistency(),
            final(self).declares_prefix_watch() == old(self).declares_prefix_watch(),
    {
        let ghost old_state = self.state();
        let ghost before = key_views(self.order@);
        if !self.map.contains_key(key) {
            self.order.push(owned(key));
            proof {
                assert(key_views(self.order@) =~= before.push(key@));
                assert(key_views(self.order@)[before.len() as int] == key@);
                assert forall|i: int, j: int|
                    0 <= i < j < key_views(self.order@).len() implies key_views(self.order@)[i] != key_views(self.order@)[j] by {
                    if j == before.len() {
                        assert(before.contains(before[i]));
                    }
                }
            }
        }
        self.map.insert(owned(key), s);
        proof {
            assert(self.state() =~= old_state.insert(key@, slot_of(s)));
            assert forall|k: Seq<char>| self.map@.contains_key(k) <==> #[trigger] key_views(self.order@).contains(k) by {
                if k != key@ {
                    if key_views(self.order@).contains(k) && !before.contains(k) {
                        let j = choose|j: int| 0 <= j < key_views(self.order@).len() && key_views(self.order@)[j] == k;
                        assert(j < before.len());
                        assert(before[j] == k);
                    }
                    if before.contains(k) {
                        let j = choose|j: int| 0 <= j < before.len() && before[j] == k;
                        assert(key_views(self.order@)[j] == k);
                    }
                }
            }
        }
    }

    /// Drops `key` from the map and the key list.
    fn forget(&mut self, key: &str)
        requires
            old(self).wf(),
        ensures
            final(self).wf(),
            final(self).state() == old(self).state().remove(key@),
            final(self).watch_list() == old(self).watch_list(),
            final(self).next_id() == old(self).next_id(),
            final(self).declared_consistency() == old(self).declared_consistency(),
            final(self).declares_prefix_watch() == old(self).declares_prefix_watch(),
    {
        let ghost old_state = self.state();
        let ghost before = key_views(self.order@);
        let mut i: usize = 0;
        let mut found: Option<usize> = None;
        while i < self.order.len()
            invariant
                i <= self.order.len(),
                before == key_views(self.order@),
                found is None ==> forall|j: int| 0 <= j < i ==> before[j] != key@,
                found matches Some(f) ==> f < self.order.len() && before[f as int] == key@,
            decreases self.order.len() - i,
        {
            if found.is_none() && same_text(self.order[i].as_str(), key) {
                found = Some(i);
            }
            i = i + 1;
        }
        if let Some(f) = found {
            self.order.remove(f);
            proof {
                assert(key_views(self.order@) =~= before.remove(f as int));
                assert forall|a: int, b: int|
                    0 <= a < b < key_views(self.order@).len() implies key_views(self.order@)[a] != key_views(self.order@)[b] by {
                    let aa = if a < f { a } else { a + 1 };
                    let bb = if b < f { b } else { b + 1 };
                    assert(before[aa] != before[bb]);
                }
                assert forall|k: Seq<char>| key_views(self.order@).contains(k) <==> (before.contains(k) && k != key@) by {
                    if key_views(self.order@).contains(k) {
                        let j = choose|j: int| 0 <= j < key_views(self.order@).len() && key_views(self.order@)[j] == k;
                        let jj = if j < f { j } else { j + 1 };
                        assert(before[jj] == k);
                        assert(jj != f);
                    }
                    if before.contains(k) && k != key@ {
                        let j = choose|j: int| 0 <= j < before.len() && before[j] == k;
                        assert(j != f);
                        let jj = if j < f { j } else { j - 1 };
                        assert(key_views(self.order@)[jj] == k);
                    }
                }
            }
        } else {
            proof {
                assert(!before.contains(key@));
            }
        }
        self.map.remove(key);
        proof {
            assert(self.state() =~= old_state.remove(key@));
            assert forall|k: Seq<char>| self.map@.contains_key(k) <==> #[trigger] key_views(self.order@).contains(k) by {
                assert(old(self).map@.contains_key(k) <==> before.contains(k));
                if found is None {
                    assert(key_views(self.order@) == before);
                }
            }
        }
    }
}

} // verus!
