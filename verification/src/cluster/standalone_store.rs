//! The state behind the standalone plugin's cache: the in-memory store plus
//! its shutdown gate, and the per-watcher accounting of events a slow
//! watcher missed.
//!
//! Once shut down, the cache closes every watch and refuses writes and new
//! watches, so a racing operation cannot resurrect a watcher; reads stay
//! live. A watcher whose buffer is full never blocks a writer: the event is
//! dropped and counted, and the count is delivered as one notice ahead of the
//! next event that fits.
use vstd::prelude::*;

use crate::cluster::cache::{
    cad_applies, cad_state, cas_applies, cas_state, create_state, deadline_fits, delete_state, is_live, put_state,
    sweep_state, CacheEntry, SlotView, Ttl,
};
use crate::cluster::error::ClusterError;
use crate::text::owned;
use crate::cluster::store::{
    key_views, kind_matches, lemma_matching_ids_increase, lemma_matching_ids_members, matching_ids, surviving, MemCache,
    WatchKind, Watcher,
};

verus! {

/// The standalone cache's state: the store and whether it has shut down.
pub struct StandaloneStore {
    store: MemCache,
    closed: bool,
}

/// Whether the store parts other than the entries are as before: the watch
/// registrations and the next watch id.
pub open spec fn watches_kept(a: MemCache, b: MemCache) -> bool {
    a.watch_list() == b.watch_list() && a.next_id() == b.next_id()
}

/// The watchers an event about `key` goes to: those covering it, in
/// registration order.
pub open spec fn notified(m: MemCache, key: Seq<char>) -> Seq<u64> {
    matching_ids(m.watch_list(), key)
}

/// A write is read back and announced: after an unconditional `put` of
/// `value` under `key` at `now` (with no time-to-live, or one that has not
/// run out at `now`), a read of `key` at `now` returns `value` at the version
/// one past the live one, or 1 when `key` was not live, never 0; and the
/// change goes to every watcher covering `key`, each exactly once, and to no
/// other.
pub proof fn law_put_reads_back_and_notifies_each_watcher_once(
    c: MemCache,
    key: Seq<char>,
    value: Seq<u8>,
    ttl: Ttl,
    now: u64,
)
    requires
        c.wf(),
        deadline_fits(ttl, now),
        is_live(c.state(), key, now) ==> c.state()[key].version < u64::MAX,
        ttl matches Ttl::Of(ms) ==> ms > 0,
    ensures
        is_live(put_state(c.state(), key, value, ttl, now), key, now),
        put_state(c.state(), key, value, ttl, now)[key].value == value,
        put_state(c.state(), key, value, ttl, now)[key].version == (if is_live(c.state(), key, now) {
            c.state()[key].version + 1
        } else {
            1
        }),
        put_state(c.state(), key, value, ttl, now)[key].version != 0,
        forall|id: u64|
            #[trigger] notified(c, key).contains(id) <==> exists|j: int|
                0 <= j < c.watch_list().len() && c.watch_list()[j].id == id && kind_matches(c.watch_list()[j].kind, key),
        notified(c, key).no_duplicates(),
{
    c.lemma_watch_ids_increase();
    lemma_matching_ids_increase(c.watch_list(), key);
    lemma_matching_ids_members(c.watch_list(), key);
}

/// The keys of a sweep's result.
pub open spec fn expired_keys(v: Seq<(String, Vec<u64>)>) -> Seq<Seq<char>> {
    v.map_values(|e: (String, Vec<u64>)| e.0@)
}

impl StandaloneStore {
    /// The watchers to notify of an event about `key`, each once.
    fn targets(&self, key: &str) -> (ids: Vec<u64>)
        requires
            self.wf(),
        ensures
            ids@ == notified(self.inner(), key@),
            ids@.no_duplicates(),
    {
        proof {
            self.store.lemma_watch_ids_increase();
            lemma_matching_ids_increase(self.store.watch_list(), key@);
        }
        self.store.matching_watchers(key)
    }

    /// The underlying store.
    pub closed spec fn inner(&self) -> MemCache {
        self.store
    }

    /// Whether the cache has shut down.
    pub closed spec fn is_closed(&self) -> bool {
        self.closed
    }

    /// The store's invariant.
    pub open spec fn wf(&self) -> bool {
        self.inner().wf()
    }

    /// A fresh, open, empty cache: linearizable, with native prefix watches.
    pub fn new() -> (s: Self)
        ensures
            s.wf(),
            !s.is_closed(),
            s.inner().state() == Map::<Seq<char>, SlotView>::empty(),
            s.inner().watch_list().len() == 0,
    {
        StandaloneStore { store: MemCache::linearizable(), closed: false }
    }

    /// The underlying store, for reads; reads stay live after shutdown.
    pub fn reader(&self) -> (m: &MemCache)
        ensures
            *m == self.inner(),
    {
        &self.store
    }

    /// Unconditional overwrite, refused once shut down; returns the watchers
    /// to notify of the change, each once.
    pub fn put(&mut self, key: &str, value: &[u8], ttl: Ttl, now: u64) -> (r: Result<Vec<u64>, ClusterError>)
        requires
            old(self).wf(),
            deadline_fits(ttl, now),
            is_live(old(self).inner().state(), key@, now) ==> old(self).inner().state()[key@].version < u64::MAX,
        ensures
            final(self).wf(),
            final(self).is_closed() == old(self).is_closed(),
            old(self).is_closed() ==> (r matches Err(ClusterError::Shutdown) && final(self).inner() == old(self).inner()),
            !old(self).is_closed() ==> (r matches Ok(t) && t@ == notified(old(self).inner(), key@) && t@.no_duplicates()
                && final(self).inner().state() == put_state(old(self).inner().state(), key@, value@, ttl, now)
                && watches_kept(final(self).inner(), old(self).inner())),
    {
        if self.closed {
            return Err(ClusterError::Shutdown);
        }
        self.store.put(key, value, ttl, now);
        Ok(self.targets(key))
    }

    /// Atomic create-if-absent, refused once shut down: the created entry,
    /// if it created one, and the watchers to notify (none when nothing was
    /// created).
    pub fn put_if_absent(&mut self, key: &str, value: &[u8], ttl: Ttl, now: u64) -> (r: Result<
        (Option<CacheEntry>, Vec<u64>),
        ClusterError,
    >)
        requires
            old(self).wf(),
            deadline_fits(ttl, now),
        ensures
            final(self).wf(),
            final(self).is_closed() == old(self).is_closed(),
            old(self).is_closed() ==> (r matches Err(ClusterError::Shutdown) && final(self).inner() == old(self).inner()),
            !old(self).is_closed() ==> (r matches Ok((created, t)) && (created is Some <==> !is_live(
                old(self).inner().state(),
                key@,
                now,
            )) && (created matches Some(e) ==> e.value@ == value@ && e.version == 1) && t@ == (if created is Some {
                notified(old(self).inner(), key@)
            } else {
                Seq::empty()
            }) && t@.no_duplicates() && final(self).inner().state() == create_state(
                old(self).inner().state(),
                key@,
                value@,
                ttl,
                now,
            ) && watches_kept(final(self).inner(), old(self).inner())),
    {
        if self.closed {
            return Err(ClusterError::Shutdown);
        }
        let created = self.store.put_if_absent(key, value, ttl, now);
        let t = if created.is_some() {
            self.targets(key)
        } else {
            Vec::new()
        };
        Ok((created, t))
    }

    /// Version-guarded compare-and-swap, refused once shut down; a version
    /// mismatch or an absent key is a conflict carrying the live entry. A
    /// swap returns the new entry and the watchers to notify.
    pub fn compare_and_swap(&mut self, key: &str, expected_version: u64, new_value: &[u8], ttl: Ttl, now: u64) -> (r:
        Result<(CacheEntry, Vec<u64>), ClusterError>)
        requires
            old(self).wf(),
            deadline_fits(ttl, now),
            cas_applies(old(self).inner().state(), key@, expected_version, now) ==> expected_version < u64::MAX,
        ensures
            final(self).wf(),
            final(self).is_closed() == old(self).is_closed(),
            old(self).is_closed() ==> (r matches Err(ClusterError::Shutdown) && final(self).inner() == old(self).inner()),
            !old(self).is_closed() ==> ((r is Ok <==> cas_applies(old(self).inner().state(), key@, expected_version, now))
                && (r matches Ok((e, t)) ==> e.value@ == new_value@ && e.version == expected_version + 1 && t@ == notified(
                old(self).inner(),
                key@,
            ) && t@.no_duplicates()) && (r matches Err(
                err,
            ) ==> err matches ClusterError::CasConflict { key: k, current } && k@ == key@ && (current is Some
                <==> is_live(old(self).inner().state(), key@, now)) && (current matches Some(cur) ==> cur.value@
                == old(self).inner().state()[key@].value && cur.version == old(self).inner().state()[key@].version))
                && final(self).inner().state() == cas_state(
                old(self).inner().state(),
                key@,
                expected_version,
                new_value@,
                ttl,
                now,
            ) && watches_kept(final(self).inner(), old(self).inner())),
    {
        if self.closed {
            return Err(ClusterError::Shutdown);
        }
        match self.store.compare_and_swap(key, expected_version, new_value, ttl, now) {
            Ok(e) => Ok((e, self.targets(key))),
            Err(conflict) => Err(ClusterError::CasConflict { key: conflict.key, current: conflict.current }),
        }
    }

    /// Removes `key`, refused once shut down: whether it was live, and the
    /// watchers to notify (none when it was not live).
    pub fn delete(&mut self, key: &str, now: u64) -> (r: Result<(bool, Vec<u64>), ClusterError>)
        requires
            old(self).wf(),
        ensures
            final(self).wf(),
            final(self).is_closed() == old(self).is_closed(),
            old(self).is_closed() ==> (r matches Err(ClusterError::Shutdown) && final(self).inner() == old(self).inner()),
            !old(self).is_closed() ==> (r matches Ok((was_live, t)) && was_live == is_live(old(self).inner().state(), key@, now)
                && t@ == (if was_live {
                notified(old(self).inner(), key@)
            } else {
                Seq::empty()
            }) && t@.no_duplicates() && final(self).inner().state() == delete_state(old(self).inner().state(), key@) && watches_kept(
                final(self).inner(),
                old(self).inner(),
            )),
    {
        if self.closed {
            return Err(ClusterError::Shutdown);
        }
        let was_live = self.store.delete(key, now);
        let t = if was_live {
            self.targets(key)
        } else {
            Vec::new()
        };
        Ok((was_live, t))
    }

    /// Removes `key` only while it holds `expected_value`, refused once shut
    /// down: whether it removed it, and the watchers to notify (none when it
    /// did not).
    pub fn compare_and_delete(&mut self, key: &str, expected_value: &[u8], now: u64) -> (r: Result<
        (bool, Vec<u64>),
        ClusterError,
    >)
        requires
            old(self).wf(),
        ensures
            final(self).wf(),
            final(self).is_closed() == old(self).is_closed(),
            old(self).is_closed() ==> (r matches Err(ClusterError::Shutdown) && final(self).inner() == old(self).inner()),
            !old(self).is_closed() ==> (r matches Ok((deleted, t)) && deleted == cad_applies(
                old(self).inner().state(),
                key@,
                expected_value@,
                now,
            ) && t@ == (if deleted {
                notified(old(self).inner(), key@)
            } else {
                Seq::empty()
            }) && t@.no_duplicates() && final(self).inner().state() == cad_state(old(self).inner().state(), key@, expected_value@, now)
                && watches_kept(final(self).inner(), old(self).inner())),
    {
        if self.closed {
            return Err(ClusterError::Shutdown);
        }
        let deleted = self.store.compare_and_delete(key, expected_value, now);
        let t = if deleted {
            self.targets(key)
        } else {
            Vec::new()
        };
        Ok((deleted, t))
    }

    /// Registers a watch, refused once shut down; returns the new watch id.
    pub fn watch(&mut self, kind: WatchKind) -> (r: Result<u64, ClusterError>)
        requires
            old(self).wf(),
            old(self).inner().next_id() < u64::MAX,
        ensures
            final(self).wf(),
            final(self).is_closed() == old(self).is_closed(),
            old(self).is_closed() ==> (r matches Err(ClusterError::Shutdown) && final(self).inner() == old(self).inner()),
            !old(self).is_closed() ==> (r matches Ok(id) && id == old(self).inner().next_id()
                && final(self).inner().watch_list() == old(self).inner().watch_list().push(Watcher { id, kind })
                && final(self).inner().next_id() == old(self).inner().next_id() + 1 && final(self).inner().state()
                == old(self).inner().state()),
    {
        if self.closed {
            return Err(ClusterError::Shutdown);
        }
        Ok(self.store.register_watch(kind))
    }

    /// Removes every entry expired at `now` (the sweeper's tick) and returns
    /// each removed key, once, with the watchers to notify of its expiry.
    pub fn sweep_expired(&mut self, now: u64) -> (expired: Vec<(String, Vec<u64>)>)
        requires
            old(self).wf(),
        ensures
            final(self).wf(),
            final(self).is_closed() == old(self).is_closed(),
            final(self).inner().state() == sweep_state(old(self).inner().state(), now),
            watches_kept(final(self).inner(), old(self).inner()),
            expired_keys(expired@).no_duplicates(),
            forall|k: Seq<char>|
                #[trigger] expired_keys(expired@).contains(k) <==> (old(
                    self,
                ).inner().state().contains_key(k) && crate::cluster::cache::slot_expired(old(self).inner().state()[k], now)),
            forall|i: int|
                0 <= i < expired@.len() ==> (#[trigger] expired@[i]).1@ == notified(old(self).inner(), expired@[i].0@)
                    && expired@[i].1@.no_duplicates(),
    {
        let keys = self.store.sweep_expired(now);
        let mut out: Vec<(String, Vec<u64>)> = Vec::new();
        let ghost ks = keys@;
        let mut rest = keys;
        let mut i: usize = 0;
        while i < rest.len()
            invariant
                self.wf(),
                rest@ == ks,
                i <= ks.len(),
                out@.len() == i,
                forall|j: int| 0 <= j < i ==> (#[trigger] out@[j]).0 == ks[j],
                forall|j: int|
                    0 <= j < i ==> (#[trigger] out@[j]).1@ == notified(self.inner(), out@[j].0@) && out@[j].1@.no_duplicates(),
            decreases ks.len() - i,
        {
            let k = owned(rest[i].as_str());
            let t = self.targets(k.as_str());
            proof {
                assert(k@ == ks[i as int]@);
            }
            out.push((rest[i].clone(), t));
            i = i + 1;
        }
        proof {
            assert(expired_keys(out@) =~= key_views(ks));
        }
        out
    }

    /// Drops the watchers whose consumers went away.
    pub fn prune_watchers(&mut self, dead: &[u64])
        requires
            old(self).wf(),
        ensures
            final(self).wf(),
            final(self).is_closed() == old(self).is_closed(),
            final(self).inner().watch_list() == surviving(old(self).inner().watch_list(), dead@),
            final(self).inner().state() == old(self).inner().state(),
            final(self).inner().next_id() == old(self).inner().next_id(),
    {
        self.store.prune_watchers(dead)
    }

    /// Shuts the cache down: every watch is dropped and its id returned so
    /// its consumer can be told the cache closed; from now on writes and new
    /// watches are refused. The entries stay readable.
    pub fn shutdown(&mut self) -> (closed: Vec<u64>)
        requires
            old(self).wf(),
        ensures
            final(self).wf(),
            final(self).is_closed(),
            closed@ == old(self).inner().watch_list().map_values(|w: Watcher| w.id),
            final(self).inner().watch_list() == Seq::<Watcher>::empty(),
            final(self).inner().state() == old(self).inner().state(),
    {
        self.closed = true;
        self.store.clear_watchers()
    }
}

/// What to hand a watcher next: a notice of how many events it missed, or
/// the event itself.
#[derive(Debug, Clone, Copy, PartialEq, Eq)]
pub enum Delivery {
    /// Tell the watcher it missed this many events.
    Lagged(u64),
    /// Hand over the event.
    Event,
}

/// Per-watcher count of events dropped since the last delivery that fitted.
#[derive(Debug, Clone, Copy, PartialEq, Eq)]
pub struct LagCounter {
    pub dropped: u64,
}

/// The count after a pending notice was tried: cleared when it fitted;
/// otherwise the event it preceded is dropped too.
pub open spec fn after_notice(dropped: nat, delivered: bool) -> nat {
    if delivered {
        0
    } else {
        dropped + 1
    }
}

/// The count after an event was tried: unchanged when it fitted, one more
/// when it was dropped.
pub open spec fn after_event(dropped: nat, delivered: bool) -> nat {
    if delivered {
        dropped
    } else {
        dropped + 1
    }
}

/// A count as the counter holds it, saturating at `u64::MAX`.
pub open spec fn saturated(n: nat) -> u64 {
    if n > u64::MAX {
        u64::MAX
    } else {
        n as u64
    }
}

impl LagCounter {
    /// No events missed.
    pub fn new() -> (c: Self)
        ensures
            c.dropped == 0,
    {
        LagCounter { dropped: 0 }
    }

    /// What to try first for a new event: the pending notice when events
    /// were missed, otherwise the event.
    pub fn first_delivery(&self) -> (d: Delivery)
        ensures
            self.dropped > 0 ==> d == Delivery::Lagged(self.dropped),
            self.dropped == 0 ==> d == Delivery::Event,
    {
        if self.dropped > 0 {
            Delivery::Lagged(self.dropped)
        } else {
            Delivery::Event
        }
    }

    /// Records whether the notice fitted; returns whether to go on and try
    /// the event. A notice that does not fit drops the event as well.
    pub fn notice_result(&mut self, delivered: bool) -> (try_event: bool)
        ensures
            try_event == delivered,
            final(self).dropped == saturated(after_notice(old(self).dropped as nat, delivered)),
    {
        if delivered {
            self.dropped = 0;
        } else {
            self.dropped = self.dropped.saturating_add(1);
        }
        delivered
    }

    /// Records whether the event fitted: a dropped event is counted.
    pub fn event_result(&mut self, delivered: bool)
        ensures
            final(self).dropped == saturated(after_event(old(self).dropped as nat, delivered)),
    {
        if !delivered {
            self.dropped = self.dropped.saturating_add(1);
        }
    }
}

/// One event handed to a watcher whose count is `dropped`, given whether a
/// notice and whether the event would fit: the count afterwards, whether the
/// event got through, and how many missed events a delivered notice
/// announced. A pending count is announced first; the event is tried only
/// when there was nothing to announce or the announcement fitted.
pub open spec fn lag_step(dropped: nat, notice_fits: bool, event_fits: bool) -> (nat, bool, nat) {
    if dropped > 0 && !notice_fits {
        (after_notice(dropped, false), false, 0)
    } else if dropped > 0 {
        (after_event(after_notice(dropped, true), event_fits), event_fits, dropped)
    } else {
        (after_event(0, event_fits), event_fits, 0)
    }
}

/// A watcher's history from a fresh counter, each event handled in turn:
/// the count afterwards, how many events were dropped in all, and how many
/// the delivered notices announced in all.
pub open spec fn lag_run(outcomes: Seq<(bool, bool)>) -> (nat, nat, nat)
    decreases outcomes.len(),
{
    if outcomes.len() == 0 {
        (0, 0, 0)
    } else {
        let (dropped, missed, announced) = lag_run(outcomes.drop_last());
        let (next, got_through, told) = lag_step(dropped, outcomes.last().0, outcomes.last().1);
        (next, if got_through { missed } else { missed + 1 }, announced + told)
    }
}

/// A slow watcher is told exactly how many events it missed: every dropped
/// event is either announced by a delivered notice or still counted for the
/// next one, never both and never neither.
pub proof fn law_every_missed_event_is_announced_once(outcomes: Seq<(bool, bool)>)
    ensures
        lag_run(outcomes).2 + lag_run(outcomes).0 == lag_run(outcomes).1,
    decreases outcomes.len(),
{
    if outcomes.len() > 0 {
        law_every_missed_event_is_announced_once(outcomes.drop_last());
    }
}

} // verus!
