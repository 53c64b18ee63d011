//! The model-based replay run against the in-process store itself, on one
//! clock reading: every operation is performed on a `MemCache`, its answer is
//! applied to the reference model, and the store's read of the key that
//! follows is checked against the model and the version invariants. The
//! replay is proved never to report a divergence.
use vstd::prelude::*;

use crate::cluster::cache::{is_live, CacheEntry, Ttl};
use crate::cluster::laws::{in_sync, law_memcache_passes_replay, store_after, store_reply};
use crate::cluster::model::{
    apply_step, check_step, expected_version, op_key, CacheModel, CacheOp, CasReply, OpReply, Watermarks,
};
use crate::cluster::store::MemCache;

verus! {

/// Performs `op` on `store` at `now`, written without a time-to-live, and
/// reports what the store answered; a compare-and-swap first reads the key's
/// live version and resolves its target against it.
pub fn perform_on_store(store: &mut MemCache, op: &CacheOp, now: u64) -> (reply: OpReply)
    requires
        old(store).wf(),
        is_live(old(store).state(), op_key(*op), now) ==> old(store).state()[op_key(*op)].version < u64::MAX,
    ensures
        final(store).wf(),
        reply == store_reply(old(store).state(), *op, now),
        final(store).state() == store_after(old(store).state(), *op, now),
{
    match op {
        CacheOp::Put { key, value } => {
            store.put(key.as_str(), value.as_slice(), Ttl::Indefinite, now);
            OpReply::Put(Ok(()))
        },
        CacheOp::PutIfAbsent { key, value } => {
            let created = store.put_if_absent(key.as_str(), value.as_slice(), Ttl::Indefinite, now);
            OpReply::PutIfAbsent(Ok(created.is_some()))
        },
        CacheOp::CompareAndSwap { key, target, value } => {
            let current = match store.get(key.as_str(), now) {
                Some(entry) => entry.version,
                None => 0,
            };
            let expected = expected_version(*target, current);
            match store.compare_and_swap(key.as_str(), expected, value.as_slice(), Ttl::Indefinite, now) {
                Ok(_) => OpReply::CompareAndSwap(CasReply::Swapped),
                Err(_) => OpReply::CompareAndSwap(CasReply::Conflict),
            }
        },
        CacheOp::Delete { key } => {
            let was_live = store.delete(key.as_str(), now);
            OpReply::Delete(Ok(was_live))
        },
    }
}

/// Replays `ops` against a fresh linearizable `MemCache` and the reference
/// model at the clock reading `now`, reporting the first divergence. The
/// store never diverges: the replay always succeeds. (The sequence is
/// shorter than the version limit.)
pub fn replay_against_memcache(ops: &Vec<CacheOp>, now: u64) -> (r: Result<(), String>)
    requires
        ops@.len() < u64::MAX,
    ensures
        r is Ok,
{
    let mut store = MemCache::linearizable();
    let mut model = CacheModel::new();
    let mut marks: Watermarks = Watermarks::new();
    proof {
        assert(marks@ =~= Map::<Seq<char>, u64>::empty());
    }
    let mut i: usize = 0;
    while i < ops.len()
        invariant
            i <= ops@.len(),
            ops@.len() < u64::MAX,
            store.wf(),
            in_sync(store.state(), model.contents(), marks@),
            forall|k: Seq<char>| #[trigger] store.state().contains_key(k) ==> store.state()[k].version <= i,
        decreases ops@.len() - i,
    {
        let op = &ops[i];
        let ghost s = store.state();
        let ghost k = op_key(*op);
        proof {
            assert(s.contains_key(k) ==> s[k].expires_at is None);
        }
        let reply = perform_on_store(&mut store, op, now);
        let observed: Result<Option<CacheEntry>, String> = Ok(store.get(op.key(), now));
        let ghost m = model.contents();
        let ghost w = marks@;
        proof {
            law_memcache_passes_replay(s, m, w, *op, now, now, observed);
        }
        let mutated = match apply_step(&mut model, op, i, reply) {
            Ok(mutated) => mutated,
            Err(text) => {
                return Err(text);
            },
        };
        match check_step(&model, &mut marks, op, i, observed, mutated) {
            Ok(()) => {},
            Err(text) => {
                return Err(text);
            },
        }
        proof {
            let s2 = store.state();
            assert forall|j: Seq<char>| #[trigger] s2.contains_key(j) implies s2[j].version <= i + 1 by {
                if j != k {
                    assert(s.contains_key(j) && s2[j] == s[j]);
                } else {
                    assert(s.contains_key(k) ==> is_live(s, k, now));
                }
            }
        }
        i = i + 1;
    }
    Ok(())
}

} // verus!
