//! Laws of the cache contract, stated over the abstract cache state that
//! `MemCache`'s operations are proved to follow, and the conformance of that
//! state to the reference-model replay.
use vstd::prelude::*;

use crate::cluster::cache::{
    cad_applies, cad_state, cas_applies, cas_state, create_state, deadline_of, delete_state,
    is_live, next_version, put_state, slot_expired, sweep_state, versions_nonzero, CacheEntry,
    SlotView, Ttl,
};
use crate::cluster::model::{
    apply_verdict, check_verdict, expected_version_for, marks_after, model_after, op_key,
    ApplyVerdict, CacheOp, CasReply, DivergenceTag, OpReply,
};

verus! {

/// A key that was never written, or was removed, reads as absent at any time.
pub proof fn law_absent_key_reads_absent(m: Map<Seq<char>, SlotView>, k: Seq<char>, now: u64)
    requires
        !m.contains_key(k),
    ensures
        !is_live(m, k, now),
{
}

/// A `put` stores the written value; the first write of a key that is not
/// live gets version 1, and an overwrite of a live key gets exactly one past
/// the previous version.
pub proof fn law_put_versions(m: Map<Seq<char>, SlotView>, k: Seq<char>, v: Seq<u8>, ttl: Ttl, now: u64)
    requires
        is_live(m, k, now) ==> m[k].version < u64::MAX,
    ensures
        put_state(m, k, v, ttl, now)[k].value == v,
        !is_live(m, k, now) ==> put_state(m, k, v, ttl, now)[k].version == 1,
        is_live(m, k, now) ==> put_state(m, k, v, ttl, now)[k].version == m[k].version + 1,
        put_state(m, k, v, ttl, now)[k].version != 0,
{
}

/// An entry written without a time-to-live stays live at every later time and
/// survives every sweep, until it is explicitly deleted.
pub proof fn law_indefinite_entry_survives(
    m: Map<Seq<char>, SlotView>,
    k: Seq<char>,
    v: Seq<u8>,
    now: u64,
    later: u64,
)
    ensures
        is_live(put_state(m, k, v, Ttl::Indefinite, now), k, later),
        sweep_state(put_state(m, k, v, Ttl::Indefinite, now), later).contains_key(k),
        sweep_state(put_state(m, k, v, Ttl::Indefinite, now), later)[k].value == v,
{
}

/// An entry written with a time-to-live of `ms` reads as absent from
/// `now + ms` on, and a sweep at such a time removes it.
pub proof fn law_ttl_expiry(m: Map<Seq<char>, SlotView>, k: Seq<char>, v: Seq<u8>, ms: u64, now: u64, later: u64)
    requires
        now + ms <= u64::MAX,
        later >= now + ms,
    ensures
        !is_live(put_state(m, k, v, Ttl::Of(ms), now), k, later),
        !sweep_state(put_state(m, k, v, Ttl::Of(ms), now), later).contains_key(k),
{
}

/// Create-if-absent creates at version 1 exactly when the key is not live, and
/// a second create of a live key changes nothing.
pub proof fn law_create_if_absent(m: Map<Seq<char>, SlotView>, k: Seq<char>, v: Seq<u8>, w: Seq<u8>, ttl: Ttl, now: u64)
    ensures
        !is_live(m, k, now) ==> create_state(m, k, v, ttl, now)[k].version == 1 && create_state(
            m,
            k,
            v,
            ttl,
            now,
        )[k].value == v,
        is_live(m, k, now) ==> create_state(m, k, v, ttl, now) == m,
        deadline_of(ttl, now) is None ==> create_state(create_state(m, k, v, ttl, now), k, w, ttl, now)
            == create_state(m, k, v, ttl, now),
{
    if deadline_of(ttl, now) is None && !is_live(m, k, now) {
        let m1 = create_state(m, k, v, ttl, now);
        assert(is_live(m1, k, now));
    }
}

/// Compare-and-swap applies exactly when the expected version is the live
/// version; a successful swap stores the new value one version higher, and a
/// conflicting one changes nothing.
pub proof fn law_compare_and_swap(
    m: Map<Seq<char>, SlotView>,
    k: Seq<char>,
    expected: u64,
    v: Seq<u8>,
    ttl: Ttl,
    now: u64,
)
    requires
        cas_applies(m, k, expected, now) ==> expected < u64::MAX,
    ensures
        cas_applies(m, k, expected, now) <==> (is_live(m, k, now) && m[k].version == expected),
        cas_applies(m, k, expected, now) ==> cas_state(m, k, expected, v, ttl, now)[k].value == v
            && cas_state(m, k, expected, v, ttl, now)[k].version > m[k].version,
        !cas_applies(m, k, expected, now) ==> cas_state(m, k, expected, v, ttl, now) == m,
{
}

/// After a delete the key reads as absent at any time, and every other key is
/// unchanged.
pub proof fn law_delete_removes(m: Map<Seq<char>, SlotView>, k: Seq<char>, other: Seq<char>, later: u64)
    requires
        other != k,
    ensures
        !is_live(delete_state(m, k), k, later),
        delete_state(m, k).contains_key(other) == m.contains_key(other),
        m.contains_key(other) ==> delete_state(m, k)[other] == m[other],
{
}

/// The owner-token-guarded delete removes the key only when its live value is
/// the given token; otherwise nothing changes.
pub proof fn law_compare_and_delete(m: Map<Seq<char>, SlotView>, k: Seq<char>, token: Seq<u8>, now: u64)
    ensures
        cad_applies(m, k, token, now) <==> (is_live(m, k, now) && m[k].value == token),
        cad_applies(m, k, token, now) ==> !cad_state(m, k, token, now).contains_key(k),
        !cad_applies(m, k, token, now) ==> cad_state(m, k, token, now) == m,
{
}

/// A key deleted and re-created starts over at version 1, so a stale owner
/// token of the previous holder cannot remove the successor's claim.
pub proof fn law_recreate_resets_version(
    m: Map<Seq<char>, SlotView>,
    k: Seq<char>,
    old_token: Seq<u8>,
    new_token: Seq<u8>,
    ttl: Ttl,
    now: u64,
)
    requires
        old_token != new_token,
    ensures
        create_state(delete_state(m, k), k, new_token, ttl, now)[k].version == 1,
        !cad_applies(create_state(delete_state(m, k), k, new_token, ttl, now), k, old_token, now),
{
}

/// No operation ever stores the reserved version 0.
pub proof fn law_versions_stay_nonzero(
    m: Map<Seq<char>, SlotView>,
    k: Seq<char>,
    v: Seq<u8>,
    expected: u64,
    ttl: Ttl,
    now: u64,
)
    requires
        versions_nonzero(m),
        is_live(m, k, now) ==> m[k].version < u64::MAX,
    ensures
        versions_nonzero(put_state(m, k, v, ttl, now)),
        versions_nonzero(create_state(m, k, v, ttl, now)),
        versions_nonzero(cas_state(m, k, expected, v, ttl, now)),
        versions_nonzero(delete_state(m, k)),
        versions_nonzero(cad_state(m, k, v, now)),
        versions_nonzero(sweep_state(m, now)),
{
    assert(versions_nonzero(sweep_state(m, now))) by {
        assert forall|j: Seq<char>| #[trigger] sweep_state(m, now).contains_key(j) implies sweep_state(m, now)[j].version != 0 by {
            assert(m.contains_key(j));
        }
    }
}

/// The reference model after applying each operation of `steps`, with the
/// backend's reply to it, in turn, starting from `m`.
pub open spec fn model_after_all(m: Map<Seq<char>, Seq<u8>>, steps: Seq<(CacheOp, OpReply)>) -> Map<Seq<char>, Seq<u8>>
    decreases steps.len(),
{
    if steps.len() == 0 {
        m
    } else {
        model_after(model_after_all(m, steps.drop_last()), steps.last().0, steps.last().1)
    }
}

/// A read of the reference model gives back the last value written under a
/// key: after `put(key, value)`, any later operations on other keys leave
/// `key` present with `value`; and the put leaves every other key as it was.
pub proof fn law_model_put_then_get(
    m: Map<Seq<char>, Seq<u8>>,
    key: Seq<char>,
    value: Seq<u8>,
    later: Seq<(CacheOp, OpReply)>,
)
    requires
        forall|i: int| 0 <= i < later.len() ==> op_key(#[trigger] later[i].0) != key,
    ensures
        model_after_all(m.insert(key, value), later).contains_key(key),
        model_after_all(m.insert(key, value), later)[key] == value,
        forall|k: Seq<char>|
            k != key ==> (#[trigger] m.insert(key, value).contains_key(k) == m.contains_key(k)) && (m.contains_key(k)
                ==> m.insert(key, value)[k] == m[k]),
    decreases later.len(),
{
    if later.len() > 0 {
        let init = later.drop_last();
        assert forall|i: int| 0 <= i < init.len() implies op_key(#[trigger] init[i].0) != key by {
            assert(init[i] == later[i]);
        }
        law_model_put_then_get(m, key, value, init);
        assert(op_key(later[later.len() - 1].0) != key);
    }
}

/// The store state, the reference model and the watermarks agree: every key
/// was written without a time-to-live, no version is 0, the model holds
/// exactly the stored keys with their values, and each watermark is the
/// stored version of its key.
pub open spec fn in_sync(s: Map<Seq<char>, SlotView>, model: Map<Seq<char>, Seq<u8>>, marks: Map<Seq<char>, u64>) -> bool {
    &&& versions_nonzero(s)
    &&& forall|k: Seq<char>| #[trigger] s.contains_key(k) ==> s[k].expires_at is None
    &&& forall|k: Seq<char>| #[trigger] model.contains_key(k) <==> s.contains_key(k)
    &&& forall|k: Seq<char>| #[trigger] model.contains_key(k) ==> model[k] == s[k].value
    &&& forall|k: Seq<char>| #[trigger] marks.contains_key(k) ==> s.contains_key(k) && marks[k] == s[k].version
}

/// The version a replayed compare-and-swap reads before swapping (0 when the
/// key is absent).
pub open spec fn read_version(s: Map<Seq<char>, SlotView>, k: Seq<char>, now: u64) -> u64 {
    if is_live(s, k, now) {
        s[k].version
    } else {
        0
    }
}

/// What `MemCache` answers to a replayed operation (written without a
/// time-to-live), as its operations' contracts determine it.
pub open spec fn store_reply(s: Map<Seq<char>, SlotView>, op: CacheOp, now: u64) -> OpReply {
    match op {
        CacheOp::Put { .. } => OpReply::Put(Ok(())),
        CacheOp::PutIfAbsent { key, .. } => OpReply::PutIfAbsent(Ok(!is_live(s, key@, now))),
        CacheOp::CompareAndSwap { key, target, .. } => {
            let expected = expected_version_for(target, read_version(s, key@, now));
            if cas_applies(s, key@, expected, now) {
                OpReply::CompareAndSwap(CasReply::Swapped)
            } else {
                OpReply::CompareAndSwap(CasReply::Conflict)
            }
        },
        CacheOp::Delete { key } => OpReply::Delete(Ok(is_live(s, key@, now))),
    }
}

/// The store state after a replayed operation (written without a
/// time-to-live).
pub open spec fn store_after(s: Map<Seq<char>, SlotView>, op: CacheOp, now: u64) -> Map<Seq<char>, SlotView> {
    match op {
        CacheOp::Put { key, value } => put_state(s, key@, value@, Ttl::Indefinite, now),
        CacheOp::PutIfAbsent { key, value } => create_state(s, key@, value@, Ttl::Indefinite, now),
        CacheOp::CompareAndSwap { key, target, value } => cas_state(
            s,
            key@,
            expected_version_for(target, read_version(s, key@, now)),
            value@,
            Ttl::Indefinite,
            now,
        ),
        CacheOp::Delete { key } => delete_state(s, key@),
    }
}

/// Whether `observed` is what a read of `k` from `s` at `now` returns.
pub open spec fn read_matches(s: Map<Seq<char>, SlotView>, k: Seq<char>, now: u64, observed: Result<Option<CacheEntry>, String>) -> bool {
    match observed {
        Ok(Some(e)) => is_live(s, k, now) && e.value@ == s[k].value && e.version == s[k].version,
        Ok(None) => !is_live(s, k, now),
        Err(_) => false,
    }
}

/// `MemCache` passes the model-based replay: from agreeing store, model and
/// watermarks, every operation's reply is accepted by the model, the read
/// that follows agrees with the model and the version invariants, and the
/// three stay in agreement. (A key's version must have headroom below the
/// integer limit.)
pub proof fn law_memcache_passes_replay(
    s: Map<Seq<char>, SlotView>,
    model: Map<Seq<char>, Seq<u8>>,
    marks: Map<Seq<char>, u64>,
    op: CacheOp,
    now: u64,
    later: u64,
    observed: Result<Option<CacheEntry>, String>,
)
    requires
        in_sync(s, model, marks),
        s.contains_key(op_key(op)) ==> s[op_key(op)].version < u64::MAX,
        read_matches(store_after(s, op, now), op_key(op), later, observed),
    ensures
        apply_verdict(model, op, store_reply(s, op, now)) is Accepted,
        apply_verdict(model, op, store_reply(s, op, now)) matches ApplyVerdict::Accepted(mutated)
            ==> check_verdict(
            model_after(model, op, store_reply(s, op, now)),
            marks,
            op_key(op),
            observed,
            mutated,
        ) is None,
        in_sync(
            store_after(s, op, now),
            model_after(model, op, store_reply(s, op, now)),
            marks_after(marks, op_key(op), observed),
        ),
{
    let k = op_key(op);
    let s2 = store_after(s, op, now);
    let reply = store_reply(s, op, now);
    let m2 = model_after(model, op, reply);
    let marks2 = marks_after(marks, k, observed);
    assert(model.contains_key(k) <==> s.contains_key(k));
    assert(marks.contains_key(k) ==> s.contains_key(k) && marks[k] == s[k].version);
    assert(s.contains_key(k) ==> s[k].expires_at is None);
    assert(is_live(s, k, now) == s.contains_key(k));
    assert forall|j: Seq<char>| j != k && #[trigger] s2.contains_key(j) implies s.contains_key(j) && s2[j] == s[j] by {}
    assert forall|j: Seq<char>| j != k && #[trigger] m2.contains_key(j) implies model.contains_key(j) && m2[j] == model[j] by {}
    assert forall|j: Seq<char>| j != k implies (#[trigger] s2.contains_key(j) <==> s.contains_key(j)) by {}
    assert forall|j: Seq<char>| j != k implies (#[trigger] m2.contains_key(j) <==> model.contains_key(j)) by {}
    assert(s2.contains_key(k) ==> s2[k].expires_at is None);
    assert(is_live(s2, k, later) == s2.contains_key(k));
    assert(m2.contains_key(k) <==> s2.contains_key(k));
    assert(m2.contains_key(k) ==> m2[k] == s2[k].value);
    assert(s2.contains_key(k) ==> s2[k].version != 0);
    assert(versions_nonzero(s2));
    assert forall|j: Seq<char>| #[trigger] marks2.contains_key(j) implies s2.contains_key(j) && marks2[j] == s2[j].version by {
        if j != k {
            assert(marks.contains_key(j));
        }
    }
}

/// The store state after replaying the first `n` operations of `ops`,
/// starting from an empty store.
pub open spec fn replay_store(ops: Seq<CacheOp>, n: nat, now: u64) -> Map<Seq<char>, SlotView>
    decreases n,
{
    if n == 0 {
        Map::empty()
    } else {
        store_after(replay_store(ops, (n - 1) as nat, now), ops[n - 1], now)
    }
}

/// The reference model after the first `n` operations, each applied with the
/// store's reply.
pub open spec fn replay_model(ops: Seq<CacheOp>, n: nat, now: u64) -> Map<Seq<char>, Seq<u8>>
    decreases n,
{
    if n == 0 {
        Map::empty()
    } else {
        let i = (n - 1) as nat;
        model_after(replay_model(ops, i, now), ops[i as int], store_reply(replay_store(ops, i, now), ops[i as int], now))
    }
}

/// The watermarks after the first `n` post-operation reads.
pub open spec fn replay_marks(ops: Seq<CacheOp>, reads: Seq<Result<Option<CacheEntry>, String>>, n: nat) -> Map<
    Seq<char>,
    u64,
>
    decreases n,
{
    if n == 0 {
        Map::empty()
    } else {
        marks_after(replay_marks(ops, reads, (n - 1) as nat), op_key(ops[n - 1]), reads[n - 1])
    }
}

/// Whether `reads` are the store's reads of each operation's key right after
/// that operation.
pub open spec fn reads_follow(ops: Seq<CacheOp>, reads: Seq<Result<Option<CacheEntry>, String>>, now: u64) -> bool {
    &&& reads.len() == ops.len()
    &&& forall|i: int|
        0 <= i < ops.len() ==> read_matches(replay_store(ops, (i + 1) as nat, now), op_key(ops[i]), now, #[trigger] reads[i])
}

/// Whether the mutation flag of an accepted verdict is set.
pub open spec fn accepted_mutation(v: ApplyVerdict) -> bool {
    match v {
        ApplyVerdict::Accepted(mutated) => mutated,
        ApplyVerdict::Rejected(_) => false,
    }
}

/// Whether operation `i` of the replay passes: the model accepts the store's
/// reply, and the read that follows agrees with the model and the version
/// invariants.
pub open spec fn replay_step_passes(ops: Seq<CacheOp>, reads: Seq<Result<Option<CacheEntry>, String>>, now: u64, i: int) -> bool {
    let verdict = apply_verdict(
        replay_model(ops, i as nat, now),
        ops[i],
        store_reply(replay_store(ops, i as nat, now), ops[i], now),
    );
    &&& verdict is Accepted
    &&& check_verdict(
        replay_model(ops, (i + 1) as nat, now),
        replay_marks(ops, reads, i as nat),
        op_key(ops[i]),
        reads[i],
        accepted_mutation(verdict),
    ) is None
}

proof fn lemma_replay_prefix(ops: Seq<CacheOp>, reads: Seq<Result<Option<CacheEntry>, String>>, now: u64, n: nat)
    requires
        n <= ops.len(),
        ops.len() < u64::MAX,
        reads_follow(ops, reads, now),
    ensures
        in_sync(replay_store(ops, n, now), replay_model(ops, n, now), replay_marks(ops, reads, n)),
        forall|k: Seq<char>| #[trigger] replay_store(ops, n, now).contains_key(k) ==> replay_store(ops, n, now)[k].version <= n,
        forall|i: int| 0 <= i < n ==> #[trigger] replay_step_passes(ops, reads, now, i),
    decreases n,
{
    if n > 0 {
        let i = (n - 1) as nat;
        lemma_replay_prefix(ops, reads, now, i);
        let s = replay_store(ops, i, now);
        let model = replay_model(ops, i, now);
        let marks = replay_marks(ops, reads, i);
        let op = ops[i as int];
        let k = op_key(op);
        assert(reads_follow(ops, reads, now));
        assert(read_matches(replay_store(ops, n, now), k, now, reads[i as int]));
        law_memcache_passes_replay(s, model, marks, op, now, now, reads[i as int]);
        let s2 = store_after(s, op, now);
        assert(s2 == replay_store(ops, n, now));
        assert forall|j: Seq<char>| #[trigger] s2.contains_key(j) implies s2[j].version <= n by {
            if j != k {
                assert(s.contains_key(j) && s2[j] == s[j]);
            } else {
                assert(s.contains_key(k) ==> is_live(s, k, now));
            }
        }
        assert(replay_step_passes(ops, reads, now, i as int));
        assert forall|j: int| 0 <= j < n implies #[trigger] replay_step_passes(ops, reads, now, j) by {
            if j < i {
                assert(replay_step_passes(ops, reads, now, j));
            }
        }
    }
}

/// `MemCache` passes the model-based replay of every operation sequence:
/// starting empty, replaying the operations in turn (written without a
/// time-to-live), the model accepts every reply and every read that follows
/// agrees with the model and the version invariants. (The sequence is shorter
/// than the version limit.)
pub proof fn law_memcache_passes_every_replay(ops: Seq<CacheOp>, reads: Seq<Result<Option<CacheEntry>, String>>, now: u64)
    requires
        ops.len() < u64::MAX,
        reads_follow(ops, reads, now),
    ensures
        forall|i: int| 0 <= i < ops.len() ==> #[trigger] replay_step_passes(ops, reads, now, i),
{
    lemma_replay_prefix(ops, reads, now, ops.len());
}

/// The replay's version rules on a key that the backend and the model both
/// hold with the same value and a version other than 0, against the key's
/// watermark `w`: after an operation that did not mutate the key the version
/// must still be `w` (any other version is reported as changed), and after
/// one that mutated it the version must exceed `w` (otherwise it is reported
/// as not increased). A read that keeps to the rule passes.
pub proof fn law_version_rules_of_the_replay_check(
    m: Map<Seq<char>, Seq<u8>>,
    marks: Map<Seq<char>, u64>,
    key: Seq<char>,
    entry: CacheEntry,
    mutated: bool,
)
    requires
        m.contains_key(key),
        entry.value@ == m[key],
        entry.version != 0,
        marks.contains_key(key),
    ensures
        !mutated && entry.version != marks[key] ==> check_verdict(m, marks, key, Ok(Some(entry)), mutated) == Some(
            DivergenceTag::VersionChanged,
        ),
        !mutated && entry.version == marks[key] ==> check_verdict(m, marks, key, Ok(Some(entry)), mutated) is None,
        mutated && entry.version <= marks[key] ==> check_verdict(m, marks, key, Ok(Some(entry)), mutated) == Some(
            DivergenceTag::VersionNotIncreased,
        ),
        mutated && entry.version > marks[key] ==> check_verdict(m, marks, key, Ok(Some(entry)), mutated) is None,
{
}

/// Presence and value in the replay check: a read that shows the key while
/// the model lacks it, that lacks it while the model holds it, or that shows
/// another value than the model's, is reported; a version of 0 is reported.
pub proof fn law_presence_and_value_rules_of_the_replay_check(
    m: Map<Seq<char>, Seq<u8>>,
    marks: Map<Seq<char>, u64>,
    key: Seq<char>,
    entry: CacheEntry,
    mutated: bool,
)
    ensures
        !m.contains_key(key) ==> check_verdict(m, marks, key, Ok(Some(entry)), mutated) == Some(
            DivergenceTag::UnexpectedPresent,
        ),
        m.contains_key(key) ==> check_verdict(m, marks, key, Ok(None), mutated) == Some(DivergenceTag::UnexpectedAbsent),
        !m.contains_key(key) ==> check_verdict(m, marks, key, Ok(None), mutated) is None,
        m.contains_key(key) && entry.value@ != m[key] ==> check_verdict(m, marks, key, Ok(Some(entry)), mutated) == Some(
            DivergenceTag::ValueMismatch,
        ),
        m.contains_key(key) && entry.value@ == m[key] && entry.version == 0 ==> check_verdict(
            m,
            marks,
            key,
            Ok(Some(entry)),
            mutated,
        ) == Some(DivergenceTag::ZeroVersion),
        m.contains_key(key) && entry.value@ == m[key] && entry.version != 0 && !marks.contains_key(key)
            ==> check_verdict(m, marks, key, Ok(Some(entry)), mutated) is None,
{
}

} // verus!
