use gears::cluster::cache::{is_linearizable, CacheConsistency, CacheEntry, Ttl};
use gears::cluster::model::{
    apply_reply, apply_step, check_observation, expected_version, render_divergence, CacheModel, CacheOp, CasReply,
    Divergence, DivergenceKind, OpReply, Operation, VersionTarget, Watermarks,
};
use gears::cluster::conformance::{perform_on_store, replay_against_memcache};
use gears::cluster::store::{MemCache, WatchKind};

fn put(cache: &mut MemCache, key: &str, value: &[u8], now: u64) {
    cache.put(key, value, Ttl::Indefinite, now);
}

#[test]
fn absent_key_reads_none() {
    let cache = MemCache::linearizable();
    assert!(cache.get("absent", 0).is_none());
}

#[test]
fn put_then_get_returns_value_at_version_one() {
    let mut cache = MemCache::linearizable();
    put(&mut cache, "k", b"v", 0);
    let entry = cache.get("k", 0).expect("present");
    assert_eq!(entry, CacheEntry { value: b"v".to_vec(), version: 1 });
}

#[test]
fn overwrite_strictly_increments_version() {
    let mut cache = MemCache::linearizable();
    put(&mut cache, "k", b"a", 0);
    let v1 = cache.get("k", 0).unwrap().version;
    put(&mut cache, "k", b"b", 0);
    let v2 = cache.get("k", 0).unwrap().version;
    assert_ne!(v1, 0);
    assert!(v2 > v1);
}

#[test]
fn put_if_absent_creates_once() {
    let mut cache = MemCache::linearizable();
    assert!(cache.put_if_absent("k", b"a", Ttl::Indefinite, 0).is_some());
    assert!(cache.put_if_absent("k", b"b", Ttl::Indefinite, 0).is_none());
    assert_eq!(cache.get("k", 0).unwrap().value, b"a");
}

#[test]
fn compare_and_swap_succeeds_at_current_version() {
    let mut cache = MemCache::linearizable();
    let created = cache.put_if_absent("k", b"a", Ttl::Indefinite, 0).unwrap();
    let swapped = cache.compare_and_swap("k", created.version, b"b", Ttl::Indefinite, 0).expect("swap");
    assert_eq!(swapped.value, b"b");
    assert!(swapped.version > created.version);
}

#[test]
fn compare_and_swap_on_stale_version_reports_current() {
    let mut cache = MemCache::linearizable();
    let created = cache.put_if_absent("k", b"a", Ttl::Indefinite, 0).unwrap();
    let conflict = cache.compare_and_swap("k", created.version + 100, b"b", Ttl::Indefinite, 0).unwrap_err();
    assert_eq!(conflict.key, "k");
    assert_eq!(conflict.current.expect("current").version, created.version);
    assert_eq!(cache.get("k", 0).unwrap().value, b"a");
}

#[test]
fn compare_and_swap_on_absent_key_conflicts_without_current() {
    let mut cache = MemCache::linearizable();
    let conflict = cache.compare_and_swap("k", 0, b"b", Ttl::Indefinite, 0).unwrap_err();
    assert!(conflict.current.is_none());
    assert!(cache.get("k", 0).is_none());
}

#[test]
fn delete_reports_prior_existence() {
    let mut cache = MemCache::linearizable();
    put(&mut cache, "k", b"v", 0);
    assert!(cache.delete("k", 0));
    assert!(cache.get("k", 0).is_none());
    assert!(!cache.delete("k", 0));
}

#[test]
fn compare_and_delete_requires_matching_token() {
    let mut cache = MemCache::linearizable();
    put(&mut cache, "k", b"owner-a", 0);
    assert!(!cache.compare_and_delete("k", b"owner-b", 0));
    assert!(cache.compare_and_delete("k", b"owner-a", 0));
    assert!(!cache.compare_and_delete("absent", b"x", 0));
}

#[test]
fn recreate_resets_version_and_stale_token_cannot_delete() {
    let mut cache = MemCache::linearizable();
    put(&mut cache, "lock", b"holder-a", 0);
    put(&mut cache, "lock", b"holder-a", 0);
    assert!(cache.delete("lock", 0));
    let b = cache.put_if_absent("lock", b"holder-b", Ttl::Indefinite, 0).unwrap();
    assert_eq!(b.version, 1);
    assert!(!cache.compare_and_delete("lock", b"holder-a", 0));
    assert_eq!(cache.get("lock", 0).unwrap().value, b"holder-b");
}

#[test]
fn ttl_expiry_hides_then_sweeps_entry() {
    let mut cache = MemCache::linearizable();
    cache.put("k", b"v", Ttl::Of(50), 1000);
    assert!(cache.get("k", 1049).is_some());
    assert!(cache.get("k", 1050).is_none());
    let expired = cache.sweep_expired(1100);
    assert_eq!(expired, vec!["k".to_owned()]);
    assert!(cache.sweep_expired(1200).is_empty());
}

#[test]
fn indefinite_entry_survives_large_time_advance() {
    let mut cache = MemCache::linearizable();
    put(&mut cache, "k", b"v", 0);
    assert!(cache.sweep_expired(3_600_000).is_empty());
    assert!(cache.get("k", 3_600_000).is_some());
}

#[test]
fn expired_entry_overwrite_restarts_at_version_one() {
    let mut cache = MemCache::linearizable();
    cache.put("k", b"a", Ttl::Of(10), 0);
    cache.put("k", b"b", Ttl::Indefinite, 20);
    assert_eq!(cache.get("k", 20).unwrap().version, 1);
}

#[test]
fn scan_prefix_lists_live_matching_keys() {
    let mut cache = MemCache::linearizable();
    put(&mut cache, "p/a", b"1", 0);
    put(&mut cache, "p/b", b"2", 0);
    put(&mut cache, "q/c", b"3", 0);
    cache.put("p/d", b"4", Ttl::Of(5), 0);
    let mut keys = cache.scan_prefix("p/", 10);
    keys.sort();
    assert_eq!(keys, vec!["p/a".to_owned(), "p/b".to_owned()]);
}

#[test]
fn watches_match_exact_keys_and_prefixes() {
    let mut cache = MemCache::linearizable();
    let exact = cache.register_watch(WatchKind::Exact("k".to_owned()));
    let prefix = cache.register_watch(WatchKind::Prefix("p/".to_owned()));
    assert_ne!(exact, prefix);
    assert_eq!(cache.matching_watchers("k"), vec![exact]);
    assert_eq!(cache.matching_watchers("p/a"), vec![prefix]);
    assert!(cache.matching_watchers("q").is_empty());
    cache.prune_watchers(&[exact]);
    assert!(cache.matching_watchers("k").is_empty());
    assert!(WatchKind::Prefix("p/".to_owned()).matches("p/x"));
    assert!(!WatchKind::Exact("p/".to_owned()).matches("p/x"));
}

#[test]
fn consistency_and_features_are_declared() {
    assert!(is_linearizable(MemCache::linearizable().consistency()));
    assert!(!is_linearizable(MemCache::eventually_consistent().consistency()));
    assert_eq!(MemCache::eventually_consistent().consistency(), CacheConsistency::EventuallyConsistent);
    assert!(MemCache::linearizable().features().prefix_watch);
    assert!(!MemCache::linearizable_without_prefix_watch().features().prefix_watch);
}

#[test]
fn model_tracks_value_and_presence() {
    let mut model = CacheModel::default();
    assert!(model.create_if_absent("k", b"a"));
    assert!(!model.create_if_absent("k", b"b"));
    assert_eq!(model.get("k"), Some(&b"a".to_vec()));
    model.put("k", b"c");
    assert!(model.contains("k"));
    assert!(model.remove("k"));
    assert!(!model.remove("k"));
    assert!(model.get("k").is_none());
}

#[test]
fn stale_target_never_matches_current_version() {
    assert_eq!(expected_version(VersionTarget::Current, 7), 7);
    assert_eq!(expected_version(VersionTarget::Stale, 7), 8);
    assert_eq!(expected_version(VersionTarget::Stale, u64::MAX), 0);
    assert_eq!(CacheOp::Delete { key: "z".to_owned() }.key(), "z");
}

#[test]
fn oracle_flags_a_version_that_did_not_increase() {
    let mut model = CacheModel::new();
    let mut marks = Watermarks::new();
    let op = CacheOp::Put { key: "k".to_owned(), value: b"a".to_vec() };
    assert_eq!(apply_reply(&mut model, &op, 0, OpReply::Put(Ok(()))).unwrap(), true);
    let observed = Ok(Some(CacheEntry { value: b"a".to_vec(), version: 5 }));
    check_observation(&model, &mut marks, &op, 0, observed, true).unwrap();
    assert_eq!(apply_reply(&mut model, &op, 1, OpReply::Put(Ok(()))).unwrap(), true);
    let observed = Ok(Some(CacheEntry { value: b"a".to_vec(), version: 5 }));
    let d = check_observation(&model, &mut marks, &op, 1, observed, true).unwrap_err();
    assert_eq!(d.index, 1);
    assert_eq!(d.key, "k");
    assert!(matches!(d.kind, DivergenceKind::VersionNotIncreased { previous: 5, current: 5 }));
}

#[test]
fn oracle_flags_disagreements() {
    let mut model = CacheModel::new();
    let op = CacheOp::PutIfAbsent { key: "k".to_owned(), value: b"a".to_vec() };
    let d = apply_reply(&mut model, &op, 3, OpReply::PutIfAbsent(Ok(false))).unwrap_err();
    assert!(matches!(d.kind, DivergenceKind::CreateMismatch { created: false, expected: true }));
    let cas = CacheOp::CompareAndSwap { key: "x".to_owned(), target: VersionTarget::Stale, value: b"b".to_vec() };
    let d = apply_reply(&mut model, &cas, 4, OpReply::CompareAndSwap(CasReply::Swapped)).unwrap_err();
    assert!(matches!(d.kind, DivergenceKind::SwapUnexpected));
    let del = CacheOp::Delete { key: "y".to_owned() };
    let d = apply_reply(&mut model, &del, 5, OpReply::Delete(Err("boom".to_owned()))).unwrap_err();
    assert!(matches!(d.kind, DivergenceKind::BackendError { .. }));
    let mut marks = Watermarks::new();
    let d = check_observation(&model, &mut marks, &del, 6, Ok(Some(CacheEntry { value: vec![], version: 1 })), false)
        .unwrap_err();
    assert!(matches!(d.kind, DivergenceKind::UnexpectedPresent { version: 1 }));
}

/// A small deterministic generator standing in for a property-test runner.
struct Lcg(u64);

impl Lcg {
    fn next(&mut self, bound: u64) -> u64 {
        self.0 = self.0.wrapping_mul(6364136223846793005).wrapping_add(1442695040888963407);
        (self.0 >> 33) % bound
    }
}

fn random_op(rng: &mut Lcg) -> CacheOp {
    let key = ["k0", "k1", "k2"][rng.next(3) as usize].to_owned();
    let value = vec![[b'a', b'b', b'c'][rng.next(3) as usize]];
    match rng.next(4) {
        0 => CacheOp::Put { key, value },
        1 => CacheOp::PutIfAbsent { key, value },
        2 => {
            let target = if rng.next(2) == 0 { VersionTarget::Current } else { VersionTarget::Stale };
            CacheOp::CompareAndSwap { key, target, value }
        }
        _ => CacheOp::Delete { key },
    }
}

#[test]
fn cache_invariants_hold_under_random_op_sequences() {
    let mut rng = Lcg(0x5eed);
    for _ in 0..256 {
        let len = 1 + rng.next(39) as usize;
        let ops: Vec<CacheOp> = (0..len).map(|_| random_op(&mut rng)).collect();
        let result = replay_against_memcache(&ops, 1_000);
        assert!(result.is_ok(), "{}", result.err().unwrap_or_default());
    }
}

#[test]
fn divergence_reports_render_like_the_replay_messages() {
    let value = Divergence {
        index: 3,
        key: "k0".to_owned(),
        kind: DivergenceKind::ValueMismatch { backend: b"ab".to_vec(), model: b"c".to_vec() },
    };
    assert_eq!(render_divergence(&value), "op #3 on key \"k0\": value divergence: backend [97, 98] vs model [99]");
    let create = Divergence {
        index: 0,
        key: "a\"b".to_owned(),
        kind: DivergenceKind::CreateMismatch { created: true, expected: false },
    };
    assert_eq!(render_divergence(&create), "op #0 on key \"a\\\"b\": put_if_absent created=true but model expected false");
    let version = Divergence {
        index: 12,
        key: "k".to_owned(),
        kind: DivergenceKind::VersionNotIncreased { previous: 4, current: 4 },
    };
    assert_eq!(render_divergence(&version), "op #12 on key \"k\": version not strictly increasing on mutation: 4 -> 4");
    let backend = Divergence {
        index: 1,
        key: "k".to_owned(),
        kind: DivergenceKind::BackendError { operation: Operation::ReadForSwap, detail: "Shutdown".to_owned() },
    };
    assert_eq!(render_divergence(&backend), "op #1 on key \"k\": get (for CAS) errored: Shutdown");
    let absent = Divergence { index: 2, key: "k".to_owned(), kind: DivergenceKind::UnexpectedAbsent { model: vec![] } };
    assert_eq!(render_divergence(&absent), "op #2 on key \"k\": backend is missing the key but the model holds []");
}

#[test]
fn apply_step_reports_a_create_mismatch_as_text() {
    let mut model = CacheModel::new();
    let op = CacheOp::PutIfAbsent { key: "k".to_owned(), value: b"v".to_vec() };
    let r = apply_step(&mut model, &op, 5, OpReply::PutIfAbsent(Ok(false)));
    assert_eq!(r, Err("op #5 on key \"k\": put_if_absent created=false but model expected true".to_owned()));
}

#[test]
fn model_reads_back_the_last_write_under_other_keys_traffic() {
    let mut model = CacheModel::new();
    model.put("k", b"v");
    model.put("j", b"w");
    assert!(model.create_if_absent("i", b"x"));
    assert!(model.remove("j"));
    assert_eq!(model.get("k"), Some(&b"v".to_vec()));
    assert!(model.contains("k"));
    assert_eq!(model.contains("j"), model.get("j").is_some());
}

#[test]
fn store_answers_each_replayed_operation() {
    let mut store = MemCache::linearizable();
    let put = CacheOp::Put { key: "k".to_owned(), value: b"a".to_vec() };
    assert!(matches!(perform_on_store(&mut store, &put, 0), OpReply::Put(Ok(()))));
    let create = CacheOp::PutIfAbsent { key: "k".to_owned(), value: b"b".to_vec() };
    assert!(matches!(perform_on_store(&mut store, &create, 0), OpReply::PutIfAbsent(Ok(false))));
    let stale = CacheOp::CompareAndSwap { key: "k".to_owned(), target: VersionTarget::Stale, value: b"c".to_vec() };
    assert!(matches!(perform_on_store(&mut store, &stale, 0), OpReply::CompareAndSwap(CasReply::Conflict)));
    let current = CacheOp::CompareAndSwap { key: "k".to_owned(), target: VersionTarget::Current, value: b"d".to_vec() };
    assert!(matches!(perform_on_store(&mut store, &current, 0), OpReply::CompareAndSwap(CasReply::Swapped)));
    let entry = store.get("k", 0).expect("present");
    assert_eq!((entry.value, entry.version), (b"d".to_vec(), 2));
    let delete = CacheOp::Delete { key: "k".to_owned() };
    assert!(matches!(perform_on_store(&mut store, &delete, 0), OpReply::Delete(Ok(true))));
    assert!(matches!(perform_on_store(&mut store, &delete, 0), OpReply::Delete(Ok(false))));
}

#[test]
fn replay_of_an_empty_sequence_succeeds() {
    assert_eq!(replay_against_memcache(&Vec::new(), 0), Ok(()));
}
