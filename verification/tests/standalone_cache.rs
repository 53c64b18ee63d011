use gears::cluster::cache::{CacheConsistency, Ttl};
use gears::cluster::error::ClusterError;
use gears::cluster::standalone_store::{Delivery, LagCounter, StandaloneStore};
use gears::cluster::store::WatchKind;

#[test]
fn put_get_and_versioning() {
    let mut cache = StandaloneStore::new();
    assert_eq!(cache.reader().consistency(), CacheConsistency::Linearizable);
    assert!(cache.reader().features().prefix_watch);
    let created = cache.put_if_absent("k", b"a", Ttl::Indefinite, 0).expect("open").0.expect("first claim must create");
    assert_eq!(created.version, 1);
    assert!(cache.put("k", b"b", Ttl::Indefinite, 0).is_ok());
    let entry = cache.reader().get("k", 0).expect("entry must be present");
    assert_eq!(entry.version, 2);
    assert_eq!(entry.value, b"b");
}

#[test]
fn sweep_expires_entries_and_names_them() {
    let mut cache = StandaloneStore::new();
    cache.put("k", b"a", Ttl::Of(10_000), 0).expect("open");
    assert!(cache.sweep_expired(5_000).is_empty());
    assert_eq!(cache.sweep_expired(11_000), vec![("k".to_owned(), vec![])]);
    assert!(cache.reader().get("k", 11_000).is_none());
}

#[test]
fn shutdown_closes_active_watches_and_rejects_later_ops() {
    let mut cache = StandaloneStore::new();
    let exact = cache.watch(WatchKind::Exact("k".to_owned())).expect("exact watch must establish");
    let prefix = cache.watch(WatchKind::Prefix("svc/".to_owned())).expect("prefix watch must establish");
    cache.put("k", b"v", Ttl::Indefinite, 0).expect("open");

    assert_eq!(cache.shutdown(), vec![exact, prefix]);
    assert!(cache.reader().matching_watchers("k").is_empty());

    assert!(matches!(cache.put("k", b"v", Ttl::Indefinite, 0), Err(ClusterError::Shutdown)));
    assert!(matches!(cache.delete("k", 0), Err(ClusterError::Shutdown)));
    assert!(matches!(cache.put_if_absent("k", b"v", Ttl::Indefinite, 0), Err(ClusterError::Shutdown)));
    assert!(matches!(cache.compare_and_swap("k", 1, b"v", Ttl::Indefinite, 0), Err(ClusterError::Shutdown)));
    assert!(matches!(cache.compare_and_delete("k", b"v", 0), Err(ClusterError::Shutdown)));
    assert!(matches!(cache.watch(WatchKind::Exact("k".to_owned())), Err(ClusterError::Shutdown)));
    assert!(matches!(cache.watch(WatchKind::Prefix("svc/".to_owned())), Err(ClusterError::Shutdown)));

    // Reads stay live.
    assert_eq!(cache.reader().get("k", 0).expect("still readable").value, b"v");
    assert!(cache.reader().contains("k", 0));
}

#[test]
fn compare_and_swap_increments_on_matching_version() {
    let mut cache = StandaloneStore::new();
    let created = cache.put_if_absent("k", b"a", Ttl::Indefinite, 0).expect("open").0.expect("first claim must create");
    assert_eq!(created.version, 1);
    let (swapped, _) = cache.compare_and_swap("k", created.version, b"b", Ttl::Indefinite, 0).expect("matching version");
    assert_eq!(swapped.version, 2);
    assert_eq!(swapped.value, b"b");
    let entry = cache.reader().get("k", 0).expect("entry must be present");
    assert_eq!(entry.version, 2);
    assert_eq!(entry.value, b"b");
}

#[test]
fn compare_and_swap_conflicts_on_version_mismatch() {
    let mut cache = StandaloneStore::new();
    let created = cache.put_if_absent("k", b"a", Ttl::Indefinite, 0).expect("open").0.expect("first claim must create");
    let stale_version = created.version + 1;
    let result = cache.compare_and_swap("k", stale_version, b"b", Ttl::Indefinite, 0);
    assert!(
        matches!(result, Err(ClusterError::CasConflict { current: Some(ref current), .. }) if current.version == created.version),
        "a version mismatch must report the current entry, not silently apply"
    );
    assert_eq!(cache.reader().get("k", 0).expect("entry must be present").value, b"a");
}

#[test]
fn compare_and_swap_conflicts_on_absent_key() {
    let mut cache = StandaloneStore::new();
    let result = cache.compare_and_swap("missing", 1, b"b", Ttl::Indefinite, 0);
    assert!(matches!(result, Err(ClusterError::CasConflict { current: None, .. })));
}

#[test]
fn compare_and_delete_removes_on_matching_value_and_emits_deleted() {
    let mut cache = StandaloneStore::new();
    cache.put("k", b"a", Ttl::Indefinite, 0).expect("open");
    let watcher = cache.watch(WatchKind::Exact("k".to_owned())).expect("watch must establish");
    assert_eq!(cache.compare_and_delete("k", b"a", 0).expect("open"), (true, vec![watcher]));
    assert!(cache.reader().get("k", 0).is_none());
}

#[test]
fn compare_and_delete_is_a_no_op_on_value_mismatch() {
    let mut cache = StandaloneStore::new();
    cache.put("k", b"a", Ttl::Indefinite, 0).expect("open");
    assert_eq!(cache.compare_and_delete("k", b"different", 0).expect("open"), (false, vec![]));
    assert_eq!(cache.reader().get("k", 0).expect("entry must still be present").value, b"a");
}

#[test]
fn compare_and_delete_is_a_no_op_on_absent_key() {
    let mut cache = StandaloneStore::new();
    assert_eq!(cache.compare_and_delete("missing", b"a", 0).expect("open"), (false, vec![]));
}

/// Hands one event to a watcher with room for `free` more messages, as the
/// plugin does: the pending notice first, then the event.
fn deliver(counter: &mut LagCounter, free: &mut usize, inbox: &mut Vec<Delivery>) {
    let mut try_send = |d: Delivery, free: &mut usize| {
        if *free > 0 {
            *free -= 1;
            inbox.push(d);
            true
        } else {
            false
        }
    };
    let go_on = match counter.first_delivery() {
        Delivery::Lagged(n) => {
            let ok = try_send(Delivery::Lagged(n), free);
            counter.notice_result(ok)
        }
        Delivery::Event => true,
    };
    if go_on {
        let ok = try_send(Delivery::Event, free);
        counter.event_result(ok);
    }
}

#[test]
fn slow_watcher_never_blocks_writers_and_is_told_it_lagged() {
    let capacity: usize = 8;
    let overflow: usize = 50;
    let mut counter = LagCounter::new();
    let mut free = capacity;
    let mut inbox: Vec<Delivery> = Vec::new();
    for _ in 0..(capacity + overflow) {
        deliver(&mut counter, &mut free, &mut inbox);
    }
    assert_eq!(inbox.len(), capacity);
    assert_eq!(counter.dropped, overflow as u64);
    // The consumer drains its buffer; the next event flushes the notice first.
    inbox.clear();
    free = capacity;
    deliver(&mut counter, &mut free, &mut inbox);
    assert_eq!(inbox, vec![Delivery::Lagged(overflow as u64), Delivery::Event]);
    assert_eq!(counter.dropped, 0);
}

#[test]
fn a_notice_that_does_not_fit_drops_its_event_too() {
    let mut counter = LagCounter { dropped: 3 };
    assert_eq!(counter.first_delivery(), Delivery::Lagged(3));
    assert!(!counter.notice_result(false));
    assert_eq!(counter.dropped, 4);
    let mut saturated = LagCounter { dropped: u64::MAX };
    saturated.event_result(false);
    assert_eq!(saturated.dropped, u64::MAX);
}

#[test]
fn writes_name_each_covering_watcher_once() {
    let mut cache = StandaloneStore::new();
    let exact = cache.watch(WatchKind::Exact("svc/a".to_owned())).expect("open");
    let other = cache.watch(WatchKind::Exact("svc/b".to_owned())).expect("open");
    let prefix = cache.watch(WatchKind::Prefix("svc/".to_owned())).expect("open");
    assert_eq!(cache.put("svc/a", b"1", Ttl::Indefinite, 0).expect("open"), vec![exact, prefix]);
    assert_eq!(cache.put("svc/b", b"1", Ttl::Indefinite, 0).expect("open"), vec![other, prefix]);
    assert_eq!(cache.put("elsewhere", b"1", Ttl::Indefinite, 0).expect("open"), Vec::<u64>::new());
    let (created, targets) = cache.put_if_absent("svc/a", b"2", Ttl::Indefinite, 0).expect("open");
    assert!(created.is_none());
    assert!(targets.is_empty());
    assert_eq!(cache.delete("svc/b", 0).expect("open"), (true, vec![other, prefix]));
    assert_eq!(cache.delete("svc/b", 0).expect("open"), (false, vec![]));
    cache.put("svc/t", b"x", Ttl::Of(5), 0).expect("open");
    assert_eq!(cache.sweep_expired(10), vec![("svc/t".to_owned(), vec![prefix])]);
}

#[test]
fn put_is_read_back_and_announced_to_each_covering_watcher_once() {
    let mut cache = StandaloneStore::new();
    let exact = cache.watch(WatchKind::Exact("cfg/x".to_owned())).expect("open");
    let prefix = cache.watch(WatchKind::Prefix("cfg/".to_owned())).expect("open");
    let _unrelated = cache.watch(WatchKind::Prefix("other/".to_owned())).expect("open");
    let targets = cache.put("cfg/x", b"v1", Ttl::Of(50), 10).expect("open");
    assert_eq!(targets, vec![exact, prefix]);
    let entry = cache.reader().get("cfg/x", 10).expect("just written");
    assert_eq!((entry.value.as_slice(), entry.version), (&b"v1"[..], 1));
    let targets = cache.put("cfg/x", b"v2", Ttl::Indefinite, 20).expect("open");
    assert_eq!(targets, vec![exact, prefix]);
    let entry = cache.reader().get("cfg/x", 20).expect("just written");
    assert_eq!((entry.value.as_slice(), entry.version), (&b"v2"[..], 2));
}
