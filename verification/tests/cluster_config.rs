use gears::cluster::error::ClusterError;
use gears::cluster::standalone::{
    StandaloneCacheProvider, StandaloneClusterConfig, StandaloneClusterPlugin, DEFAULT_SWEEP_INTERVAL_MS,
    PROVIDER_NAME,
};
use gears::cluster::wiring::{
    check_wiring_step, is_valid_profile_name, resolve_providers, stop_order, stop_plan, unknown_provider, wiring_steps,
    Primitive, ProfileBackends, ProfileProviders, RegisteredProviders, Registration, RegistrationStep, StopAction,
    WiringStep,
};

#[test]
fn zero_sweep_interval_is_rejected() {
    let result = StandaloneClusterPlugin::builder().sweep_interval(0).checked_config();
    assert!(matches!(result, Err(ClusterError::InvalidConfig { .. })));
}

#[test]
fn default_builder_config_is_accepted() {
    let config = StandaloneClusterPlugin::builder().checked_config().expect("default config is valid");
    assert_eq!(config, StandaloneClusterConfig { sweep_interval: DEFAULT_SWEEP_INTERVAL_MS });
    assert_eq!(StandaloneClusterConfig::default().sweep_interval, 1000);
    let custom = StandaloneClusterPlugin::builder()
        .config(StandaloneClusterConfig { sweep_interval: 25 })
        .checked_config()
        .unwrap();
    assert_eq!(custom.sweep_interval, 25);
}

#[test]
fn provider_options_choose_the_sweep_interval() {
    let provider = StandaloneCacheProvider;
    assert_eq!(provider.provider(), PROVIDER_NAME);
    assert_eq!(provider.builder_for(Some(5)).checked_config().unwrap().sweep_interval, 5);
    assert_eq!(provider.builder_for(None).checked_config().unwrap().sweep_interval, DEFAULT_SWEEP_INTERVAL_MS);
}

#[test]
fn profile_backends_default_unbound_primitives() {
    let backends: ProfileBackends<&str, &str, &str, &str> = ProfileBackends::new("cache");
    let (cache, leader, lock, sd) = backends.with_lock("lock").into_parts();
    assert_eq!(cache, "cache");
    assert_eq!(leader, None);
    assert_eq!(lock, Some("lock"));
    assert_eq!(sd, None);
    let (_, leader, _, sd) = ProfileBackends::<u8, u8, u8, u8>::new(1)
        .with_leader_election(2)
        .with_service_discovery(3)
        .into_parts();
    assert_eq!((leader, sd), (Some(2), Some(3)));
}

#[test]
fn profile_names_follow_the_cluster_name_rule() {
    assert!(is_valid_profile_name("default"));
    assert!(is_valid_profile_name("tenant_A-1"));
    assert!(!is_valid_profile_name(""));
    assert!(!is_valid_profile_name("bad name"));
    assert!(!is_valid_profile_name("dots.not.allowed"));
}

fn providers(cache: &str, leader: Option<&str>, lock: Option<&str>, sd: Option<&str>) -> ProfileProviders {
    ProfileProviders {
        cache: cache.to_owned(),
        leader_election: leader.map(str::to_owned),
        lock: lock.map(str::to_owned),
        service_discovery: sd.map(str::to_owned),
    }
}

#[test]
fn wiring_builds_each_cache_before_its_bound_primitives() {
    let profiles = vec![
        ("default".to_owned(), providers("standalone", None, None, None)),
        ("events".to_owned(), providers("redis", Some("k8s-lease"), None, Some("k8s-lease"))),
    ];
    let steps = wiring_steps(&profiles);
    assert_eq!(
        steps,
        vec![
            WiringStep { profile: 0, primitive: Primitive::Cache },
            WiringStep { profile: 1, primitive: Primitive::Cache },
            WiringStep { profile: 1, primitive: Primitive::LeaderElection },
            WiringStep { profile: 1, primitive: Primitive::ServiceDiscovery },
        ]
    );
    assert_eq!(profiles[1].1.provider_of(Primitive::Lock), None);
    assert_eq!(profiles[1].1.provider_of(Primitive::LeaderElection).map(String::as_str), Some("k8s-lease"));
}

#[test]
fn unknown_provider_names_profile_primitive_and_provider() {
    match unknown_provider("default", Primitive::LeaderElection, "zookeeper") {
        ClusterError::InvalidConfig { reason } => {
            assert_eq!(reason, "profile `default`: unknown leader_election provider `zookeeper`");
        }
        other => panic!("expected InvalidConfig, got {other:?}"),
    }
    match unknown_provider("p", Primitive::Cache, "memcached") {
        ClusterError::InvalidConfig { reason } => assert_eq!(reason, "profile `p`: unknown cache provider `memcached`"),
        other => panic!("expected InvalidConfig, got {other:?}"),
    }
}

#[test]
fn failed_registration_rolls_back_every_registered_profile() {
    let mut reg = Registration::new();
    assert!(matches!(reg.on_attempt("a".to_owned(), true), RegistrationStep::Continue));
    assert!(matches!(reg.on_attempt("b".to_owned(), true), RegistrationStep::Continue));
    match reg.on_attempt("bad name!".to_owned(), false) {
        RegistrationStep::RollBack(targets) => assert_eq!(targets, vec!["bad name!", "a", "b"]),
        other => panic!("expected RollBack, got {other:?}"),
    }
    assert!(reg.into_names().is_empty());
}

#[test]
fn successful_registration_keeps_names_in_order() {
    let mut reg = Registration::new();
    reg.on_attempt("a".to_owned(), true);
    reg.on_attempt("b".to_owned(), true);
    assert_eq!(reg.into_names(), vec!["a", "b"]);
}

#[test]
fn shutdown_hooks_run_last_started_first() {
    assert_eq!(stop_order(3), vec![2, 1, 0]);
    assert!(stop_order(0).is_empty());
}

fn registry(cache: &[&str], leader: &[&str]) -> RegisteredProviders {
    RegisteredProviders {
        cache: cache.iter().map(|s| (*s).to_owned()).collect(),
        leader_election: leader.iter().map(|s| (*s).to_owned()).collect(),
        lock: Vec::new(),
        service_discovery: Vec::new(),
    }
}

#[test]
fn resolve_providers_accepts_registered_bindings_in_wiring_order() {
    let profiles = vec![
        ("a".to_owned(), providers("standalone", Some("k8s-lease"), None, None)),
        ("b".to_owned(), providers("standalone", None, None, None)),
    ];
    let steps = resolve_providers(&profiles, &registry(&["standalone"], &["k8s-lease"])).expect("all registered");
    assert_eq!(
        steps,
        vec![
            WiringStep { profile: 0, primitive: Primitive::Cache },
            WiringStep { profile: 0, primitive: Primitive::LeaderElection },
            WiringStep { profile: 1, primitive: Primitive::Cache },
        ]
    );
}

#[test]
fn resolve_providers_reports_the_first_unregistered_binding() {
    let profiles = vec![
        ("a".to_owned(), providers("standalone", Some("zookeeper"), None, None)),
        ("b".to_owned(), providers("redis", None, None, None)),
    ];
    match resolve_providers(&profiles, &registry(&["standalone"], &[])) {
        Err(ClusterError::InvalidConfig { reason }) => {
            assert_eq!(reason, "profile `a`: unknown leader_election provider `zookeeper`");
        }
        other => panic!("expected InvalidConfig, got {other:?}"),
    }
    let only_b = vec![("b".to_owned(), providers("redis", None, None, None))];
    match resolve_providers(&only_b, &registry(&["standalone"], &[])) {
        Err(ClusterError::InvalidConfig { reason }) => {
            assert_eq!(reason, "profile `b`: unknown cache provider `redis`");
        }
        other => panic!("expected InvalidConfig, got {other:?}"),
    }
}

#[test]
fn stop_revokes_then_deregisters_then_runs_hooks_last_started_first() {
    let registered = vec!["a".to_owned(), "b".to_owned()];
    let plan = stop_plan(1, &registered, 2);
    assert_eq!(
        plan,
        vec![
            StopAction::Revoke(0),
            StopAction::Deregister("a".to_owned()),
            StopAction::Deregister("b".to_owned()),
            StopAction::RunHook(1),
            StopAction::RunHook(0),
        ]
    );
}

#[test]
fn stop_of_an_empty_wiring_does_nothing() {
    assert!(stop_plan(0, &Vec::new(), 0).is_empty());
}

#[test]
fn stop_runs_every_hook_exactly_once() {
    let registered = vec!["p".to_owned()];
    let plan = stop_plan(0, &registered, 3);
    for hook in 0..3 {
        assert_eq!(plan.iter().filter(|a| **a == StopAction::RunHook(hook)).count(), 1);
    }
    let last_deregister = plan.iter().rposition(|a| matches!(a, StopAction::Deregister(_))).unwrap();
    let first_hook = plan.iter().position(|a| matches!(a, StopAction::RunHook(_))).unwrap();
    assert!(last_deregister < first_hook);
}

fn two_profiles() -> Vec<(String, ProfileProviders)> {
    vec![
        (
            "alpha".to_owned(),
            ProfileProviders {
                cache: "standalone".to_owned(),
                leader_election: Some("etcd".to_owned()),
                lock: None,
                service_discovery: None,
            },
        ),
        (
            "beta".to_owned(),
            ProfileProviders {
                cache: "redis".to_owned(),
                leader_election: None,
                lock: None,
                service_discovery: None,
            },
        ),
    ]
}

fn only_standalone_cache() -> RegisteredProviders {
    RegisteredProviders {
        cache: vec!["standalone".to_owned()],
        leader_election: Vec::new(),
        lock: Vec::new(),
        service_discovery: Vec::new(),
    }
}

#[test]
fn wiring_step_check_accepts_a_registered_provider() {
    let profiles = two_profiles();
    let step = WiringStep { profile: 0, primitive: Primitive::Cache };
    assert!(check_wiring_step(&profiles, &only_standalone_cache(), step).is_ok());
}

#[test]
fn wiring_step_check_names_the_unknown_provider_of_that_step() {
    let profiles = two_profiles();
    let step = WiringStep { profile: 0, primitive: Primitive::LeaderElection };
    match check_wiring_step(&profiles, &only_standalone_cache(), step) {
        Err(ClusterError::InvalidConfig { reason }) => {
            assert_eq!(reason, "profile `alpha`: unknown leader_election provider `etcd`");
        }
        other => panic!("expected an invalid-config error, got {other:?}"),
    }
    let step = WiringStep { profile: 1, primitive: Primitive::Cache };
    match check_wiring_step(&profiles, &only_standalone_cache(), step) {
        Err(ClusterError::InvalidConfig { reason }) => {
            assert_eq!(reason, "profile `beta`: unknown cache provider `redis`");
        }
        other => panic!("expected an invalid-config error, got {other:?}"),
    }
}
