use gears::gateway::cors::{cors_layer_plan, parse_list, validate_cors_config, ApiGatewayConfig, CorsConfig, CorsList};
use gears::gateway::layer::{layer_settings, ListSetting};

fn cfg_with(cors: CorsConfig) -> ApiGatewayConfig {
    ApiGatewayConfig { cors_enabled: true, cors: Some(cors) }
}

#[test]
fn wildcard_exposed_headers_with_credentials_rejected_at_validation() {
    let cfg = cfg_with(CorsConfig {
        allowed_origins: vec!["https://ui.example.com".to_owned()],
        allowed_methods: vec!["GET".to_owned()],
        allowed_headers: vec!["Content-Type".to_owned()],
        exposed_headers: vec!["*".to_owned()],
        allow_credentials: true,
        ..Default::default()
    });
    let err = validate_cors_config(&cfg).expect_err("wildcard+credentials must be rejected");
    assert!(err.contains("exposed_headers"), "got: {err}");
}

#[test]
fn wildcard_origins_with_credentials_rejected_at_validation() {
    let cfg = cfg_with(CorsConfig { allow_credentials: true, ..Default::default() });
    assert!(validate_cors_config(&cfg).is_err());
}

#[test]
fn explicit_lists_with_credentials_pass_validation() {
    let cfg = cfg_with(CorsConfig {
        allowed_origins: vec!["https://ui.example.com".to_owned()],
        allowed_methods: vec!["GET".to_owned(), "POST".to_owned()],
        allowed_headers: vec!["Content-Type".to_owned()],
        exposed_headers: vec!["ETag".to_owned()],
        allow_credentials: true,
        ..Default::default()
    });
    assert!(validate_cors_config(&cfg).is_ok());
}

#[test]
fn cors_disabled_skips_validation() {
    let mut cfg =
        cfg_with(CorsConfig { exposed_headers: vec!["*".to_owned()], allow_credentials: true, ..Default::default() });
    cfg.cors_enabled = false;
    assert!(validate_cors_config(&cfg).is_ok());
}

#[test]
fn first_offending_list_is_named_in_full() {
    let cfg = cfg_with(CorsConfig { allow_credentials: true, ..Default::default() });
    let err = validate_cors_config(&cfg).unwrap_err();
    assert_eq!(
        err,
        "invalid CORS configuration: `cors.allowed_origins` contains the wildcard \"*\" while \
         `cors.allow_credentials` is true; browsers forbid this combination and tower-http would panic \
         at startup — list the values explicitly or disable credentials"
    );
}

#[test]
fn default_settings_without_block_pass() {
    let cfg = ApiGatewayConfig { cors_enabled: true, cors: None };
    assert!(validate_cors_config(&cfg).is_ok());
}

#[test]
fn default_plan_allows_any_origin_and_exposes_etag() {
    let plan = cors_layer_plan(&ApiGatewayConfig { cors_enabled: true, cors: None });
    assert!(matches!(plan.origins, CorsList::Any));
    assert!(matches!(plan.headers, CorsList::Any));
    match plan.exposed {
        CorsList::Entries(v) => assert_eq!(v, vec!["ETag".to_owned()]),
        CorsList::Any => panic!("ETag must be listed"),
    }
    match plan.methods {
        CorsList::Entries(v) => assert_eq!(v.len(), 6),
        CorsList::Any => panic!("methods are listed by default"),
    }
    assert!(!plan.allow_credentials);
    assert_eq!(plan.max_age_seconds, Some(600));
}

#[test]
fn zero_max_age_sets_no_preflight_cache() {
    let plan = cors_layer_plan(&cfg_with(CorsConfig { max_age_seconds: 0, ..Default::default() }));
    assert_eq!(plan.max_age_seconds, None);
}

#[test]
fn parse_list_keeps_parsable_entries_in_order() {
    let items = vec!["1".to_owned(), "x".to_owned(), "3".to_owned()];
    let parsed: Vec<u32> = parse_list(&items, |s: &String| s.parse::<u32>().ok());
    assert_eq!(parsed, vec![1, 3]);
}

#[test]
fn accepted_credentials_config_plans_only_explicit_lists() {
    let cfg = cfg_with(CorsConfig {
        allowed_origins: vec!["https://ui.example.com".to_owned()],
        allowed_methods: vec!["GET".to_owned()],
        allowed_headers: vec!["Content-Type".to_owned()],
        exposed_headers: vec!["ETag".to_owned()],
        allow_credentials: true,
        max_age_seconds: 60,
    });
    assert!(validate_cors_config(&cfg).is_ok());
    let plan = cors_layer_plan(&cfg);
    assert!(plan.allow_credentials);
    for list in [&plan.origins, &plan.methods, &plan.headers, &plan.exposed] {
        assert!(matches!(list, CorsList::Entries(_)), "credentials must never pair with Any");
    }
    assert_eq!(plan.max_age_seconds, Some(60));
}

#[test]
fn layer_settings_parse_entries_and_leave_unparseable_lists_unset() {
    let cfg = cfg_with(CorsConfig {
        allowed_origins: vec!["https://ui.example.com".to_owned(), "bad\norigin".to_owned()],
        allowed_methods: vec!["GET".to_owned(), "NOT A METHOD".to_owned(), "PURGE".to_owned()],
        allowed_headers: vec!["bad header".to_owned()],
        exposed_headers: vec!["*".to_owned()],
        allow_credentials: false,
        max_age_seconds: 0,
    });
    let settings = layer_settings(&cors_layer_plan(&cfg));
    match &settings.origins.setting {
        ListSetting::Only(origins) => assert_eq!(origins.len(), 1),
        other => panic!("expected one origin, got {other:?}"),
    }
    assert_eq!(settings.origins.skipped, vec!["bad\norigin"]);
    match &settings.methods.setting {
        ListSetting::Only(methods) => {
            assert_eq!(methods.len(), 2);
            assert_eq!(methods[0].as_str(), "GET");
            assert_eq!(methods[1].as_str(), "PURGE");
        }
        other => panic!("expected two methods, got {other:?}"),
    }
    assert_eq!(settings.methods.skipped, vec!["NOT A METHOD"]);
    assert!(matches!(settings.headers.setting, ListSetting::Unset));
    assert_eq!(settings.headers.skipped, vec!["bad header"]);
    assert!(matches!(settings.exposed.setting, ListSetting::Any));
    assert_eq!(settings.max_age_seconds, None);
}
