use gears::authn::service::{
    AuthNMode, ClientCredentialsRequest, IdentityConfig, S2sCredentialMapping, Service, StaticAuthNPluginConfig,
    TokenMapping,
};

fn identity(subject: u128, tenant: u128, scopes: &[&str], subject_type: Option<&str>) -> IdentityConfig {
    IdentityConfig {
        subject_id: subject,
        subject_tenant_id: tenant,
        token_scopes: scopes.iter().map(|s| (*s).to_owned()).collect(),
        subject_type: subject_type.map(str::to_owned),
    }
}

fn config(mode: AuthNMode) -> StaticAuthNPluginConfig {
    StaticAuthNPluginConfig {
        mode,
        default_identity: identity(1, 100, &["*"], Some("user")),
        tokens: vec![
            TokenMapping { token: "alice-token".to_owned(), identity: identity(2, 200, &["read"], None) },
            TokenMapping { token: "bob-token".to_owned(), identity: identity(3, 300, &["read", "write"], Some("svc")) },
            TokenMapping { token: "alice-token".to_owned(), identity: identity(4, 400, &[], None) },
        ],
        s2s_credentials: vec![S2sCredentialMapping {
            client_id: "billing".to_owned(),
            client_secret: "s3cret".to_owned(),
            identity: identity(5, 500, &["s2s"], Some("service")),
            bearer_token: Some("billing-bearer".to_owned()),
        }],
    }
}

#[test]
fn accept_all_maps_any_non_empty_token_to_the_default_identity() {
    let svc = Service::from_config(&config(AuthNMode::AcceptAll));
    let r = svc.authenticate("whatever").expect("non-empty token must resolve");
    assert_eq!(r.subject_id, 1);
    assert_eq!(r.subject_tenant_id, 100);
    assert_eq!(r.token_scopes, vec!["*"]);
    assert_eq!(r.subject_type.as_deref(), Some("user"));
    assert_eq!(r.bearer_token.as_deref(), Some("whatever"));
}

#[test]
fn empty_token_never_resolves() {
    assert!(Service::from_config(&config(AuthNMode::AcceptAll)).authenticate("").is_none());
    assert!(Service::from_config(&config(AuthNMode::StaticTokens)).authenticate("").is_none());
}

#[test]
fn static_tokens_resolve_only_configured_tokens() {
    let svc = Service::from_config(&config(AuthNMode::StaticTokens));
    let bob = svc.authenticate("bob-token").expect("configured token");
    assert_eq!(bob.subject_id, 3);
    assert_eq!(bob.token_scopes, vec!["read", "write"]);
    assert_eq!(bob.subject_type.as_deref(), Some("svc"));
    assert!(svc.authenticate("mallory-token").is_none());
}

#[test]
fn later_token_mapping_wins() {
    let svc = Service::from_config(&config(AuthNMode::StaticTokens));
    let alice = svc.authenticate("alice-token").expect("configured token");
    assert_eq!(alice.subject_id, 4);
    assert!(alice.token_scopes.is_empty());
}

#[test]
fn client_credentials_resolve_with_matching_secret() {
    let svc = Service::from_config(&config(AuthNMode::StaticTokens));
    let ok = svc
        .exchange_client_credentials(&ClientCredentialsRequest {
            client_id: "billing".to_owned(),
            client_secret: "s3cret".to_owned(),
        })
        .expect("matching secret");
    assert_eq!(ok.subject_id, 5);
    assert_eq!(ok.subject_type.as_deref(), Some("service"));
    assert_eq!(ok.bearer_token.as_deref(), Some("billing-bearer"));
}

#[test]
fn client_credentials_reject_wrong_secret_or_unknown_client() {
    let svc = Service::from_config(&config(AuthNMode::StaticTokens));
    assert!(svc
        .exchange_client_credentials(&ClientCredentialsRequest {
            client_id: "billing".to_owned(),
            client_secret: "guess".to_owned(),
        })
        .is_none());
    assert!(svc
        .exchange_client_credentials(&ClientCredentialsRequest {
            client_id: "unknown".to_owned(),
            client_secret: "s3cret".to_owned(),
        })
        .is_none());
}
