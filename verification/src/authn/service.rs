//! The static authentication service: in `accept_all` mode every non-empty
//! bearer token resolves to the default identity; in `static_tokens` mode only
//! the configured tokens resolve, each to its own identity. Client credentials
//! resolve to the identity configured for the client when the secret matches.
use vstd::prelude::*;
use vstd::hash_map::StringHashMap;

use crate::text::{owned, same_text};

verus! {

/// How bearer tokens are resolved.
#[derive(Debug, Clone, Copy, PartialEq, Eq)]
pub enum AuthNMode {
    /// Any non-empty token resolves to the default identity.
    AcceptAll,
    /// Only the configured tokens resolve, each to its own identity.
    StaticTokens,
}

/// An identity a token or a client resolves to.
#[derive(Debug)]
pub struct IdentityConfig {
    pub subject_id: u128,
    pub subject_tenant_id: u128,
    pub token_scopes: Vec<String>,
    pub subject_type: Option<String>,
}

/// A configured bearer token and its identity.
#[derive(Debug)]
pub struct TokenMapping {
    pub token: String,
    pub identity: IdentityConfig,
}

/// A configured service-to-service client: its secret, its identity, and the
/// bearer token its security context carries, if any.
#[derive(Debug)]
pub struct S2sCredentialMapping {
    pub client_id: String,
    pub client_secret: String,
    pub identity: IdentityConfig,
    pub bearer_token: Option<String>,
}

/// The plugin configuration.
#[derive(Debug)]
pub struct StaticAuthNPluginConfig {
    pub mode: AuthNMode,
    pub default_identity: IdentityConfig,
    pub tokens: Vec<TokenMapping>,
    pub s2s_credentials: Vec<S2sCredentialMapping>,
}

/// A client-credentials exchange request.
#[derive(Debug)]
pub struct ClientCredentialsRequest {
    pub client_id: String,
    pub client_secret: String,
}

/// A successful authentication: the security context's subject, tenant,
/// scopes, subject type and bearer token.
#[derive(Debug)]
pub struct AuthenticationResult {
    pub subject_id: u128,
    pub subject_tenant_id: u128,
    pub token_scopes: Vec<String>,
    pub subject_type: Option<String>,
    pub bearer_token: Option<String>,
}

/// An identity as plain values.
pub struct IdentityView {
    pub subject_id: u128,
    pub subject_tenant_id: u128,
    pub token_scopes: Seq<Seq<char>>,
    pub subject_type: Option<Seq<char>>,
}

/// The text of an optional string.
pub open spec fn opt_text(o: Option<String>) -> Option<Seq<char>> {
    match o {
        Some(s) => Some(s@),
        None => None,
    }
}

/// The texts of a list of strings.
pub open spec fn list_texts(v: Seq<String>) -> Seq<Seq<char>> {
    v.map_values(|s: String| s@)
}

/// The plain values of an identity.
pub open spec fn identity_view(i: IdentityConfig) -> IdentityView {
    IdentityView {
        subject_id: i.subject_id,
        subject_tenant_id: i.subject_tenant_id,
        token_scopes: list_texts(i.token_scopes@),
        subject_type: opt_text(i.subject_type),
    }
}

/// A configured client as plain values.
pub struct CredentialView {
    pub client_secret: Seq<char>,
    pub identity: IdentityView,
    pub bearer_token: Option<Seq<char>>,
}

/// The token table the configured mappings describe: each token to its
/// identity, a later mapping of the same token replacing an earlier one.
pub open spec fn token_table(ts: Seq<TokenMapping>) -> Map<Seq<char>, IdentityView>
    decreases ts.len(),
{
    if ts.len() == 0 {
        Map::empty()
    } else {
        token_table(ts.drop_last()).insert(ts.last().token@, identity_view(ts.last().identity))
    }
}

/// The plain values of a configured client.
pub open spec fn credential_of(m: S2sCredentialMapping) -> CredentialView {
    CredentialView {
        client_secret: m.client_secret@,
        identity: identity_view(m.identity),
        bearer_token: opt_text(m.bearer_token),
    }
}

/// The client table the configured credentials describe: each client id to
/// its credential, a later entry for the same client replacing an earlier one.
pub open spec fn credential_table(cs: Seq<S2sCredentialMapping>) -> Map<Seq<char>, CredentialView>
    decreases cs.len(),
{
    if cs.len() == 0 {
        Map::empty()
    } else {
        credential_table(cs.drop_last()).insert(cs.last().client_id@, credential_of(cs.last()))
    }
}

/// Whether `r` is the result for `identity` carrying `bearer_token`.
pub open spec fn result_for(r: AuthenticationResult, identity: IdentityView, bearer_token: Option<Seq<char>>) -> bool {
    &&& r.subject_id == identity.subject_id
    &&& r.subject_tenant_id == identity.subject_tenant_id
    &&& list_texts(r.token_scopes@) == identity.token_scopes
    &&& opt_text(r.subject_type) == identity.subject_type
    &&& opt_text(r.bearer_token) == bearer_token
}

/// A copy of an optional string.
fn copy_opt(o: &Option<String>) -> (r: Option<String>)
    ensures
        opt_text(r) == opt_text(*o),
{
    match o {
        Some(s) => Some(owned(s.as_str())),
        None => None,
    }
}

/// A copy of a list of strings.
fn copy_texts(v: &Vec<String>) -> (r: Vec<String>)
    ensures
        list_texts(r@) == list_texts(v@),
{
    let mut r: Vec<String> = Vec::new();
    let mut i: usize = 0;
    while i < v.len()
        invariant
            i <= v@.len(),
            r@.len() == i,
            forall|j: int| 0 <= j < i ==> #[trigger] r@[j]@ == v@[j]@,
        decreases v@.len() - i,
    {
        r.push(owned(v[i].as_str()));
        i = i + 1;
    }
    assert(list_texts(r@) =~= list_texts(v@));
    r
}

impl IdentityConfig {
    /// A copy of this identity.
    pub fn copy(&self) -> (c: Self)
        ensures
            identity_view(c) == identity_view(*self),
    {
        IdentityConfig {
            subject_id: self.subject_id,
            subject_tenant_id: self.subject_tenant_id,
            token_scopes: copy_texts(&self.token_scopes),
            subject_type: copy_opt(&self.subject_type),
        }
    }
}

/// A configured client, as the service keeps it.
struct S2sEntry {
    client_secret: String,
    identity: IdentityConfig,
    bearer_token: Option<String>,
}

/// The plain values of a kept client.
spec fn entry_view(e: S2sEntry) -> CredentialView {
    CredentialView {
        client_secret: e.client_secret@,
        identity: identity_view(e.identity),
        bearer_token: opt_text(e.bearer_token),
    }
}

/// The static authentication resolver.
pub struct Service {
    mode: AuthNMode,
    default_identity: IdentityConfig,
    token_map: StringHashMap<IdentityConfig>,
    s2s_credentials: StringHashMap<S2sEntry>,
}

/// The security context for `identity`, carrying `bearer_token`.
fn build_result(identity: &IdentityConfig, bearer_token: Option<String>) -> (r: AuthenticationResult)
    ensures
        result_for(r, identity_view(*identity), opt_text(bearer_token)),
{
    AuthenticationResult {
        subject_id: identity.subject_id,
        subject_tenant_id: identity.subject_tenant_id,
        token_scopes: copy_texts(&identity.token_scopes),
        subject_type: copy_opt(&identity.subject_type),
        bearer_token,
    }
}

impl Service {
    /// The token resolution mode.
    pub closed spec fn mode_of(&self) -> AuthNMode {
        self.mode
    }

    /// The identity `accept_all` resolves every token to.
    pub closed spec fn default_view(&self) -> IdentityView {
        identity_view(self.default_identity)
    }

    /// The configured tokens and their identities.
    pub closed spec fn tokens(&self) -> Map<Seq<char>, IdentityView> {
        self.token_map@.map_values(|i: IdentityConfig| identity_view(i))
    }

    /// The configured clients and their credentials.
    pub closed spec fn credentials(&self) -> Map<Seq<char>, CredentialView> {
        self.s2s_credentials@.map_values(|e: S2sEntry| entry_view(e))
    }

    /// Builds the service from its configuration: the mode and default
    /// identity as configured, the token and client tables as the mappings
    /// describe them (a later mapping of the same key wins).
    pub fn from_config(cfg: &StaticAuthNPluginConfig) -> (s: Self)
        ensures
            s.mode_of() == cfg.mode,
            s.default_view() == identity_view(cfg.default_identity),
            s.tokens() == token_table(cfg.tokens@),
            s.credentials() == credential_table(cfg.s2s_credentials@),
    {
        let mut token_map: StringHashMap<IdentityConfig> = StringHashMap::new();
        let mut i: usize = 0;
        while i < cfg.tokens.len()
            invariant
                i <= cfg.tokens@.len(),
                token_map@.map_values(|v: IdentityConfig| identity_view(v)) == token_table(cfg.tokens@.take(i as int)),
            decreases cfg.tokens@.len() - i,
        {
            let m = &cfg.tokens[i];
            let ghost before = token_map@;
            token_map.insert(owned(m.token.as_str()), m.identity.copy());
            proof {
                let ts = cfg.tokens@.take(i + 1);
                assert(ts.drop_last() =~= cfg.tokens@.take(i as int));
                assert(ts.last() == *m);
                assert(token_map@.map_values(|v: IdentityConfig| identity_view(v)) =~= before.map_values(
                    |v: IdentityConfig| identity_view(v),
                ).insert(m.token@, identity_view(m.identity)));
            }
            i = i + 1;
        }
        assert(cfg.tokens@.take(cfg.tokens@.len() as int) =~= cfg.tokens@);
        let mut s2s: StringHashMap<S2sEntry> = StringHashMap::new();
        let mut j: usize = 0;
        while j < cfg.s2s_credentials.len()
            invariant
                j <= cfg.s2s_credentials@.len(),
                s2s@.map_values(|e: S2sEntry| entry_view(e)) == credential_table(cfg.s2s_credentials@.take(j as int)),
            decreases cfg.s2s_credentials@.len() - j,
        {
            let m = &cfg.s2s_credentials[j];
            let ghost before = s2s@;
            let entry = S2sEntry {
                client_secret: owned(m.client_secret.as_str()),
                identity: m.identity.copy(),
                bearer_token: copy_opt(&m.bearer_token),
            };
            s2s.insert(owned(m.client_id.as_str()), entry);
            proof {
                let cs = cfg.s2s_credentials@.take(j + 1);
                assert(cs.drop_last() =~= cfg.s2s_credentials@.take(j as int));
                assert(cs.last() == *m);
                assert(s2s@.map_values(|e: S2sEntry| entry_view(e)) =~= before.map_values(|e: S2sEntry| entry_view(e)).insert(
                    m.client_id@,
                    credential_of(*m),
                ));
            }
            j = j + 1;
        }
        assert(cfg.s2s_credentials@.take(cfg.s2s_credentials@.len() as int) =~= cfg.s2s_credentials@);
        Service { mode: cfg.mode, default_identity: cfg.default_identity.copy(), token_map, s2s_credentials: s2s }
    }

    /// Resolves a bearer token: an empty token never resolves; in
    /// `accept_all` mode any other token resolves to the default identity, in
    /// `static_tokens` mode only a configured token resolves, to its identity.
    /// The result carries the token itself.
    pub fn authenticate(&self, bearer_token: &str) -> (r: Option<AuthenticationResult>)
        ensures
            r is Some <==> bearer_token@.len() > 0 && (self.mode_of() == AuthNMode::AcceptAll
                || self.tokens().contains_key(bearer_token@)),
            r matches Some(res) ==> result_for(
                res,
                if self.mode_of() == AuthNMode::AcceptAll {
                    self.default_view()
                } else {
                    self.tokens()[bearer_token@]
                },
                Some(bearer_token@),
            ),
    {
        if bearer_token.is_empty() {
            return None;
        }
        let identity = match self.mode {
            AuthNMode::AcceptAll => &self.default_identity,
            AuthNMode::StaticTokens => match self.token_map.get(bearer_token) {
                Some(i) => i,
                None => {
                    assert(!self.tokens().contains_key(bearer_token@));
                    return None;
                },
            },
        };
        Some(build_result(identity, Some(owned(bearer_token))))
    }

    /// Exchanges client credentials: resolves when the client is configured
    /// and the secret matches, to the client's identity carrying the client's
    /// configured bearer token.
    pub fn exchange_client_credentials(&self, request: &ClientCredentialsRequest) -> (r: Option<AuthenticationResult>)
        ensures
            r is Some <==> self.credentials().contains_key(request.client_id@)
                && self.credentials()[request.client_id@].client_secret == request.client_secret@,
            r matches Some(res) ==> result_for(
                res,
                self.credentials()[request.client_id@].identity,
                self.credentials()[request.client_id@].bearer_token,
            ),
    {
        let entry = match self.s2s_credentials.get(request.client_id.as_str()) {
            Some(e) => e,
            None => {
                assert(!self.credentials().contains_key(request.client_id@));
                return None;
            },
        };
        if !same_text(entry.client_secret.as_str(), request.client_secret.as_str()) {
            return None;
        }
        Some(build_result(&entry.identity, copy_opt(&entry.bearer_token)))
    }
}

/// A token is in the table exactly when some mapping configures it, and it
/// resolves to the identity of the last mapping that does.
pub proof fn law_last_token_mapping_wins(ts: Seq<TokenMapping>, t: Seq<char>)
    ensures
        token_table(ts).contains_key(t) <==> exists|i: int| 0 <= i < ts.len() && #[trigger] ts[i].token@ == t,
        forall|i: int|
            0 <= i < ts.len() && #[trigger] ts[i].token@ == t && (forall|j: int| i < j < ts.len() ==> ts[j].token@ != t)
                ==> token_table(ts)[t] == identity_view(ts[i].identity),
    decreases ts.len(),
{
    if ts.len() > 0 {
        let init = ts.drop_last();
        law_last_token_mapping_wins(init, t);
        assert forall|i: int| 0 <= i < init.len() implies #[trigger] init[i] == ts[i] by {}
        if ts.last().token@ != t {
            assert((exists|i: int| 0 <= i < ts.len() && #[trigger] ts[i].token@ == t) ==> (exists|i: int|
                0 <= i < init.len() && #[trigger] init[i].token@ == t)) by {
                if exists|i: int| 0 <= i < ts.len() && #[trigger] ts[i].token@ == t {
                    let i = choose|i: int| 0 <= i < ts.len() && #[trigger] ts[i].token@ == t;
                    assert(init[i].token@ == t);
                }
            }
        } else {
            assert(ts[ts.len() - 1].token@ == t);
        }
        assert forall|i: int|
            0 <= i < ts.len() && #[trigger] ts[i].token@ == t && (forall|j: int| i < j < ts.len() ==> ts[j].token@ != t)
                implies token_table(ts)[t] == identity_view(ts[i].identity) by {
            if i < ts.len() - 1 {
                assert(ts[ts.len() - 1].token@ != t);
                assert(init[i].token@ == t);
                assert forall|j: int| i < j < init.len() implies init[j].token@ != t by {
                    assert(init[j] == ts[j]);
                }
            }
        }
    }
}

/// A client is in the table exactly when some entry configures it, and it
/// resolves to the credential of the last entry that does.
pub proof fn law_last_credential_wins(cs: Seq<S2sCredentialMapping>, c: Seq<char>)
    ensures
        credential_table(cs).contains_key(c) <==> exists|i: int| 0 <= i < cs.len() && #[trigger] cs[i].client_id@ == c,
        forall|i: int|
            0 <= i < cs.len() && #[trigger] cs[i].client_id@ == c && (forall|j: int| i < j < cs.len() ==> cs[j].client_id@ != c)
                ==> credential_table(cs)[c] == credential_of(cs[i]),
    decreases cs.len(),
{
    if cs.len() > 0 {
        let init = cs.drop_last();
        law_last_credential_wins(init, c);
        assert forall|i: int| 0 <= i < init.len() implies #[trigger] init[i] == cs[i] by {}
        if cs.last().client_id@ != c {
            assert((exists|i: int| 0 <= i < cs.len() && #[trigger] cs[i].client_id@ == c) ==> (exists|i: int|
                0 <= i < init.len() && #[trigger] init[i].client_id@ == c)) by {
                if exists|i: int| 0 <= i < cs.len() && #[trigger] cs[i].client_id@ == c {
                    let i = choose|i: int| 0 <= i < cs.len() && #[trigger] cs[i].client_id@ == c;
                    assert(init[i].client_id@ == c);
                }
            }
        } else {
            assert(cs[cs.len() - 1].client_id@ == c);
        }
        assert forall|i: int|
            0 <= i < cs.len() && #[trigger] cs[i].client_id@ == c && (forall|j: int| i < j < cs.len() ==> cs[j].client_id@ != c)
                implies credential_table(cs)[c] == credential_of(cs[i]) by {
            if i < cs.len() - 1 {
                assert(cs[cs.len() - 1].client_id@ != c);
                assert(init[i].client_id@ == c);
                assert forall|j: int| i < j < init.len() implies init[j].client_id@ != c by {
                    assert(init[j] == cs[j]);
                }
            }
        }
    }
}

} // verus!
