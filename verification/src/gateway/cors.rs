//! Cross-origin resource sharing (CORS) configuration rules of the API
//! gateway: the load-time validation of the configuration, and the layer
//! plan the gateway builds its CORS layer from.
use vstd::prelude::*;

use crate::text::{joined, owned, same_text};

verus! {

/// The gateway's CORS settings.
#[derive(Debug, Clone)]
pub struct CorsConfig {
    pub allowed_origins: Vec<String>,
    pub allowed_methods: Vec<String>,
    pub allowed_headers: Vec<String>,
    pub exposed_headers: Vec<String>,
    pub allow_credentials: bool,
    pub max_age_seconds: u64,
}

/// The gateway settings the CORS rules read.
#[derive(Debug, Clone)]
pub struct ApiGatewayConfig {
    pub cors_enabled: bool,
    pub cors: Option<CorsConfig>,
}

/// The texts of a list of owned strings.
pub open spec fn texts(v: Seq<String>) -> Seq<Seq<char>> {
    v.map_values(|s: String| s@)
}

/// The default list of allowed methods.
pub open spec fn default_methods() -> Seq<Seq<char>> {
    seq!["GET"@, "POST"@, "PUT"@, "PATCH"@, "DELETE"@, "OPTIONS"@]
}

/// Whether `c` holds the default CORS settings: any origin, the common
/// methods, any request header, the `ETag` response header exposed, no
/// credentials, and a ten-minute preflight cache.
pub open spec fn is_default_cors(c: CorsConfig) -> bool {
    &&& texts(c.allowed_origins@) == seq!["*"@]
    &&& texts(c.allowed_methods@) == default_methods()
    &&& texts(c.allowed_headers@) == seq!["*"@]
    &&& texts(c.exposed_headers@) == seq!["ETag"@]
    &&& !c.allow_credentials
    &&& c.max_age_seconds == 600
}

impl Default for CorsConfig {
    fn default() -> (c: Self)
        ensures
            is_default_cors(c),
    {
        let mut methods: Vec<String> = Vec::new();
        methods.push(owned("GET"));
        methods.push(owned("POST"));
        methods.push(owned("PUT"));
        methods.push(owned("PATCH"));
        methods.push(owned("DELETE"));
        methods.push(owned("OPTIONS"));
        let mut origins: Vec<String> = Vec::new();
        origins.push(owned("*"));
        let mut headers: Vec<String> = Vec::new();
        headers.push(owned("*"));
        let mut exposed: Vec<String> = Vec::new();
        exposed.push(owned("ETag"));
        let c = CorsConfig {
            allowed_origins: origins,
            allowed_methods: methods,
            allowed_headers: headers,
            exposed_headers: exposed,
            allow_credentials: false,
            max_age_seconds: 600,
        };
        assert(texts(c.allowed_origins@) =~= seq!["*"@]);
        assert(texts(c.allowed_methods@) =~= default_methods());
        assert(texts(c.allowed_headers@) =~= seq!["*"@]);
        assert(texts(c.exposed_headers@) =~= seq!["ETag"@]);
        c
    }
}

/// The four lists the wildcard rule applies to, in the order they are
/// checked: origins, methods, request headers, exposed headers.
pub open spec fn rule_lists(c: CorsConfig) -> Seq<Seq<Seq<char>>> {
    seq![
        texts(c.allowed_origins@),
        texts(c.allowed_methods@),
        texts(c.allowed_headers@),
        texts(c.exposed_headers@),
    ]
}

/// The configuration names of the four lists, in the same order.
pub open spec fn rule_list_names() -> Seq<Seq<char>> {
    seq!["cors.allowed_origins"@, "cors.allowed_methods"@, "cors.allowed_headers"@, "cors.exposed_headers"@]
}

/// Whether a list holds the wildcard entry `*`.
pub open spec fn has_wildcard(list: Seq<Seq<char>>) -> bool {
    list.contains("*"@)
}

/// The message rejecting a wildcard in the list named `name` while
/// credentials are allowed.
pub open spec fn wildcard_message(name: Seq<char>) -> Seq<char> {
    "invalid CORS configuration: `"@ + name + WILDCARD_MESSAGE_TAIL@
}

/// The fixed tail of the wildcard rejection message.
pub const WILDCARD_MESSAGE_TAIL: &'static str = "` contains the wildcard \"*\" while `cors.allow_credentials` is true; browsers forbid this combination and tower-http would panic at startup — list the values explicitly or disable credentials";

/// The verdict of the CORS validation over the settings' four lists and
/// credentials flag: with CORS disabled or credentials not allowed everything
/// passes; otherwise the first list holding a wildcard is rejected (browsers
/// forbid a wildcard together with credentials).
pub open spec fn cors_verdict(enabled: bool, credentials: bool, lists: Seq<Seq<Seq<char>>>) -> Option<Seq<char>> {
    if !enabled || !credentials {
        None
    } else if has_wildcard(lists[0]) {
        Some(wildcard_message(rule_list_names()[0]))
    } else if has_wildcard(lists[1]) {
        Some(wildcard_message(rule_list_names()[1]))
    } else if has_wildcard(lists[2]) {
        Some(wildcard_message(rule_list_names()[2]))
    } else if has_wildcard(lists[3]) {
        Some(wildcard_message(rule_list_names()[3]))
    } else {
        None
    }
}

/// The four lists of the default settings.
pub open spec fn default_rule_lists() -> Seq<Seq<Seq<char>>> {
    seq![seq!["*"@], default_methods(), seq!["*"@], seq!["ETag"@]]
}

/// The verdict of validating `cfg`: over its own CORS settings, or over the
/// defaults (which do not allow credentials) when it has none.
pub open spec fn validation_verdict(cfg: ApiGatewayConfig) -> Option<Seq<char>> {
    match cfg.cors {
        Some(own) => cors_verdict(cfg.cors_enabled, own.allow_credentials, rule_lists(own)),
        None => cors_verdict(cfg.cors_enabled, false, default_rule_lists()),
    }
}

/// Whether `c` is the CORS settings in effect for `cfg`: its own, or the
/// defaults when it has none.
pub open spec fn effective_cors(cfg: ApiGatewayConfig, c: CorsConfig) -> bool {
    match cfg.cors {
        Some(own) => same_settings(c, own),
        None => is_default_cors(c),
    }
}

/// Whether two CORS settings agree on every list's texts and every flag.
pub open spec fn same_settings(a: CorsConfig, b: CorsConfig) -> bool {
    &&& texts(a.allowed_origins@) == texts(b.allowed_origins@)
    &&& texts(a.allowed_methods@) == texts(b.allowed_methods@)
    &&& texts(a.allowed_headers@) == texts(b.allowed_headers@)
    &&& texts(a.exposed_headers@) == texts(b.exposed_headers@)
    &&& a.allow_credentials == b.allow_credentials
    &&& a.max_age_seconds == b.max_age_seconds
}

/// Validation looks only at the settings in effect: with CORS disabled, or
/// with settings that do not allow credentials, it accepts; with CORS enabled
/// and credentials allowed, it rejects exactly when one of the four lists
/// holds the wildcard `*`.
pub proof fn law_validation_rejects_only_credentials_with_wildcards(cfg: ApiGatewayConfig, c: CorsConfig)
    requires
        effective_cors(cfg, c),
    ensures
        !cfg.cors_enabled ==> validation_verdict(cfg) is None,
        !c.allow_credentials ==> validation_verdict(cfg) is None,
        cfg.cors_enabled && c.allow_credentials ==> (validation_verdict(cfg) is Some <==> (texts(
            c.allowed_origins@,
        ).contains("*"@) || texts(c.allowed_methods@).contains("*"@) || texts(c.allowed_headers@).contains("*"@)
            || texts(c.exposed_headers@).contains("*"@))),
{
}

/// A copy of a list of strings.
fn copy_list(v: &Vec<String>) -> (r: Vec<String>)
    ensures
        texts(r@) == texts(v@),
{
    let mut r: Vec<String> = Vec::new();
    let mut i: usize = 0;
    while i < v.len()
        invariant
            i <= v@.len(),
            r@.len() == i,
            forall|j: int| 0 <= j < i ==> #[trigger] r@[j]@ == v@[j]@,
        decreases v@.len() - i,
    {
        r.push(owned(v[i].as_str()));
        i = i + 1;
    }
    assert(texts(r@) =~= texts(v@));
    r
}

impl CorsConfig {
    /// A copy of these settings.
    pub fn copy(&self) -> (c: Self)
        ensures
            same_settings(c, *self),
    {
        CorsConfig {
            allowed_origins: copy_list(&self.allowed_origins),
            allowed_methods: copy_list(&self.allowed_methods),
            allowed_headers: copy_list(&self.allowed_headers),
            exposed_headers: copy_list(&self.exposed_headers),
            allow_credentials: self.allow_credentials,
            max_age_seconds: self.max_age_seconds,
        }
    }
}

/// Whether `list` holds the wildcard entry `*`.
pub fn contains_wildcard(list: &Vec<String>) -> (r: bool)
    ensures
        r == has_wildcard(texts(list@)),
{
    let mut i: usize = 0;
    while i < list.len()
        invariant
            i <= list@.len(),
            forall|j: int| 0 <= j < i ==> list@[j]@ != "*"@,
        decreases list@.len() - i,
    {
        if same_text(list[i].as_str(), "*") {
            assert(texts(list@)[i as int] == "*"@);
            return true;
        }
        i = i + 1;
    }
    assert forall|j: int| 0 <= j < texts(list@).len() implies texts(list@)[j] != "*"@ by {
        assert(texts(list@)[j] == list@[j]@);
    }
    false
}

/// The CORS settings in effect: the configured ones, or the defaults.
fn effective(cfg: &ApiGatewayConfig) -> (c: CorsConfig)
    ensures
        effective_cors(*cfg, c),
{
    match &cfg.cors {
        Some(c) => c.copy(),
        None => CorsConfig::default(),
    }
}

/// Validates the CORS configuration at load time: when CORS is enabled and
/// credentials are allowed, no list may hold the wildcard `*`. The error
/// names the first offending list.
pub fn validate_cors_config(cfg: &ApiGatewayConfig) -> (r: Result<(), String>)
    ensures
        match validation_verdict(*cfg) {
            None => r is Ok,
            Some(m) => r matches Err(e) && e@ == m,
        },
{
    let c = effective(cfg);
    if !cfg.cors_enabled {
        return Ok(());
    }
    if !c.allow_credentials {
        return Ok(());
    }
    let name = if contains_wildcard(&c.allowed_origins) {
        "cors.allowed_origins"
    } else if contains_wildcard(&c.allowed_methods) {
        "cors.allowed_methods"
    } else if contains_wildcard(&c.allowed_headers) {
        "cors.allowed_headers"
    } else if contains_wildcard(&c.exposed_headers) {
        "cors.exposed_headers"
    } else {
        return Ok(());
    };
    let head = joined("invalid CORS configuration: `", name);
    Err(joined(head.as_str(), WILDCARD_MESSAGE_TAIL))
}

/// How one CORS list is applied to the layer: any value (the list holds
/// the wildcard), or the listed entries.
#[derive(Debug, Clone)]
pub enum CorsList {
    Any,
    Entries(Vec<String>),
}

/// The settings the gateway's CORS layer is built from.
#[derive(Debug, Clone)]
pub struct CorsPlan {
    pub origins: CorsList,
    pub methods: CorsList,
    pub headers: CorsList,
    pub exposed: CorsList,
    pub allow_credentials: bool,
    /// The preflight cache lifetime; none when the configured value is 0.
    pub max_age_seconds: Option<u64>,
}

/// Whether `plan_list` applies the configured `list`: `Any` exactly when it
/// holds the wildcard, its entries otherwise.
pub open spec fn list_planned(list: Seq<Seq<char>>, plan_list: CorsList) -> bool {
    match plan_list {
        CorsList::Any => has_wildcard(list),
        CorsList::Entries(v) => !has_wildcard(list) && texts(v@) == list,
    }
}

/// Whether `p` applies the CORS settings `c`.
pub open spec fn plans(c: CorsConfig, p: CorsPlan) -> bool {
    &&& list_planned(texts(c.allowed_origins@), p.origins)
    &&& list_planned(texts(c.allowed_methods@), p.methods)
    &&& list_planned(texts(c.allowed_headers@), p.headers)
    &&& list_planned(texts(c.exposed_headers@), p.exposed)
    &&& p.allow_credentials == c.allow_credentials
    &&& p.max_age_seconds == (if c.max_age_seconds > 0 {
        Some(c.max_age_seconds)
    } else {
        None
    })
}

/// Whether `p` is the layer plan for `cfg`: it applies the settings in
/// effect for `cfg`.
pub open spec fn is_plan_for(cfg: ApiGatewayConfig, p: CorsPlan) -> bool {
    exists|c: CorsConfig| #[trigger] effective_cors(cfg, c) && plans(c, p)
}

/// How one list is applied.
fn plan_list(list: &Vec<String>) -> (p: CorsList)
    ensures
        list_planned(texts(list@), p),
{
    if contains_wildcard(list) {
        CorsList::Any
    } else {
        CorsList::Entries(copy_list(list))
    }
}

/// The CORS layer plan for `cfg` (its own settings, or the defaults): each
/// list becomes "any" when it holds the wildcard and its entries otherwise;
/// credentials are allowed as configured; a non-zero max age sets the
/// preflight cache lifetime.
pub fn cors_layer_plan(cfg: &ApiGatewayConfig) -> (p: CorsPlan)
    ensures
        is_plan_for(*cfg, p),
{
    let c = effective(cfg);
    CorsPlan {
        origins: plan_list(&c.allowed_origins),
        methods: plan_list(&c.allowed_methods),
        headers: plan_list(&c.allowed_headers),
        exposed: plan_list(&c.exposed_headers),
        allow_credentials: c.allow_credentials,
        max_age_seconds: if c.max_age_seconds > 0 {
            Some(c.max_age_seconds)
        } else {
            None
        },
    }
}

/// The values of the present entries of `rs`, in order.
pub open spec fn present_values<T>(rs: Seq<Option<T>>) -> Seq<T>
    decreases rs.len(),
{
    if rs.len() == 0 {
        Seq::empty()
    } else {
        let rest = present_values(rs.drop_last());
        match rs.last() {
            Some(v) => rest.push(v),
            None => rest,
        }
    }
}

/// Parses every configured entry with `parse` and keeps, in order, those that
/// parse; an entry that does not parse is skipped (`parse` reports it).
pub fn parse_list<T, F: Fn(&String) -> Option<T>>(items: &Vec<String>, parse: F) -> (out: Vec<T>)
    requires
        forall|i: int| 0 <= i < items@.len() ==> parse.requires((&items@[i],)),
    ensures
        exists|rs: Seq<Option<T>>|
            rs.len() == items@.len() && (forall|i: int| 0 <= i < items@.len() ==> parse.ensures((&items@[i],), #[trigger] rs[i]))
                && out@ == present_values(rs),
{
    let mut out: Vec<T> = Vec::new();
    let ghost mut rs: Seq<Option<T>> = Seq::empty();
    let mut i: usize = 0;
    while i < items.len()
        invariant
            i <= items@.len(),
            rs.len() == i,
            forall|j: int| 0 <= j < items@.len() ==> parse.requires((&items@[j],)),
            forall|j: int| 0 <= j < i ==> parse.ensures((&items@[j],), #[trigger] rs[j]),
            out@ == present_values(rs),
        decreases items@.len() - i,
    {
        let r = parse(&items[i]);
        let ghost before = rs;
        proof {
            rs = rs.push(r);
            assert(rs.drop_last() =~= before);
            assert(rs.last() == r);
        }
        match r {
            Some(v) => out.push(v),
            None => {},
        }
        i = i + 1;
    }
    out
}

/// A configuration the load-time validation accepts never yields a layer that
/// allows credentials together with "any" origin, method, request header or
/// exposed header, the combination browsers forbid and the layer refuses.
pub proof fn law_accepted_config_never_pairs_credentials_with_any(cfg: ApiGatewayConfig, p: CorsPlan)
    requires
        cfg.cors_enabled,
        validation_verdict(cfg) is None,
        is_plan_for(cfg, p),
    ensures
        p.allow_credentials ==> !(p.origins is Any) && !(p.methods is Any) && !(p.headers is Any)
            && !(p.exposed is Any),
{
    let c = choose|c: CorsConfig| #[trigger] effective_cors(cfg, c) && plans(c, p);
    match cfg.cors {
        Some(own) => {
            assert(rule_lists(own) == rule_lists(c));
        },
        None => {
            assert(!c.allow_credentials);
        },
    }
}

} // verus!
