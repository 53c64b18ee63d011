//! Per-profile backend bindings of the cluster wiring, and the operator
//! configuration schema they are built from.
use vstd::prelude::*;

use crate::cluster::error::ClusterError;
use crate::text::{chars_of, owned, same_text};

verus! {

/// The per-primitive backend bindings for one profile: the cache is
/// required; each other primitive is either bound to its own backend or left
/// to the default backend the wiring builds over the cache.
pub struct ProfileBackends<C, L, K, S> {
    cache: C,
    leader_election: Option<L>,
    lock: Option<K>,
    service_discovery: Option<S>,
}

impl<C, L, K, S> ProfileBackends<C, L, K, S> {
    /// The bound cache backend.
    pub closed spec fn cache_backend(&self) -> C {
        self.cache
    }

    /// The bound leader-election backend, if any.
    pub closed spec fn leader_election_backend(&self) -> Option<L> {
        self.leader_election
    }

    /// The bound distributed-lock backend, if any.
    pub closed spec fn lock_backend(&self) -> Option<K> {
        self.lock
    }

    /// The bound service-discovery backend, if any.
    pub closed spec fn service_discovery_backend(&self) -> Option<S> {
        self.service_discovery
    }

    /// Binds a profile to `cache`, leaving the other three primitives to the
    /// defaults unless overridden.
    pub fn new(cache: C) -> (b: Self)
        ensures
            b.cache_backend() == cache,
            b.leader_election_backend() is None,
            b.lock_backend() is None,
            b.service_discovery_backend() is None,
    {
        ProfileBackends { cache, leader_election: None, lock: None, service_discovery: None }
    }

    /// Binds a native leader-election backend, overriding the default.
    pub fn with_leader_election(self, backend: L) -> (b: Self)
        ensures
            b.leader_election_backend() == Some(backend),
            b.cache_backend() == self.cache_backend(),
            b.lock_backend() == self.lock_backend(),
            b.service_discovery_backend() == self.service_discovery_backend(),
    {
        ProfileBackends { leader_election: Some(backend), ..self }
    }

    /// Binds a native distributed-lock backend, overriding the default.
    pub fn with_lock(self, backend: K) -> (b: Self)
        ensures
            b.lock_backend() == Some(backend),
            b.cache_backend() == self.cache_backend(),
            b.leader_election_backend() == self.leader_election_backend(),
            b.service_discovery_backend() == self.service_discovery_backend(),
    {
        ProfileBackends { lock: Some(backend), ..self }
    }

    /// Binds a native service-discovery backend, overriding the default.
    pub fn with_service_discovery(self, backend: S) -> (b: Self)
        ensures
            b.service_discovery_backend() == Some(backend),
            b.cache_backend() == self.cache_backend(),
            b.leader_election_backend() == self.leader_election_backend(),
            b.lock_backend() == self.lock_backend(),
    {
        ProfileBackends { service_discovery: Some(backend), ..self }
    }

    /// Splits the bindings into the cache and the three optional primitives.
    pub fn into_parts(self) -> (parts: (C, Option<L>, Option<K>, Option<S>))
        ensures
            parts == (self.cache_backend(), self.leader_election_backend(), self.lock_backend(), self.service_discovery_backend()),
    {
        (self.cache, self.leader_election, self.lock, self.service_discovery)
    }
}

/// Entry point for wiring the cluster gear.
pub struct ClusterWiring;

/// Provisional placeholder for a backend credential reference: an opaque
/// name a future credential layer resolves.
#[derive(Debug, Clone)]
pub struct SecretRef {
    pub name: String,
}

/// Whether `c` may appear in a cluster profile name: an ASCII letter or
/// digit, `_` or `-`.
pub open spec fn name_char(c: char) -> bool {
    ('a' <= c && c <= 'z') || ('A' <= c && c <= 'Z') || ('0' <= c && c <= '9') || c == '_' || c == '-'
}

/// Whether `name` follows the cluster name rule `[a-zA-Z0-9_-]+`.
pub open spec fn valid_profile_name(name: Seq<char>) -> bool {
    name.len() > 0 && forall|i: int| 0 <= i < name.len() ==> name_char(#[trigger] name[i])
}

/// Checks a profile name against the cluster name rule `[a-zA-Z0-9_-]+`.
pub fn is_valid_profile_name(name: &str) -> (r: bool)
    ensures
        r == valid_profile_name(name@),
{
    let cs = chars_of(name);
    if cs.len() == 0 {
        return false;
    }
    let mut i: usize = 0;
    while i < cs.len()
        invariant
            cs@ == name@,
            i <= cs@.len(),
            forall|j: int| 0 <= j < i ==> name_char(#[trigger] cs@[j]),
        decreases cs@.len() - i,
    {
        let c = cs[i];
        let ok = ('a' <= c && c <= 'z') || ('A' <= c && c <= 'Z') || ('0' <= c && c <= '9') || c == '_' || c == '-';
        if !ok {
            return false;
        }
        i = i + 1;
    }
    true
}

/// A coordination primitive a profile binds to a backend.
#[derive(Debug, Clone, Copy, PartialEq, Eq)]
pub enum Primitive {
    Cache,
    LeaderElection,
    Lock,
    ServiceDiscovery,
}

/// The configuration key of a primitive.
pub open spec fn primitive_key(p: Primitive) -> Seq<char> {
    match p {
        Primitive::Cache => "cache"@,
        Primitive::LeaderElection => "leader_election"@,
        Primitive::Lock => "lock"@,
        Primitive::ServiceDiscovery => "service_discovery"@,
    }
}

impl Primitive {
    /// The configuration key of this primitive.
    pub fn key(&self) -> (k: &'static str)
        ensures
            k@ == primitive_key(*self),
    {
        match self {
            Primitive::Cache => "cache",
            Primitive::LeaderElection => "leader_election",
            Primitive::Lock => "lock",
            Primitive::ServiceDiscovery => "service_discovery",
        }
    }
}

/// The provider names one configured profile binds its primitives to: the
/// cache always, each other primitive when it is bound explicitly.
#[derive(Debug, Clone)]
pub struct ProfileProviders {
    pub cache: String,
    pub leader_election: Option<String>,
    pub lock: Option<String>,
    pub service_discovery: Option<String>,
}

/// The provider `p` binds `primitive` to, if any.
pub open spec fn bound_provider(p: ProfileProviders, primitive: Primitive) -> Option<String> {
    match primitive {
        Primitive::Cache => Some(p.cache),
        Primitive::LeaderElection => p.leader_election,
        Primitive::Lock => p.lock,
        Primitive::ServiceDiscovery => p.service_discovery,
    }
}

impl ProfileProviders {
    /// The provider this profile binds `primitive` to, if any.
    pub fn provider_of(&self, primitive: Primitive) -> (r: Option<&String>)
        ensures
            r == match bound_provider(*self, primitive) {
                Some(s) => Some(&s),
                None => None::<&String>,
            },
    {
        match primitive {
            Primitive::Cache => Some(&self.cache),
            Primitive::LeaderElection => self.leader_election.as_ref(),
            Primitive::Lock => self.lock.as_ref(),
            Primitive::ServiceDiscovery => self.service_discovery.as_ref(),
        }
    }
}

/// One backend the wiring builds from configuration: the primitive of the
/// profile at index `profile`.
#[derive(Debug, Clone, Copy, PartialEq, Eq)]
pub struct WiringStep {
    pub profile: usize,
    pub primitive: Primitive,
}

/// The backends built for the profile at index `i`: its cache first, then
/// each explicitly bound leader election, lock and service discovery, in
/// that order.
pub open spec fn profile_steps(i: int, p: ProfileProviders) -> Seq<(int, Primitive)> {
    seq![(i, Primitive::Cache)] + (if p.leader_election is Some {
        seq![(i, Primitive::LeaderElection)]
    } else {
        Seq::empty()
    }) + (if p.lock is Some {
        seq![(i, Primitive::Lock)]
    } else {
        Seq::empty()
    }) + (if p.service_discovery is Some {
        seq![(i, Primitive::ServiceDiscovery)]
    } else {
        Seq::empty()
    })
}

/// The backends built for a whole configuration, profile by profile in
/// configuration order.
pub open spec fn wiring_order(ps: Seq<ProfileProviders>) -> Seq<(int, Primitive)>
    decreases ps.len(),
{
    if ps.len() == 0 {
        Seq::empty()
    } else {
        wiring_order(ps.drop_last()) + profile_steps(ps.len() - 1, ps.last())
    }
}

/// The steps as index and primitive pairs.
pub open spec fn step_pairs(steps: Seq<WiringStep>) -> Seq<(int, Primitive)> {
    steps.map_values(|s: WiringStep| (s.profile as int, s.primitive))
}

/// The provider sets of a list of named profiles.
pub open spec fn profile_providers(profiles: Seq<(String, ProfileProviders)>) -> Seq<ProfileProviders> {
    profiles.map_values(|np: (String, ProfileProviders)| np.1)
}

/// The backends to build for `profiles`, in the order the wiring builds them:
/// profile by profile, each profile's cache before its explicitly bound
/// leader election, lock and service discovery. Unbound primitives get no
/// step: the wiring fills them with the defaults over the cache.
pub fn wiring_steps(profiles: &Vec<(String, ProfileProviders)>) -> (steps: Vec<WiringStep>)
    ensures
        step_pairs(steps@) == wiring_order(profile_providers(profiles@)),
{
    let mut steps: Vec<WiringStep> = Vec::new();
    let mut i: usize = 0;
    while i < profiles.len()
        invariant
            i <= profiles@.len(),
            step_pairs(steps@) == wiring_order(profile_providers(profiles@.take(i as int))),
        decreases profiles@.len() - i,
    {
        let ghost before = steps@;
        let p = &profiles[i].1;
        steps.push(WiringStep { profile: i, primitive: Primitive::Cache });
        if p.leader_election.is_some() {
            steps.push(WiringStep { profile: i, primitive: Primitive::LeaderElection });
        }
        if p.lock.is_some() {
            steps.push(WiringStep { profile: i, primitive: Primitive::Lock });
        }
        if p.service_discovery.is_some() {
            steps.push(WiringStep { profile: i, primitive: Primitive::ServiceDiscovery });
        }
        proof {
            let ps = profile_providers(profiles@.take(i + 1));
            assert(ps.drop_last() =~= profile_providers(profiles@.take(i as int)));
            assert(ps.last() == profiles@[i as int].1);
            assert(step_pairs(steps@) =~= step_pairs(before) + profile_steps(i as int, *p));
        }
        i = i + 1;
    }
    proof {
        assert(profiles@.take(profiles@.len() as int) =~= profiles@);
    }
    steps
}

/// The reason a binding to an unregistered provider is rejected.
pub open spec fn unknown_provider_reason(profile: Seq<char>, primitive: Primitive, provider: Seq<char>) -> Seq<char> {
    "profile `"@ + profile + "`: unknown "@ + primitive_key(primitive) + " provider `"@ + provider + "`"@
}

/// The configuration error for a profile binding `primitive` to a provider
/// no plugin registered.
pub fn unknown_provider(profile: &str, primitive: Primitive, provider: &str) -> (e: ClusterError)
    ensures
        e matches ClusterError::InvalidConfig { reason } && reason@ == unknown_provider_reason(
            profile@,
            primitive,
            provider@,
        ),
{
    let reason = owned("profile `").concat(profile).concat("`: unknown ").concat(primitive.key()).concat(
        " provider `",
    ).concat(provider).concat("`");
    ClusterError::InvalidConfig { reason }
}

/// The provider names registered for each primitive.
#[derive(Debug, Clone)]
pub struct RegisteredProviders {
    pub cache: Vec<String>,
    pub leader_election: Vec<String>,
    pub lock: Vec<String>,
    pub service_discovery: Vec<String>,
}

/// The names registered for `p`.
pub open spec fn registered_for(r: RegisteredProviders, p: Primitive) -> Seq<Seq<char>> {
    match p {
        Primitive::Cache => name_texts(r.cache@),
        Primitive::LeaderElection => name_texts(r.leader_election@),
        Primitive::Lock => name_texts(r.lock@),
        Primitive::ServiceDiscovery => name_texts(r.service_discovery@),
    }
}

/// The provider a wiring step binds: that of its primitive in its profile.
pub open spec fn step_provider(profiles: Seq<(String, ProfileProviders)>, step: (int, Primitive)) -> Seq<char> {
    match bound_provider(profiles[step.0].1, step.1) {
        Some(p) => p@,
        None => Seq::empty(),
    }
}

/// Whether a wiring step's provider is registered for its primitive.
pub open spec fn step_resolvable(
    profiles: Seq<(String, ProfileProviders)>,
    registered: RegisteredProviders,
    step: (int, Primitive),
) -> bool {
    registered_for(registered, step.1).contains(step_provider(profiles, step))
}

/// Whether step `j` of the wiring order is the first whose provider is not
/// registered.
pub open spec fn first_unresolved(profiles: Seq<(String, ProfileProviders)>, registered: RegisteredProviders, j: int) -> bool {
    let order = wiring_order(profile_providers(profiles));
    &&& 0 <= j < order.len()
    &&& !step_resolvable(profiles, registered, order[j])
    &&& forall|k: int| 0 <= k < j ==> step_resolvable(profiles, registered, #[trigger] order[k])
}

/// Whether `e` is the unknown-provider error for `step`.
pub open spec fn unknown_provider_error(profiles: Seq<(String, ProfileProviders)>, step: (int, Primitive), e: ClusterError) -> bool {
    e matches ClusterError::InvalidConfig { reason } && reason@ == unknown_provider_reason(
        profiles[step.0].0@,
        step.1,
        step_provider(profiles, step),
    )
}

/// Every step of the wiring order names a profile of the list and a
/// primitive that profile binds.
pub proof fn lemma_wiring_order_binds(ps: Seq<ProfileProviders>)
    ensures
        forall|j: int|
            0 <= j < wiring_order(ps).len() ==> 0 <= (#[trigger] wiring_order(ps)[j]).0 < ps.len() && bound_provider(
                ps[wiring_order(ps)[j].0],
                wiring_order(ps)[j].1,
            ) is Some,
    decreases ps.len(),
{
    if ps.len() > 0 {
        let init = ps.drop_last();
        lemma_wiring_order_binds(init);
        let n = ps.len() - 1;
        let head = wiring_order(init);
        let tail = profile_steps(n, ps.last());
        assert(wiring_order(ps) == head + tail);
        assert forall|j: int| 0 <= j < wiring_order(ps).len() implies 0 <= (#[trigger] wiring_order(ps)[j]).0 < ps.len()
            && bound_provider(ps[wiring_order(ps)[j].0], wiring_order(ps)[j].1) is Some by {
            if j < head.len() {
                assert(wiring_order(ps)[j] == head[j]);
                assert(ps[head[j].0] == init[head[j].0]);
            } else {
                let t = tail[j - head.len()];
                assert(wiring_order(ps)[j] == t);
                let p = ps.last();
                let a: Seq<(int, Primitive)> = seq![(n, Primitive::Cache)];
                let b: Seq<(int, Primitive)> = if p.leader_election is Some { seq![(n, Primitive::LeaderElection)] } else { Seq::empty() };
                let c: Seq<(int, Primitive)> = if p.lock is Some { seq![(n, Primitive::Lock)] } else { Seq::empty() };
                let d: Seq<(int, Primitive)> = if p.service_discovery is Some { seq![(n, Primitive::ServiceDiscovery)] } else { Seq::empty() };
                assert(tail == a + b + c + d);
                let k = j - head.len();
                assert(t.0 == n);
                if k < a.len() {
                    assert(t == a[k]);
                } else if k < a.len() + b.len() {
                    assert(t == b[k - a.len()]);
                } else if k < a.len() + b.len() + c.len() {
                    assert(t == c[k - a.len() - b.len()]);
                } else {
                    assert(t == d[k - a.len() - b.len() - c.len()]);
                }
                assert(ps[n] == p);
            }
        }
    }
}

/// The wiring builds every primitive a profile binds: the cache of every
/// profile, and each leader election, lock and service discovery a profile
/// binds explicitly, each gets a step for that profile.
pub proof fn law_wiring_builds_every_bound_primitive(ps: Seq<ProfileProviders>)
    ensures
        forall|i: int, prim: Primitive|
            0 <= i < ps.len() && bound_provider(ps[i], prim) is Some ==> #[trigger] wiring_order(ps).contains((i, prim)),
    decreases ps.len(),
{
    if ps.len() > 0 {
        let init = ps.drop_last();
        law_wiring_builds_every_bound_primitive(init);
        let n = ps.len() - 1;
        let head = wiring_order(init);
        let p = ps.last();
        let a: Seq<(int, Primitive)> = seq![(n, Primitive::Cache)];
        let b: Seq<(int, Primitive)> = if p.leader_election is Some { seq![(n, Primitive::LeaderElection)] } else { Seq::empty() };
        let c: Seq<(int, Primitive)> = if p.lock is Some { seq![(n, Primitive::Lock)] } else { Seq::empty() };
        let d: Seq<(int, Primitive)> = if p.service_discovery is Some { seq![(n, Primitive::ServiceDiscovery)] } else { Seq::empty() };
        let w = wiring_order(ps);
        assert(profile_steps(n, p) == a + b + c + d);
        assert(w == head + (a + b + c + d));
        let h = head.len() as int;
        assert forall|i: int, prim: Primitive|
            0 <= i < ps.len() && bound_provider(ps[i], prim) is Some implies #[trigger] w.contains((i, prim)) by {
            if i < n {
                assert(ps[i] == init[i]);
                assert(head.contains((i, prim)));
                let k = choose|k: int| 0 <= k < head.len() && head[k] == (i, prim);
                assert(w[k] == head[k]);
            } else {
                assert(ps[i] == p);
                match prim {
                    Primitive::Cache => {
                        assert(w[h] == (n, Primitive::Cache));
                    },
                    Primitive::LeaderElection => {
                        assert(w[h + 1] == (n, Primitive::LeaderElection));
                    },
                    Primitive::Lock => {
                        assert(w[h + 1 + b.len()] == (n, Primitive::Lock));
                    },
                    Primitive::ServiceDiscovery => {
                        assert(w[h + 1 + b.len() + c.len()] == (n, Primitive::ServiceDiscovery));
                    },
                }
            }
        }
    }
}

/// Whether `name` is one of `names`.
fn registered_name(names: &Vec<String>, name: &str) -> (r: bool)
    ensures
        r == name_texts(names@).contains(name@),
{
    let mut i: usize = 0;
    while i < names.len()
        invariant
            i <= names@.len(),
            forall|j: int| 0 <= j < i ==> names@[j]@ != name@,
        decreases names@.len() - i,
    {
        if same_text(names[i].as_str(), name) {
            assert(name_texts(names@)[i as int] == name@);
            return true;
        }
        i = i + 1;
    }
    assert forall|j: int| 0 <= j < name_texts(names@).len() implies name_texts(names@)[j] != name@ by {
        assert(name_texts(names@)[j] == names@[j]@);
    }
    false
}

/// The backends to build for `profiles`, in wiring order, once every bound
/// provider is found among the registered ones for its primitive; otherwise
/// the unknown-provider error of the first step, in wiring order, whose
/// provider is not registered.
pub fn resolve_providers(profiles: &Vec<(String, ProfileProviders)>, registered: &RegisteredProviders) -> (r: Result<
    Vec<WiringStep>,
    ClusterError,
>)
    ensures
        r is Ok <==> forall|j: int|
            0 <= j < wiring_order(profile_providers(profiles@)).len() ==> step_resolvable(
                profiles@,
                *registered,
                #[trigger] wiring_order(profile_providers(profiles@))[j],
            ),
        r matches Ok(steps) ==> step_pairs(steps@) == wiring_order(profile_providers(profiles@)),
        r matches Err(e) ==> exists|j: int|
            #[trigger] first_unresolved(profiles@, *registered, j) && unknown_provider_error(
                profiles@,
                wiring_order(profile_providers(profiles@))[j],
                e,
            ),
{
    let steps = wiring_steps(profiles);
    let ghost order = wiring_order(profile_providers(profiles@));
    proof {
        lemma_wiring_order_binds(profile_providers(profiles@));
    }
    let mut i: usize = 0;
    while i < steps.len()
        invariant
            step_pairs(steps@) == order,
            order == wiring_order(profile_providers(profiles@)),
            forall|j: int|
                0 <= j < order.len() ==> 0 <= (#[trigger] order[j]).0 < profiles@.len() && bound_provider(
                    profiles@[order[j].0].1,
                    order[j].1,
                ) is Some,
            i <= steps@.len(),
            forall|k: int| 0 <= k < i ==> step_resolvable(profiles@, *registered, #[trigger] order[k]),
        decreases steps@.len() - i,
    {
        let step = steps[i];
        assert(order[i as int] == (step.profile as int, step.primitive));
        let profile = &profiles[step.profile];
        let provider = match profile.1.provider_of(step.primitive) {
            Some(p) => p,
            None => {
                assert(false);
                return Err(unknown_provider(profile.0.as_str(), step.primitive, ""));
            },
        };
        let names = match step.primitive {
            Primitive::Cache => &registered.cache,
            Primitive::LeaderElection => &registered.leader_election,
            Primitive::Lock => &registered.lock,
            Primitive::ServiceDiscovery => &registered.service_discovery,
        };
        if !registered_name(names, provider.as_str()) {
            let e = unknown_provider(profile.0.as_str(), step.primitive, provider.as_str());
            assert(first_unresolved(profiles@, *registered, i as int));
            return Err(e);
        }
        i = i + 1;
    }
    Ok(steps)
}

/// Registration of resolved profiles into the hub, all or nothing: the
/// names registered so far, in order.
pub struct Registration {
    registered: Vec<String>,
}

/// What the wiring does after one profile's registration attempt.
#[derive(Debug)]
pub enum RegistrationStep {
    /// The profile registered; go on with the next one.
    Continue,
    /// The profile failed; deregister these profiles and report the error.
    RollBack(Vec<String>),
}

/// The texts of a list of names.
pub open spec fn name_texts(v: Seq<String>) -> Seq<Seq<char>> {
    v.map_values(|s: String| s@)
}

impl Registration {
    /// The names registered so far, in order.
    pub closed spec fn names(&self) -> Seq<Seq<char>> {
        name_texts(self.registered@)
    }

    /// Nothing registered yet.
    pub fn new() -> (r: Self)
        ensures
            r.names() == Seq::<Seq<char>>::empty(),
    {
        Registration { registered: Vec::new() }
    }

    /// Records the outcome of registering the profile `name`. On success the
    /// name joins the registered ones; on failure the profile itself and every
    /// profile registered before it are to be deregistered, and nothing is
    /// left registered.
    pub fn on_attempt(&mut self, name: String, ok: bool) -> (step: RegistrationStep)
        ensures
            ok ==> (step is Continue && final(self).names() == old(self).names().push(name@)),
            !ok ==> (step matches RegistrationStep::RollBack(targets) && name_texts(targets@) == seq![name@]
                + old(self).names() && final(self).names() == Seq::<Seq<char>>::empty()),
    {
        if ok {
            let ghost before = self.registered@;
            self.registered.push(name);
            proof {
                assert(name_texts(self.registered@) =~= name_texts(before).push(name@));
            }
            RegistrationStep::Continue
        } else {
            let mut targets: Vec<String> = Vec::new();
            targets.push(name);
            let mut prior: Vec<String> = Vec::new();
            std::mem::swap(&mut prior, &mut self.registered);
            let ghost first = targets@;
            let ghost rest = prior@;
            targets.append(&mut prior);
            proof {
                assert(targets@ =~= first + rest);
                assert(name_texts(targets@) =~= seq![first[0]@] + name_texts(rest));
                assert(name_texts(self.registered@) =~= Seq::<Seq<char>>::empty());
            }
            RegistrationStep::RollBack(targets)
        }
    }

    /// The names registered, handed to the running handle.
    pub fn into_names(self) -> (v: Vec<String>)
        ensures
            name_texts(v@) == self.names(),
    {
        self.registered
    }
}

/// All or nothing: whatever this wiring registered in the hub, the profiles it
/// had registered before a failure and the failing profile itself, is gone
/// once the rollback targets are deregistered.
pub proof fn law_rollback_leaves_nothing_registered(
    before: Seq<Seq<char>>,
    name: Seq<char>,
    hub: Set<Seq<char>>,
    targets: Seq<Seq<char>>,
)
    requires
        forall|n: Seq<char>| #[trigger] hub.contains(n) ==> before.contains(n) || n == name,
        targets == seq![name] + before,
    ensures
        hub.difference(targets.to_set()) == Set::<Seq<char>>::empty(),
{
    assert forall|n: Seq<char>| #[trigger] hub.contains(n) implies targets.to_set().contains(n) by {
        if n == name {
            assert(targets[0] == n);
        } else {
            let j = choose|j: int| 0 <= j < before.len() && before[j] == n;
            assert(targets[j + 1] == n);
        }
    }
    assert(hub.difference(targets.to_set()) =~= Set::<Seq<char>>::empty());
}

/// The order the wiring's plugin shutdown hooks run in: the last started
/// stops first.
pub fn stop_order(started: usize) -> (order: Vec<usize>)
    ensures
        order@.len() == started,
        forall|i: int| 0 <= i < started ==> #[trigger] order@[i] == started - 1 - i,
{
    let mut order: Vec<usize> = Vec::new();
    let mut k: usize = started;
    while k > 0
        invariant
            k <= started,
            order@.len() == started - k,
            forall|i: int| 0 <= i < started - k ==> #[trigger] order@[i] == started - 1 - i,
        decreases k,
    {
        k = k - 1;
        order.push(k);
    }
    order
}

/// One action of the wiring's shutdown.
#[derive(Debug, Clone, PartialEq, Eq)]
pub enum StopAction {
    /// Revoke the in-flight coordination of the default backend at this index.
    Revoke(usize),
    /// Deregister this profile's backends.
    Deregister(String),
    /// Run the plugin shutdown hook at this index (in start order).
    RunHook(usize),
}

/// Whether `actions` is the shutdown of a wiring with `revokers` default
/// backends, the `registered` profiles and `hooks` shutdown hooks: every
/// default backend revoked, in order; then every registered profile
/// deregistered, in order; then every hook run, the last started first.
pub open spec fn is_stop_plan(actions: Seq<StopAction>, revokers: nat, registered: Seq<Seq<char>>, hooks: nat) -> bool {
    &&& actions.len() == revokers + registered.len() + hooks
    &&& forall|i: int| 0 <= i < revokers ==> #[trigger] actions[i] == StopAction::Revoke(i as usize)
    &&& forall|j: int|
        0 <= j < registered.len() ==> (#[trigger] actions[revokers + j] matches StopAction::Deregister(n) && n@
            == registered[j])
    &&& forall|h: int|
        0 <= h < hooks ==> #[trigger] actions[revokers + registered.len() + h] == StopAction::RunHook(
            (hooks - 1 - h) as usize,
        )
}

/// The shutdown of a wiring with `revokers` default backends, the
/// `registered` profiles and `hooks` shutdown hooks.
pub fn stop_plan(revokers: usize, registered: &Vec<String>, hooks: usize) -> (actions: Vec<StopAction>)
    requires
        revokers + registered@.len() + hooks <= usize::MAX,
    ensures
        is_stop_plan(actions@, revokers as nat, name_texts(registered@), hooks as nat),
{
    let mut actions: Vec<StopAction> = Vec::new();
    let mut i: usize = 0;
    while i < revokers
        invariant
            i <= revokers,
            actions@.len() == i,
            forall|a: int| 0 <= a < i ==> #[trigger] actions@[a] == StopAction::Revoke(a as usize),
        decreases revokers - i,
    {
        actions.push(StopAction::Revoke(i));
        i = i + 1;
    }
    let mut j: usize = 0;
    while j < registered.len()
        invariant
            revokers + registered@.len() + hooks <= usize::MAX,
            j <= registered@.len(),
            actions@.len() == revokers + j,
            forall|a: int| 0 <= a < revokers ==> #[trigger] actions@[a] == StopAction::Revoke(a as usize),
            forall|b: int|
                0 <= b < j ==> (#[trigger] actions@[revokers + b] matches StopAction::Deregister(n) && n@
                    == registered@[b]@),
        decreases registered@.len() - j,
    {
        actions.push(StopAction::Deregister(owned(registered[j].as_str())));
        j = j + 1;
    }
    let mut k: usize = hooks;
    while k > 0
        invariant
            revokers + registered@.len() + hooks <= usize::MAX,
            k <= hooks,
            actions@.len() == revokers + registered@.len() + (hooks - k),
            forall|a: int| 0 <= a < revokers ==> #[trigger] actions@[a] == StopAction::Revoke(a as usize),
            forall|b: int|
                0 <= b < registered@.len() ==> (#[trigger] actions@[revokers + b] matches StopAction::Deregister(n)
                    && n@ == registered@[b]@),
            forall|h: int|
                0 <= h < hooks - k ==> #[trigger] actions@[revokers + registered@.len() + h] == StopAction::RunHook(
                    (hooks - 1 - h) as usize,
                ),
        decreases k,
    {
        k = k - 1;
        actions.push(StopAction::RunHook(k));
    }
    proof {
        assert forall|b: int| 0 <= b < name_texts(registered@).len() implies (#[trigger] actions@[revokers + b] matches StopAction::Deregister(n)
            && n@ == name_texts(registered@)[b]) by {
            assert(name_texts(registered@)[b] == registered@[b]@);
        }
    }
    actions
}

/// Whether some action runs the hook at index `h`.
pub open spec fn runs_hook(actions: Seq<StopAction>, h: int) -> bool {
    exists|p: int| 0 <= p < actions.len() && #[trigger] actions[p] == StopAction::RunHook(h as usize)
}

/// Whether some action deregisters the profile `name`.
pub open spec fn deregisters(actions: Seq<StopAction>, name: Seq<char>) -> bool {
    exists|p: int| 0 <= p < actions.len() && (#[trigger] actions[p] matches StopAction::Deregister(n) && n@ == name)
}

/// Stopping a wiring revokes every default backend before any profile is
/// deregistered, deregisters every registered profile before any shutdown
/// hook runs, and runs each hook exactly once, the last started first.
pub proof fn law_stop_deregisters_then_runs_each_hook_once(
    actions: Seq<StopAction>,
    revokers: nat,
    registered: Seq<Seq<char>>,
    hooks: nat,
)
    requires
        is_stop_plan(actions, revokers, registered, hooks),
        revokers + registered.len() + hooks <= usize::MAX,
    ensures
        forall|p: int, q: int|
            0 <= p < actions.len() && 0 <= q < actions.len() && #[trigger] actions[p] is Revoke && #[trigger] actions[q] is Deregister
                ==> p < q,
        forall|p: int, q: int|
            0 <= p < actions.len() && 0 <= q < actions.len() && #[trigger] actions[p] is Deregister && #[trigger] actions[q] is RunHook
                ==> p < q,
        forall|h: int| 0 <= h < hooks ==> #[trigger] runs_hook(actions, h),
        forall|p: int, q: int|
            0 <= p < actions.len() && 0 <= q < actions.len() && #[trigger] actions[p] is RunHook && actions[p] == #[trigger] actions[q]
                ==> p == q,
        forall|p: int, q: int|
            0 <= p < q < actions.len() && #[trigger] actions[p] is RunHook && #[trigger] actions[q] is RunHook
                ==> actions[p]->RunHook_0 > actions[q]->RunHook_0,
        forall|j: int| 0 <= j < registered.len() ==> #[trigger] deregisters(actions, registered[j]),
{
    let r = revokers as int;
    let d = registered.len() as int;
    assert forall|p: int| 0 <= p < actions.len() implies (#[trigger] actions[p] is Revoke <==> p < r) && (actions[p] is Deregister
        <==> r <= p < r + d) && (actions[p] is RunHook <==> r + d <= p) by {
        if p < r {
            assert(actions[p] == StopAction::Revoke(p as usize));
        } else if p < r + d {
            assert(actions[r + (p - r)] matches StopAction::Deregister(_));
        } else {
            assert(actions[r + d + (p - r - d)] == StopAction::RunHook((hooks - 1 - (p - r - d)) as usize));
        }
    }
    assert forall|j: int| 0 <= j < registered.len() implies #[trigger] deregisters(actions, registered[j]) by {
        assert(actions[r + j] matches StopAction::Deregister(n) && n@ == registered[j]);
    }
    assert forall|p: int, q: int|
        0 <= p < q < actions.len() && #[trigger] actions[p] is RunHook && #[trigger] actions[q] is RunHook implies actions[p]->RunHook_0
            > actions[q]->RunHook_0 by {
        assert(actions[r + d + (p - r - d)] == StopAction::RunHook((hooks - 1 - (p - r - d)) as usize));
        assert(actions[r + d + (q - r - d)] == StopAction::RunHook((hooks - 1 - (q - r - d)) as usize));
    }
    assert forall|h: int| 0 <= h < hooks implies #[trigger] runs_hook(actions, h) by {
        let off = hooks - 1 - h;
        assert(actions[r + d + off] == StopAction::RunHook((hooks - 1 - off) as usize));
    }
    assert forall|p: int, q: int|
        0 <= p < actions.len() && 0 <= q < actions.len() && #[trigger] actions[p] is RunHook && actions[p] == #[trigger] actions[q]
            implies p == q by {
        assert(r + d <= p && r + d <= q);
        assert(actions[r + d + (p - r - d)] == StopAction::RunHook((hooks - 1 - (p - r - d)) as usize));
        assert(actions[r + d + (q - r - d)] == StopAction::RunHook((hooks - 1 - (q - r - d)) as usize));
        assert(hooks - 1 - (p - r - d) == hooks - 1 - (q - r - d));
    }
}

/// Checks one wiring step against the registered providers: `Ok` when the
/// provider its primitive is bound to in its profile is registered for that
/// primitive, otherwise the unknown-provider error for that step.
pub fn check_wiring_step(
    profiles: &Vec<(String, ProfileProviders)>,
    registered: &RegisteredProviders,
    step: WiringStep,
) -> (r: Result<(), ClusterError>)
    requires
        step.profile < profiles@.len(),
        bound_provider(profiles@[step.profile as int].1, step.primitive) is Some,
    ensures
        r is Ok <==> step_resolvable(profiles@, *registered, (step.profile as int, step.primitive)),
        r matches Err(e) ==> unknown_provider_error(profiles@, (step.profile as int, step.primitive), e),
{
    let profile = &profiles[step.profile];
    let provider = match profile.1.provider_of(step.primitive) {
        Some(p) => p,
        None => {
            return Ok(());
        },
    };
    let names = match step.primitive {
        Primitive::Cache => &registered.cache,
        Primitive::LeaderElection => &registered.leader_election,
        Primitive::Lock => &registered.lock,
        Primitive::ServiceDiscovery => &registered.service_discovery,
    };
    if registered_name(names, provider.as_str()) {
        Ok(())
    } else {
        Err(unknown_provider(profile.0.as_str(), step.primitive, provider.as_str()))
    }
}

} // verus!
