//! The cache of auth secrets per team scope and harness, and how it follows
//! the secrets the viewer creates and deletes.
use crate::ids::{scope_team, ServerId, TeamContextForOperation};
use crate::text::str_eq;
use vstd::prelude::*;

verus! {

/// A third-party agent harness that runs cloud agents.
#[derive(Clone, Copy, Debug, PartialEq, Eq, Structural)]
pub enum Harness {
    Claude,
    Codex,
    Gemini,
}

impl Harness {
    /// The name of the harness in settings.
    pub fn config_name(&self) -> (r: &'static str)
        ensures
            r@ == harness_config_name(*self),
    {
        match self {
            Harness::Claude => "claude_code",
            Harness::Codex => "codex",
            Harness::Gemini => "gemini",
        }
    }
}

/// The name of a harness in settings.
pub open spec fn harness_config_name(h: Harness) -> Seq<char> {
    match h {
        Harness::Claude => "claude_code"@,
        Harness::Codex => "codex"@,
        Harness::Gemini => "gemini"@,
    }
}

/// The harnesses offered by default.
pub fn default_harnesses() -> (r: Vec<Harness>)
    ensures
        r@ == seq![Harness::Claude, Harness::Codex, Harness::Gemini],
{
    let mut v = Vec::new();
    v.push(Harness::Claude);
    v.push(Harness::Codex);
    v.push(Harness::Gemini);
    assert(v@ =~= seq![Harness::Claude, Harness::Codex, Harness::Gemini]);
    v
}

/// A cache key: the team scope (no team for the personal scope) and the
/// harness.
pub type KeyView = (Option<Seq<char>>, Harness);

/// Identifies the auth secrets of one harness in one team scope.
#[derive(Debug)]
pub struct AuthSecretCacheKey {
    team_uid: Option<ServerId>,
    harness: Harness,
}

impl View for AuthSecretCacheKey {
    type V = KeyView;

    closed spec fn view(&self) -> KeyView {
        (scope_team(self.team_uid), self.harness)
    }
}

impl AuthSecretCacheKey {
    /// The key of `harness` in `scope`.
    pub fn new(scope: &TeamContextForOperation, harness: Harness) -> (r: Self)
        ensures
            r@ == (scope.team(), harness),
    {
        AuthSecretCacheKey { team_uid: scope.team_uid(), harness }
    }

    /// The harness of the key.
    pub fn harness(&self) -> (r: Harness)
        ensures
            r == self@.1,
    {
        self.harness
    }

    /// Whether two keys name the same scope and harness.
    pub fn same_as(&self, other: &AuthSecretCacheKey) -> (r: bool)
        ensures
            r == (self@ == other@),
    {
        let same_team = match (&self.team_uid, &other.team_uid) {
            (Some(a), Some(b)) => a.same_as(b),
            (None, None) => true,
            _ => false,
        };
        same_team && self.harness == other.harness
    }
}

impl Clone for AuthSecretCacheKey {
    fn clone(&self) -> (r: Self)
        ensures
            r@ == self@,
    {
        let team_uid = match &self.team_uid {
            Some(id) => Some(id.clone()),
            None => None,
        };
        AuthSecretCacheKey { team_uid, harness: self.harness }
    }
}

impl PartialEq for AuthSecretCacheKey {
    fn eq(&self, other: &Self) -> (r: bool) {
        self.same_as(other)
    }
}

impl vstd::std_specs::cmp::PartialEqSpecImpl for AuthSecretCacheKey {
    open spec fn obeys_eq_spec() -> bool {
        true
    }

    open spec fn eq_spec(&self, other: &Self) -> bool {
        self@ == other@
    }
}

/// Who owns a secret: the viewer, or a team.
#[derive(Debug)]
pub enum SecretOwner {
    CurrentUser,
    Team { team_uid: String },
}

/// The owning team of a secret; none for the viewer's own.
pub open spec fn owner_view(o: SecretOwner) -> Option<Seq<char>> {
    match o {
        SecretOwner::CurrentUser => None,
        SecretOwner::Team { team_uid } => Some(team_uid@),
    }
}

impl Clone for SecretOwner {
    fn clone(&self) -> (r: Self)
        ensures
            r == *self,
    {
        match self {
            SecretOwner::CurrentUser => SecretOwner::CurrentUser,
            SecretOwner::Team { team_uid } => SecretOwner::Team { team_uid: team_uid.clone() },
        }
    }
}

/// One auth secret offered for a harness.
#[derive(Debug)]
pub struct AuthSecretEntry {
    pub name: String,
    pub owner: SecretOwner,
}

impl Clone for AuthSecretEntry {
    fn clone(&self) -> (r: Self)
        ensures
            r == *self,
    {
        AuthSecretEntry { name: self.name.clone(), owner: self.owner.clone() }
    }
}

/// An entry as its name and owner.
pub type EntryView = (Seq<char>, Option<Seq<char>>);

/// An entry as its name and owner.
pub open spec fn entry_view(e: AuthSecretEntry) -> EntryView {
    (e.name@, owner_view(e.owner))
}

/// The entries of a list, as views.
pub open spec fn entries_view(v: Seq<AuthSecretEntry>) -> Seq<EntryView> {
    v.map_values(|e: AuthSecretEntry| entry_view(e))
}

/// Where the fetch of one key's secrets stands.
#[derive(Debug)]
pub enum AuthSecretFetchState {
    NotFetched,
    Loading,
    Loaded(Vec<AuthSecretEntry>),
    Failed,
}

/// The kind of a fetch state.
#[derive(Clone, Copy, Debug, PartialEq, Eq, Structural)]
pub enum FetchKind {
    NotFetched,
    Loading,
    Loaded,
    Failed,
}

/// A fetch state as its kind and, when loaded, its entries.
pub type StateView = (FetchKind, Seq<EntryView>);

/// A fetch state as its kind and, when loaded, its entries.
pub open spec fn state_view(s: AuthSecretFetchState) -> StateView {
    match s {
        AuthSecretFetchState::NotFetched => (FetchKind::NotFetched, Seq::empty()),
        AuthSecretFetchState::Loading => (FetchKind::Loading, Seq::empty()),
        AuthSecretFetchState::Loaded(v) => (FetchKind::Loaded, entries_view(v@)),
        AuthSecretFetchState::Failed => (FetchKind::Failed, Seq::empty()),
    }
}

fn clone_entries(v: &Vec<AuthSecretEntry>) -> (r: Vec<AuthSecretEntry>)
    ensures
        r@ == v@,
{
    let mut r: Vec<AuthSecretEntry> = Vec::new();
    let mut i: usize = 0;
    while i < v.len()
        invariant
            i <= v.len(),
            r@ == v@.take(i as int),
        decreases v.len() - i,
    {
        r.push(v[i].clone());
        assert(r@ =~= v@.take(i + 1));
        i = i + 1;
    }
    assert(v@.take(i as int) =~= v@);
    r
}

impl Clone for AuthSecretFetchState {
    fn clone(&self) -> (r: Self)
        ensures
            state_view(r) == state_view(*self),
    {
        match self {
            AuthSecretFetchState::NotFetched => AuthSecretFetchState::NotFetched,
            AuthSecretFetchState::Loading => AuthSecretFetchState::Loading,
            AuthSecretFetchState::Loaded(v) => AuthSecretFetchState::Loaded(clone_entries(v)),
            AuthSecretFetchState::Failed => AuthSecretFetchState::Failed,
        }
    }
}

/// A secret with this owner belongs in the cache of `key` for `harness`:
/// the viewer's own secrets belong in every team scope of the harness, a
/// team's secrets only in that team's scope.
pub open spec fn secret_applies(key: KeyView, harness: Harness, owner: Option<Seq<char>>) -> bool {
    key.1 == harness && match owner {
        None => true,
        Some(t) => key.0 == Some(t),
    }
}

/// The cache after a secret is created: every loaded cache it belongs in
/// gains the entry at its end.
pub open spec fn cache_after_create(
    m: Map<KeyView, StateView>,
    harness: Harness,
    e: EntryView,
) -> Map<KeyView, StateView> {
    Map::new(
        |k: KeyView| m.dom().contains(k),
        |k: KeyView|
            if secret_applies(k, harness, e.1) && m[k].0 == FetchKind::Loaded {
                (FetchKind::Loaded, m[k].1.push(e))
            } else {
                m[k]
            },
    )
}

/// The entry is the deleted secret: same name and owner.
pub open spec fn is_deleted_entry(e: EntryView, name: Seq<char>, owner: Option<Seq<char>>) -> bool {
    e.0 == name && e.1 == owner
}

/// The cache after a secret is deleted: every loaded cache it belongs in
/// loses the entries with its name and owner.
pub open spec fn cache_after_delete(
    m: Map<KeyView, StateView>,
    harness: Harness,
    name: Seq<char>,
    owner: Option<Seq<char>>,
) -> Map<KeyView, StateView> {
    Map::new(
        |k: KeyView| m.dom().contains(k),
        |k: KeyView|
            if secret_applies(k, harness, owner) && m[k].0 == FetchKind::Loaded {
                (
                    FetchKind::Loaded,
                    m[k].1.filter(|x: EntryView| !is_deleted_entry(x, name, owner)),
                )
            } else {
                m[k]
            },
    )
}

proof fn lemma_filter_keeps_all(s: Seq<EntryView>, p: spec_fn(EntryView) -> bool)
    requires
        forall|i: int| 0 <= i < s.len() ==> p(#[trigger] s[i]),
    ensures
        s.filter(p) == s,
    decreases s.len(),
{
    reveal_with_fuel(Seq::<_>::filter, 1);
    if s.len() > 0 {
        let d = s.drop_last();
        assert forall|i: int| 0 <= i < d.len() implies p(#[trigger] d[i]) by {
            assert(d[i] == s[i]);
        }
        lemma_filter_keeps_all(d, p);
        assert(p(s[s.len() - 1]));
        assert(d.push(s.last()) =~= s);
    }
}

/// Deleting a secret right after creating it restores every cache, provided
/// no loaded cache the secret belongs in held an entry with its name and
/// owner before.
pub proof fn law_delete_undoes_create(m: Map<KeyView, StateView>, harness: Harness, e: EntryView)
    requires
        forall|k: KeyView|
            #![trigger m[k]]
            m.dom().contains(k) && secret_applies(k, harness, e.1) && m[k].0 == FetchKind::Loaded
                ==> forall|i: int| 0 <= i < m[k].1.len() ==> !is_deleted_entry(#[trigger] m[k].1[i], e.0, e.1),
    ensures
        cache_after_delete(cache_after_create(m, harness, e), harness, e.0, e.1) == m,
{
    let c = cache_after_create(m, harness, e);
    let d = cache_after_delete(c, harness, e.0, e.1);
    let keep = |x: EntryView| !is_deleted_entry(x, e.0, e.1);
    assert forall|k: KeyView| #[trigger] m.dom().contains(k) implies d[k] == m[k] by {
        if secret_applies(k, harness, e.1) && m[k].0 == FetchKind::Loaded {
            let s = m[k].1;
            lemma_filter_keeps_all(s, keep);
            reveal_with_fuel(Seq::<_>::filter, 1);
            assert(s.push(e).drop_last() =~= s);
            assert(s.push(e).filter(keep) == s.filter(keep));
        }
    }
    assert(d =~= m);
}

/// Creating a secret changes only the loaded caches of its harness in which
/// it belongs: all team scopes for the viewer's own secret, only the owning
/// team's scope for a team's secret. Each of those gains the secret at its
/// end; every other cache, the personal one included for a team's secret,
/// stays as it was, and no key is added or removed.
pub proof fn law_created_secret_joins_only_its_caches(
    m: Map<KeyView, StateView>,
    harness: Harness,
    e: EntryView,
)
    ensures
        cache_after_create(m, harness, e).dom() == m.dom(),
        forall|k: KeyView|
            #![trigger cache_after_create(m, harness, e)[k]]
            m.dom().contains(k) ==> {
                let belongs = k.1 == harness && (e.1 is None || k.0 == e.1);
                &&& (belongs && m[k].0 == FetchKind::Loaded) ==> cache_after_create(m, harness, e)[k]
                    == (FetchKind::Loaded, m[k].1.push(e))
                &&& !(belongs && m[k].0 == FetchKind::Loaded) ==> cache_after_create(
                    m,
                    harness,
                    e,
                )[k] == m[k]
            },
        forall|k: KeyView|
            #![trigger cache_after_create(m, harness, e)[k]]
            m.dom().contains(k) && cache_after_create(m, harness, e)[k] != m[k] ==> k.1 == harness
                && (e.1 is None || k.0 == e.1),
{
    assert(cache_after_create(m, harness, e).dom() =~= m.dom());
}

/// Deleting a secret changes only the loaded caches of its harness in which
/// it belongs (all team scopes for the viewer's own secret, only the owning
/// team's scope for a team's secret): each loses exactly the entries with the
/// secret's name and owner, keeping the others in order. Every other cache
/// stays as it was, and no key is added or removed.
pub proof fn law_deleted_secret_leaves_only_its_caches(
    m: Map<KeyView, StateView>,
    harness: Harness,
    name: Seq<char>,
    owner: Option<Seq<char>>,
)
    ensures
        cache_after_delete(m, harness, name, owner).dom() == m.dom(),
        forall|k: KeyView|
            #![trigger cache_after_delete(m, harness, name, owner)[k]]
            m.dom().contains(k) ==> {
                let belongs = k.1 == harness && (owner is None || k.0 == owner);
                &&& (belongs && m[k].0 == FetchKind::Loaded) ==> cache_after_delete(
                    m,
                    harness,
                    name,
                    owner,
                )[k] == (
                    FetchKind::Loaded,
                    m[k].1.filter(|x: EntryView| !(x.0 == name && x.1 == owner)),
                )
                &&& !(belongs && m[k].0 == FetchKind::Loaded) ==> cache_after_delete(
                    m,
                    harness,
                    name,
                    owner,
                )[k] == m[k]
            },
{
    assert(cache_after_delete(m, harness, name, owner).dom() =~= m.dom());
    assert forall|k: KeyView| #[trigger] m.dom().contains(k) implies {
        let belongs = k.1 == harness && (owner is None || k.0 == owner);
        (belongs && m[k].0 == FetchKind::Loaded) ==> cache_after_delete(m, harness, name, owner)[k]
            == (FetchKind::Loaded, m[k].1.filter(|x: EntryView| !(x.0 == name && x.1 == owner)))
    } by {
        assert((|x: EntryView| !is_deleted_entry(x, name, owner)) =~= (|x: EntryView|
            !(x.0 == name && x.1 == owner)));
    }
}

/// The keys of a cache list.
pub open spec fn cache_keys(v: Seq<(AuthSecretCacheKey, AuthSecretFetchState)>) -> Seq<KeyView> {
    v.map_values(|p: (AuthSecretCacheKey, AuthSecretFetchState)| p.0@)
}

/// No key occurs twice.
pub open spec fn keys_unique(k: Seq<KeyView>) -> bool {
    forall|i: int, j: int| 0 <= i < k.len() && 0 <= j < k.len() && i != j ==> #[trigger] k[i] != #[trigger] k[j]
}

/// The map of a list with unique keys.
pub open spec fn cache_map(v: Seq<(AuthSecretCacheKey, AuthSecretFetchState)>) -> Map<
    KeyView,
    StateView,
> {
    Map::new(
        |k: KeyView| exists|i: int| 0 <= i < v.len() && #[trigger] cache_keys(v)[i] == k,
        |k: KeyView|
            state_view(
                v[choose|i: int| 0 <= i < v.len() && #[trigger] cache_keys(v)[i] == k].1,
            ),
    )
}

/// Looks up a key in a list with unique keys.
proof fn lemma_cache_lookup(v: Seq<(AuthSecretCacheKey, AuthSecretFetchState)>, i: int)
    requires
        keys_unique(cache_keys(v)),
        0 <= i < v.len(),
    ensures
        cache_map(v).contains_key(v[i].0@),
        cache_map(v)[v[i].0@] == state_view(v[i].1),
{
    let k = v[i].0@;
    assert(cache_keys(v)[i] == k);
    let j = choose|j: int| 0 <= j < v.len() && #[trigger] cache_keys(v)[j] == k;
    assert(cache_keys(v)[j] == k);
}

/// The harnesses offered and the auth secrets fetched for each team scope
/// and harness.
pub struct HarnessAvailabilityModel {
    harnesses: Vec<Harness>,
    auth_secrets: Vec<(AuthSecretCacheKey, AuthSecretFetchState)>,
}

impl HarnessAvailabilityModel {
    #[verifier::type_invariant]
    spec fn unique_keys(self) -> bool {
        keys_unique(cache_keys(self.auth_secrets@))
    }

    /// The harnesses offered.
    pub closed spec fn harness_list(self) -> Seq<Harness> {
        self.harnesses@
    }

    /// The harnesses offered.
    pub fn harnesses(&self) -> (r: &Vec<Harness>)
        ensures
            r@ == self.harness_list(),
    {
        &self.harnesses
    }

    /// The cached fetch state of each key.
    pub closed spec fn cache(self) -> Map<KeyView, StateView> {
        cache_map(self.auth_secrets@)
    }

    /// A model with the given harnesses and cache entries; of two entries
    /// with one key the later one wins.
    pub fn new(
        harnesses: Vec<Harness>,
        auth_secrets: Vec<(AuthSecretCacheKey, AuthSecretFetchState)>,
    ) -> (r: Self)
        ensures
            r.harness_list() == harnesses@,
            r.cache() == cache_of_list(auth_secrets@),
    {
        let mut model = HarnessAvailabilityModel { harnesses, auth_secrets: Vec::new() };
        assert(cache_map(model.auth_secrets@) =~= Map::<KeyView, StateView>::empty());
        let ghost all = auth_secrets@;
        let mut rest = auth_secrets;
        let mut taken: Vec<(AuthSecretCacheKey, AuthSecretFetchState)> = Vec::new();
        proof {
            assert(all.take(0) =~= Seq::<(AuthSecretCacheKey, AuthSecretFetchState)>::empty());
        }
        let n = rest.len();
        let mut i: usize = 0;
        while i < n
            invariant
                n == all.len(),
                i <= n,
                rest@ == all.skip(i as int),
                model.harnesses@ == harnesses@,
                model.cache() == cache_of_list(all.take(i as int)),
            decreases n - i,
        {
            let (key, state) = rest.remove(0);
            proof {
                assert(all.skip(i as int)[0] == (key, state));
                assert(all.take(i + 1).drop_last() =~= all.take(i as int));
                assert(all.skip(i as int).drop_first() =~= all.skip(i + 1));
            }
            model.put(key, state);
            i = i + 1;
        }
        assert(all.take(n as int) =~= all);
        model
    }

    /// Stores `state` under `key`, replacing an earlier state.
    pub fn put(&mut self, key: AuthSecretCacheKey, state: AuthSecretFetchState)
        ensures
            final(self).cache() == old(self).cache().insert(key@, state_view(state)),
            final(self).harness_list() == old(self).harness_list(),
    {
        proof {
            use_type_invariant(&*self);
        }
        let mut list: Vec<(AuthSecretCacheKey, AuthSecretFetchState)> = Vec::new();
        std::mem::swap(&mut list, &mut self.auth_secrets);
        let ghost old_list = list@;
        let mut i: usize = 0;
        while i < list.len()
            invariant
                list@ == old_list,
                i <= list.len(),
                forall|j: int| 0 <= j < i ==> #[trigger] cache_keys(list@)[j] != key@,
            ensures
                list@ == old_list,
                i <= list.len(),
                forall|j: int| 0 <= j < i ==> #[trigger] cache_keys(list@)[j] != key@,
                i < list.len() ==> cache_keys(list@)[i as int] == key@,
            decreases list.len() - i,
        {
            if list[i].0.same_as(&key) {
                break;
            }
            i = i + 1;
        }
        let ghost kv = key@;
        let ghost sv = state_view(state);
        if i < list.len() && list[i].0.same_as(&key) {
            list.set(i, (key, state));
            proof {
                let nl = list@;
                assert(cache_keys(nl) =~= cache_keys(old_list));
                assert forall|k: KeyView| #[trigger] cache_map(nl).contains_key(k) == cache_map(old_list).insert(kv, sv).contains_key(k) by {
                    if cache_map(old_list).contains_key(k) {
                        let j = choose|j: int| 0 <= j < old_list.len() && #[trigger] cache_keys(old_list)[j] == k;
                        assert(cache_keys(nl)[j] == k);
                    }
                    if k == kv {
                        assert(cache_keys(nl)[i as int] == k);
                    }
                }
                assert forall|k: KeyView| #[trigger] cache_map(nl).contains_key(k) implies cache_map(nl)[k] == cache_map(old_list).insert(kv, sv)[k] by {
                    let j = choose|j: int| 0 <= j < nl.len() && #[trigger] cache_keys(nl)[j] == k;
                    lemma_cache_lookup(nl, j);
                    assert(cache_keys(nl)[i as int] == kv);
                    if j != i {
                        lemma_cache_lookup(old_list, j);
                        assert(nl[j] == old_list[j]);
                    }
                }
                assert(cache_map(nl) =~= cache_map(old_list).insert(kv, sv));
            }
        } else {
            proof {
                assert(forall|j: int| 0 <= j < old_list.len() ==> #[trigger] cache_keys(old_list)[j] != kv);
            }
            list.push((key, state));
            proof {
                let nl = list@;
                assert(forall|j: int| 0 <= j < old_list.len() ==> #[trigger] cache_keys(nl)[j] == cache_keys(old_list)[j]);
                assert(cache_keys(nl)[old_list.len() as int] == kv);
                assert(keys_unique(cache_keys(nl)));
                assert forall|k: KeyView| #[trigger] cache_map(nl).contains_key(k) == cache_map(old_list).insert(kv, sv).contains_key(k) by {
                    if cache_map(old_list).contains_key(k) {
                        let j = choose|j: int| 0 <= j < old_list.len() && #[trigger] cache_keys(old_list)[j] == k;
                        assert(cache_keys(nl)[j] == k);
                    }
                    if cache_map(nl).contains_key(k) && k != kv {
                        let j = choose|j: int| 0 <= j < nl.len() && #[trigger] cache_keys(nl)[j] == k;
                        assert(j < old_list.len());
                        assert(cache_keys(old_list)[j] == k);
                    }
                    if k == kv {
                        assert(cache_keys(nl)[old_list.len() as int] == k);
                    }
                }
                assert forall|k: KeyView| #[trigger] cache_map(nl).contains_key(k) implies cache_map(nl)[k] == cache_map(old_list).insert(kv, sv)[k] by {
                    let j = choose|j: int| 0 <= j < nl.len() && #[trigger] cache_keys(nl)[j] == k;
                    lemma_cache_lookup(nl, j);
                    if j < old_list.len() {
                        lemma_cache_lookup(old_list, j);
                        assert(nl[j] == old_list[j]);
                    }
                }
                assert(cache_map(nl) =~= cache_map(old_list).insert(kv, sv));
            }
        }
        self.auth_secrets = list;
    }

    /// The auth secrets known for `harness` in `scope`; not fetched when the
    /// cache holds nothing for them.
    pub fn auth_secrets_for(&self, scope: &TeamContextForOperation, harness: Harness) -> (r:
        AuthSecretFetchState)
        ensures
            state_view(r) == if self.cache().contains_key((scope.team(), harness)) {
                self.cache()[(scope.team(), harness)]
            } else {
                (FetchKind::NotFetched, Seq::<EntryView>::empty())
            },
    {
        proof {
            use_type_invariant(self);
        }
        let key = AuthSecretCacheKey::new(scope, harness);
        let mut i: usize = 0;
        while i < self.auth_secrets.len()
            invariant
                i <= self.auth_secrets@.len(),
                forall|j: int| 0 <= j < i ==> #[trigger] cache_keys(self.auth_secrets@)[j] != key@,
                key@ == (scope.team(), harness),
            decreases self.auth_secrets@.len() - i,
        {
            if self.auth_secrets[i].0.same_as(&key) {
                proof {
                    use_type_invariant(self);
                    lemma_cache_lookup(self.auth_secrets@, i as int);
                }
                return self.auth_secrets[i].1.clone();
            }
            i = i + 1;
        }
        AuthSecretFetchState::NotFetched
    }

    /// Records a secret the viewer has just created for the harness of
    /// `key`: it joins every loaded cache it belongs in.
    pub fn insert_created_auth_secret_entry(&mut self, key: AuthSecretCacheKey, entry: AuthSecretEntry)
        ensures
            final(self).cache() == cache_after_create(old(self).cache(), key@.1, entry_view(entry)),
            final(self).harness_list() == old(self).harness_list(),
    {
        proof {
            use_type_invariant(&*self);
        }
        let harness = key.harness();
        let mut list: Vec<(AuthSecretCacheKey, AuthSecretFetchState)> = Vec::new();
        std::mem::swap(&mut list, &mut self.auth_secrets);
        let ghost old_list = list@;
        let ghost ev = entry_view(entry);
        let mut i: usize = 0;
        while i < list.len()
            invariant
                i <= list.len(),
                list.len() == old_list.len(),
                cache_keys(list@) == cache_keys(old_list),
                ev == entry_view(entry),
                forall|j: int| i <= j < list.len() ==> #[trigger] list@[j] == old_list[j],
                forall|j: int| 0 <= j < i ==> #[trigger] state_view(list@[j].1) == {
                    let s = state_view(old_list[j].1);
                    if secret_applies(old_list[j].0@, harness, ev.1) && s.0 == FetchKind::Loaded {
                        (FetchKind::Loaded, s.1.push(ev))
                    } else {
                        s
                    }
                },
            decreases list.len() - i,
        {
            let applies = self::applies_to(&list[i].0, harness, &entry.owner);
            let new_state = match &list[i].1 {
                AuthSecretFetchState::Loaded(v) => if applies {
                    let mut nv = clone_entries(v);
                    nv.push(entry.clone());
                    assert(entries_view(nv@) =~= entries_view(v@).push(ev));
                    Some(AuthSecretFetchState::Loaded(nv))
                } else {
                    None
                },
                _ => None,
            };
            match new_state {
                Some(s) => {
                    let k = list[i].0.clone();
                    let ghost before = list@;
                    list.set(i, (k, s));
                    assert(cache_keys(list@) =~= cache_keys(before));
                },
                None => {},
            }
            i = i + 1;
        }
        proof {
            let nl = list@;
            let m = cache_after_create(cache_map(old_list), harness, ev);
            assert forall|k: KeyView| #[trigger] cache_map(nl).contains_key(k) == m.contains_key(k) by {
                if cache_map(old_list).contains_key(k) {
                    let j = choose|j: int| 0 <= j < old_list.len() && #[trigger] cache_keys(old_list)[j] == k;
                    assert(cache_keys(nl)[j] == k);
                }
                if cache_map(nl).contains_key(k) {
                    let j = choose|j: int| 0 <= j < nl.len() && #[trigger] cache_keys(nl)[j] == k;
                    assert(cache_keys(old_list)[j] == k);
                }
            }
            assert forall|k: KeyView| #[trigger] cache_map(nl).contains_key(k) implies cache_map(nl)[k] == m[k] by {
                let j = choose|j: int| 0 <= j < nl.len() && #[trigger] cache_keys(nl)[j] == k;
                assert(cache_keys(old_list)[j] == k);
                lemma_cache_lookup(nl, j);
                lemma_cache_lookup(old_list, j);
                assert(state_view(nl[j].1) == state_view(list@[j].1));
            }
            assert(cache_map(nl) =~= m);
        }
        self.auth_secrets = list;
    }

    /// Records that the viewer deleted the secret `name` owned by `owner`
    /// for the harness of `key`: it leaves every loaded cache it belongs in.
    pub fn remove_deleted_auth_secret_entries(&mut self, key: AuthSecretCacheKey, name: &str, owner: &SecretOwner)
        ensures
            final(self).cache() == cache_after_delete(old(self).cache(), key@.1, name@, owner_view(*owner)),
            final(self).harness_list() == old(self).harness_list(),
    {
        proof {
            use_type_invariant(&*self);
        }
        let harness = key.harness();
        let mut list: Vec<(AuthSecretCacheKey, AuthSecretFetchState)> = Vec::new();
        std::mem::swap(&mut list, &mut self.auth_secrets);
        let ghost old_list = list@;
        let ghost ov = owner_view(*owner);
        let mut i: usize = 0;
        while i < list.len()
            invariant
                i <= list.len(),
                list.len() == old_list.len(),
                cache_keys(list@) == cache_keys(old_list),
                ov == owner_view(*owner),
                forall|j: int| i <= j < list.len() ==> #[trigger] list@[j] == old_list[j],
                forall|j: int| 0 <= j < i ==> #[trigger] state_view(list@[j].1) == {
                    let s = state_view(old_list[j].1);
                    if secret_applies(old_list[j].0@, harness, ov) && s.0 == FetchKind::Loaded {
                        (FetchKind::Loaded, s.1.filter(|x: EntryView| !is_deleted_entry(x, name@, ov)))
                    } else {
                        s
                    }
                },
            decreases list.len() - i,
        {
            let applies = self::applies_to(&list[i].0, harness, owner);
            let new_state = match &list[i].1 {
                AuthSecretFetchState::Loaded(v) => if applies {
                    Some(AuthSecretFetchState::Loaded(without_entry(v, name, owner)))
                } else {
                    None
                },
                _ => None,
            };
            match new_state {
                Some(s) => {
                    let k = list[i].0.clone();
                    let ghost before = list@;
                    list.set(i, (k, s));
                    assert(cache_keys(list@) =~= cache_keys(before));
                },
                None => {},
            }
            i = i + 1;
        }
        proof {
            let nl = list@;
            let m = cache_after_delete(cache_map(old_list), harness, name@, ov);
            assert forall|k: KeyView| #[trigger] cache_map(nl).contains_key(k) == m.contains_key(k) by {
                if cache_map(old_list).contains_key(k) {
                    let j = choose|j: int| 0 <= j < old_list.len() && #[trigger] cache_keys(old_list)[j] == k;
                    assert(cache_keys(nl)[j] == k);
                }
                if cache_map(nl).contains_key(k) {
                    let j = choose|j: int| 0 <= j < nl.len() && #[trigger] cache_keys(nl)[j] == k;
                    assert(cache_keys(old_list)[j] == k);
                }
            }
            assert forall|k: KeyView| #[trigger] cache_map(nl).contains_key(k) implies cache_map(nl)[k] == m[k] by {
                let j = choose|j: int| 0 <= j < nl.len() && #[trigger] cache_keys(nl)[j] == k;
                assert(cache_keys(old_list)[j] == k);
                lemma_cache_lookup(nl, j);
                lemma_cache_lookup(old_list, j);
                assert(state_view(nl[j].1) == state_view(list@[j].1));
            }
            assert(cache_map(nl) =~= m);
        }
        self.auth_secrets = list;
    }
}

/// The map of a list of cache entries inserted in order.
pub open spec fn cache_of_list(v: Seq<(AuthSecretCacheKey, AuthSecretFetchState)>) -> Map<
    KeyView,
    StateView,
>
    decreases v.len(),
{
    if v.len() == 0 {
        Map::empty()
    } else {
        cache_of_list(v.drop_last()).insert(v.last().0@, state_view(v.last().1))
    }
}

fn same_owner(a: &SecretOwner, b: &SecretOwner) -> (r: bool)
    ensures
        r == (owner_view(*a) == owner_view(*b)),
{
    match (a, b) {
        (SecretOwner::CurrentUser, SecretOwner::CurrentUser) => true,
        (SecretOwner::Team { team_uid: x }, SecretOwner::Team { team_uid: y }) => str_eq(
            x.as_str(),
            y.as_str(),
        ),
        _ => false,
    }
}

fn applies_to(key: &AuthSecretCacheKey, harness: Harness, owner: &SecretOwner) -> (r: bool)
    ensures
        r == secret_applies(key@, harness, owner_view(*owner)),
{
    if key.harness != harness {
        return false;
    }
    match owner {
        SecretOwner::CurrentUser => true,
        SecretOwner::Team { team_uid } => match &key.team_uid {
            Some(id) => str_eq(id.uid_str(), team_uid.as_str()),
            None => false,
        },
    }
}

fn without_entry(v: &Vec<AuthSecretEntry>, name: &str, owner: &SecretOwner) -> (r: Vec<
    AuthSecretEntry,
>)
    ensures
        entries_view(r@) == entries_view(v@).filter(
            |x: EntryView| !is_deleted_entry(x, name@, owner_view(*owner)),
        ),
{
    let ghost keep = |x: EntryView| !is_deleted_entry(x, name@, owner_view(*owner));
    let mut r: Vec<AuthSecretEntry> = Vec::new();
    let mut i: usize = 0;
    assert(entries_view(v@).take(0).filter(keep) =~= Seq::<EntryView>::empty());
    assert(entries_view(r@) =~= Seq::<EntryView>::empty());
    while i < v.len()
        invariant
            i <= v.len(),
            keep == (|x: EntryView| !is_deleted_entry(x, name@, owner_view(*owner))),
            entries_view(r@) == entries_view(v@).take(i as int).filter(keep),
        decreases v.len() - i,
    {
        let ghost before = entries_view(r@);
        proof {
            reveal_with_fuel(Seq::<_>::filter, 1);
            assert(entries_view(v@).take(i + 1).drop_last() =~= entries_view(v@).take(i as int));
            assert(entries_view(v@).take(i + 1).last() == entry_view(v@[i as int]));
        }
        let deleted = str_eq(v[i].name.as_str(), name) && same_owner(&v[i].owner, owner);
        if !deleted {
            r.push(v[i].clone());
            assert(entries_view(r@) =~= before.push(entry_view(v@[i as int])));
        }
        i = i + 1;
    }
    assert(entries_view(v@).take(i as int) =~= entries_view(v@));
    r
}

} // verus!
