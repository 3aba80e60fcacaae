//! The auth secret a user prefers for each harness, remembered per team
//! scope, with the older per-harness selection as a fallback.
use crate::harness_availability::{harness_config_name, Harness};
use crate::ids::TeamContextForOperation;
use crate::string_map::StringMap;
use crate::text::str_eq;
use vstd::prelude::*;

verus! {

/// Which auth secret a cloud agent run uses.
#[derive(Debug)]
pub enum AuthSecretPreference {
    /// Use the secret the environment provides.
    Inherit,
    /// Use the named secret.
    Named(String),
}

/// A preference as the secret's name; none for inheriting.
pub open spec fn preference_view(p: AuthSecretPreference) -> Option<Seq<char>> {
    match p {
        AuthSecretPreference::Inherit => None,
        AuthSecretPreference::Named(n) => Some(n@),
    }
}

impl Clone for AuthSecretPreference {
    fn clone(&self) -> (r: Self)
        ensures
            r == *self,
    {
        match self {
            AuthSecretPreference::Inherit => AuthSecretPreference::Inherit,
            AuthSecretPreference::Named(n) => AuthSecretPreference::Named(n.clone()),
        }
    }
}

/// The team scope a preference is stored under, as persisted: the team's
/// UID, or none for the personal scope.
pub struct AuthSecretPreferenceScope {
    pub team_uid: Option<String>,
}

/// A scope as the team's UID.
pub open spec fn scope_view(s: AuthSecretPreferenceScope) -> Option<Seq<char>> {
    match s.team_uid {
        Some(u) => Some(u@),
        None => None,
    }
}

impl AuthSecretPreferenceScope {
    /// The persisted form of an operation scope.
    pub fn from_scope(scope: &TeamContextForOperation) -> (r: Self)
        ensures
            scope_view(r) == scope.team(),
    {
        match scope.team_uid() {
            Some(id) => AuthSecretPreferenceScope { team_uid: Some(id.uid()) },
            None => AuthSecretPreferenceScope { team_uid: None },
        }
    }
}

/// A preference key: the team scope and the harness.
pub type PreferenceKey = (Option<Seq<char>>, Harness);

/// One stored preference.
pub struct ScopedPreference {
    pub scope: AuthSecretPreferenceScope,
    pub harness: Harness,
    pub preference: AuthSecretPreference,
}

/// A stored preference as its key and value.
pub open spec fn scoped_view(p: ScopedPreference) -> (PreferenceKey, Option<Seq<char>>) {
    ((scope_view(p.scope), p.harness), preference_view(p.preference))
}

/// The preferences stored in a list, a later one replacing an earlier one
/// with the same key.
pub open spec fn preference_map(v: Seq<ScopedPreference>) -> Map<PreferenceKey, Option<Seq<char>>>
    decreases v.len(),
{
    if v.len() == 0 {
        Map::empty()
    } else {
        preference_map(v.drop_last()).insert(scoped_view(v.last()).0, scoped_view(v.last()).1)
    }
}

/// The preference read for a key: the stored one, else the legacy
/// selection for the harness, else none.
pub open spec fn effective_preference(
    scoped: Map<PreferenceKey, Option<Seq<char>>>,
    legacy: Map<Seq<char>, Seq<char>>,
    key: PreferenceKey,
) -> Option<Option<Seq<char>>> {
    if scoped.contains_key(key) {
        Some(scoped[key])
    } else if legacy.contains_key(harness_config_name(key.1)) {
        Some(Some(legacy[harness_config_name(key.1)]))
    } else {
        None
    }
}

/// Dropping every entry of one key from a list drops the key from its map.
proof fn lemma_preference_map_filter(v: Seq<ScopedPreference>, key: PreferenceKey)
    ensures
        preference_map(v.filter(|p: ScopedPreference| scoped_view(p).0 != key)) == preference_map(
            v,
        ).remove(key),
    decreases v.len(),
{
    let f = |p: ScopedPreference| scoped_view(p).0 != key;
    reveal_with_fuel(Seq::<_>::filter, 1);
    if v.len() == 0 {
        assert(preference_map(v.filter(f)) =~= preference_map(v).remove(key));
    } else {
        let d = v.drop_last();
        lemma_preference_map_filter(d, key);
        let last = v.last();
        assert(v.filter(f) == if f(last) {
            d.filter(f).push(last)
        } else {
            d.filter(f)
        });
        if f(last) {
            assert(d.filter(f).push(last).drop_last() =~= d.filter(f));
            assert(preference_map(d.filter(f).push(last)) == preference_map(d.filter(f)).insert(
                scoped_view(last).0,
                scoped_view(last).1,
            ));
        }
        assert(preference_map(v) == preference_map(d).insert(scoped_view(last).0, scoped_view(last).1));
        assert(preference_map(v.filter(f)) =~= preference_map(v).remove(key));
    }
}

/// Cloud agent settings: per-scope auth secret preferences and the legacy
/// per-harness selection (harness name to secret name).
pub struct CloudAgentSettings {
    auth_secret_preferences: Vec<ScopedPreference>,
    last_selected_auth_secret: StringMap,
}

impl CloudAgentSettings {
    /// The stored per-scope preferences.
    pub closed spec fn scoped(self) -> Map<PreferenceKey, Option<Seq<char>>> {
        preference_map(self.auth_secret_preferences@)
    }

    /// The legacy per-harness selection.
    pub closed spec fn legacy(self) -> Map<Seq<char>, Seq<char>> {
        self.last_selected_auth_secret@
    }

    /// Settings with nothing stored.
    pub fn new() -> (r: Self)
        ensures
            r.scoped() == Map::<PreferenceKey, Option<Seq<char>>>::empty(),
            r.legacy() == Map::<Seq<char>, Seq<char>>::empty(),
    {
        let r = CloudAgentSettings {
            auth_secret_preferences: Vec::new(),
            last_selected_auth_secret: StringMap::new(),
        };
        assert(r.scoped() =~= Map::<PreferenceKey, Option<Seq<char>>>::empty());
        r
    }

    /// The legacy selection (harness name to secret name).
    pub fn last_selected_auth_secret(&self) -> (r: &StringMap)
        ensures
            r@ == self.legacy(),
    {
        &self.last_selected_auth_secret
    }

    /// Replaces the legacy selection.
    pub fn set_last_selected_auth_secret(&mut self, value: StringMap)
        ensures
            final(self).legacy() == value@,
            final(self).scoped() == old(self).scoped(),
    {
        self.last_selected_auth_secret = value;
    }

    /// The auth secret preferred for `harness` in `scope`: the one stored
    /// for that scope, else the legacy selection for the harness.
    pub fn auth_secret_preference(&self, scope: &TeamContextForOperation, harness: Harness) -> (r:
        Option<AuthSecretPreference>)
        ensures
            match r {
                Some(p) => effective_preference(self.scoped(), self.legacy(), (scope.team(), harness))
                    == Some(preference_view(p)),
                None => effective_preference(self.scoped(), self.legacy(), (scope.team(), harness))
                    is None,
            },
    {
        let key_scope = AuthSecretPreferenceScope::from_scope(scope);
        let ghost key = (scope.team(), harness);
        let v = &self.auth_secret_preferences;
        let mut i: usize = v.len();
        assert(v@.take(v@.len() as int) =~= v@);
        while i > 0
            invariant
                i <= v@.len(),
                v@ == self.auth_secret_preferences@,
                scope_view(key_scope) == scope.team(),
                key == (scope_view(key_scope), harness),
                preference_map(v@.take(i as int)).contains_key(key) == preference_map(
                    v@,
                ).contains_key(key),
                preference_map(v@).contains_key(key) ==> preference_map(v@.take(i as int))[key]
                    == preference_map(v@)[key],
            decreases i,
        {
            let p = &v[i - 1];
            let ghost t = v@.take(i as int);
            assert(t.drop_last() =~= v@.take(i - 1));
            assert(t.last() == v@[i - 1]);
            if p.harness == harness && same_scope(&p.scope, &key_scope) {
                assert(scoped_view(t.last()).0 == key);
                assert(preference_map(t) == preference_map(t.drop_last()).insert(
                    scoped_view(t.last()).0,
                    scoped_view(t.last()).1,
                ));
                assert(preference_map(t)[key] == preference_view(p.preference));
                return Some(p.preference.clone());
            }
            i = i - 1;
        }
        assert(v@.take(0) =~= Seq::<ScopedPreference>::empty());
        match self.last_selected_auth_secret.get(harness.config_name()) {
            Some(name) => Some(AuthSecretPreference::Named(name.clone())),
            None => None,
        }
    }

    /// Stores (`Some`) or forgets (`None`) the preference for `harness` in
    /// `scope`. Other scopes, other harnesses and the legacy selection are
    /// left as they were.
    pub fn persist_auth_secret_preference(
        &mut self,
        scope: &TeamContextForOperation,
        harness: Harness,
        preference: Option<AuthSecretPreference>,
    )
        ensures
            final(self).scoped() == match preference {
                Some(p) => old(self).scoped().insert((scope.team(), harness), preference_view(p)),
                None => old(self).scoped().remove((scope.team(), harness)),
            },
            final(self).legacy() == old(self).legacy(),
    {
        let key_scope = AuthSecretPreferenceScope::from_scope(scope);
        let ghost key: PreferenceKey = (scope.team(), harness);
        let ghost f = |p: ScopedPreference| scoped_view(p).0 != key;
        let old_list = &self.auth_secret_preferences;
        let mut kept: Vec<ScopedPreference> = Vec::new();
        let mut i: usize = 0;
        assert(old_list@.take(0).filter(f) =~= Seq::<ScopedPreference>::empty());
        while i < old_list.len()
            invariant
                i <= old_list@.len(),
                key == (scope_view(key_scope), harness),
                f == (|p: ScopedPreference| scoped_view(p).0 != key),
                kept@ == old_list@.take(i as int).filter(f),
            decreases old_list@.len() - i,
        {
            proof {
                reveal_with_fuel(Seq::<_>::filter, 1);
                assert(old_list@.take(i + 1).drop_last() =~= old_list@.take(i as int));
            }
            let p = &old_list[i];
            if !(p.harness == harness && same_scope(&p.scope, &key_scope)) {
                let copy = ScopedPreference {
                    scope: copy_scope(&p.scope),
                    harness: p.harness,
                    preference: p.preference.clone(),
                };
                kept.push(copy);
            }
            i = i + 1;
        }
        proof {
            assert(old_list@.take(i as int) =~= old_list@);
            lemma_preference_map_filter(old_list@, key);
        }
        let ghost filtered = kept@;
        match preference {
            Some(p) => {
                kept.push(ScopedPreference { scope: key_scope, harness, preference: p });
                assert(kept@.drop_last() =~= filtered);
                assert(preference_map(kept@) =~= preference_map(old_list@).insert(
                    key,
                    preference_view(p),
                ));
            },
            None => {
                assert(preference_map(kept@) =~= preference_map(old_list@).remove(key));
            },
        }
        self.auth_secret_preferences = kept;
    }
}

fn same_scope(a: &AuthSecretPreferenceScope, b: &AuthSecretPreferenceScope) -> (r: bool)
    ensures
        r == (scope_view(*a) == scope_view(*b)),
{
    match (&a.team_uid, &b.team_uid) {
        (Some(x), Some(y)) => str_eq(x.as_str(), y.as_str()),
        (None, None) => true,
        _ => false,
    }
}

fn copy_scope(a: &AuthSecretPreferenceScope) -> (r: AuthSecretPreferenceScope)
    ensures
        r == *a,
{
    match &a.team_uid {
        Some(u) => AuthSecretPreferenceScope { team_uid: Some(u.clone()) },
        None => AuthSecretPreferenceScope { team_uid: None },
    }
}

/// A stored preference is what is read back for its scope and harness,
/// whatever the legacy selection holds.
pub proof fn law_read_after_persist(
    scoped: Map<PreferenceKey, Option<Seq<char>>>,
    legacy: Map<Seq<char>, Seq<char>>,
    key: PreferenceKey,
    value: Option<Seq<char>>,
)
    ensures
        effective_preference(scoped.insert(key, value), legacy, key) == Some(value),
{
}

/// Forgetting a stored preference falls back to the legacy selection.
pub proof fn law_forget_falls_back(
    scoped: Map<PreferenceKey, Option<Seq<char>>>,
    legacy: Map<Seq<char>, Seq<char>>,
    key: PreferenceKey,
)
    ensures
        effective_preference(scoped.remove(key), legacy, key) == if legacy.contains_key(
            harness_config_name(key.1),
        ) {
            Some(Some(legacy[harness_config_name(key.1)]))
        } else {
            None
        },
{
}

/// Storing a preference for one scope and harness leaves what is read for
/// every other scope or harness unchanged.
pub proof fn law_persist_is_isolated(
    scoped: Map<PreferenceKey, Option<Seq<char>>>,
    legacy: Map<Seq<char>, Seq<char>>,
    key: PreferenceKey,
    value: Option<Option<Seq<char>>>,
    other: PreferenceKey,
)
    requires
        other != key,
    ensures
        effective_preference(
            match value {
                Some(v) => scoped.insert(key, v),
                None => scoped.remove(key),
            },
            legacy,
            other,
        ) == effective_preference(scoped, legacy, other),
{
}

} // verus!
