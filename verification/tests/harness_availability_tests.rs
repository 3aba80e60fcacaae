use warp_client::harness_availability::{
    default_harnesses, AuthSecretCacheKey, AuthSecretEntry, AuthSecretFetchState, Harness,
    HarnessAvailabilityModel, SecretOwner,
};
use warp_client::ids::{ServerId, TeamContextForOperation};

fn team_scope(team_uid: u64) -> TeamContextForOperation {
    TeamContextForOperation::for_team(ServerId::from_number(team_uid))
}

fn teamless_scope() -> TeamContextForOperation {
    TeamContextForOperation::teamless()
}

#[test]
fn auth_secret_cache_key_distinguishes_team_scope_and_harness() {
    assert_ne!(
        AuthSecretCacheKey::new(&team_scope(7), Harness::Claude),
        AuthSecretCacheKey::new(&team_scope(8), Harness::Claude)
    );
    assert_ne!(
        AuthSecretCacheKey::new(&teamless_scope(), Harness::Claude),
        AuthSecretCacheKey::new(&teamless_scope(), Harness::Codex)
    );
}

#[test]
fn window_team_switch_reads_only_the_new_team_cache() {
    let window_a_initial_scope = team_scope(7);
    let window_b_scope = team_scope(8);
    let model = HarnessAvailabilityModel::new(
        default_harnesses(),
        vec![
            (
                AuthSecretCacheKey::new(&window_a_initial_scope, Harness::Claude),
                AuthSecretFetchState::Loaded(vec![AuthSecretEntry {
                    name: "team-a".to_string(),
                    owner: SecretOwner::CurrentUser,
                }]),
            ),
            (
                AuthSecretCacheKey::new(&window_b_scope, Harness::Claude),
                AuthSecretFetchState::Loaded(vec![AuthSecretEntry {
                    name: "team-b".to_string(),
                    owner: SecretOwner::CurrentUser,
                }]),
            ),
        ],
    );

    assert!(matches!(
        model.auth_secrets_for(&window_a_initial_scope, Harness::Claude),
        AuthSecretFetchState::Loaded(entries) if entries[0].name == "team-a"
    ));

    let window_a_after_switch = window_b_scope;
    assert!(matches!(
        model.auth_secrets_for(&window_a_after_switch, Harness::Claude),
        AuthSecretFetchState::Loaded(entries) if entries[0].name == "team-b"
    ));
}

#[test]
fn personal_secret_mutations_update_every_team_cache() {
    let team_a = team_scope(7);
    let team_b = team_scope(8);
    let key_a = AuthSecretCacheKey::new(&team_a, Harness::Claude);
    let key_b = AuthSecretCacheKey::new(&team_b, Harness::Claude);
    let mut model = HarnessAvailabilityModel::new(
        default_harnesses(),
        vec![
            (key_a.clone(), AuthSecretFetchState::Loaded(Vec::new())),
            (key_b, AuthSecretFetchState::Loaded(Vec::new())),
        ],
    );
    let entry = AuthSecretEntry {
        name: "personal".to_string(),
        owner: SecretOwner::CurrentUser,
    };

    model.insert_created_auth_secret_entry(key_a.clone(), entry);

    assert!(matches!(
        model.auth_secrets_for(&team_a, Harness::Claude),
        AuthSecretFetchState::Loaded(entries) if entries.len() == 1
    ));
    assert!(matches!(
        model.auth_secrets_for(&team_b, Harness::Claude),
        AuthSecretFetchState::Loaded(entries) if entries.len() == 1
    ));

    model.remove_deleted_auth_secret_entries(key_a, "personal", &SecretOwner::CurrentUser);

    assert!(matches!(
        model.auth_secrets_for(&team_a, Harness::Claude),
        AuthSecretFetchState::Loaded(entries) if entries.is_empty()
    ));
    assert!(matches!(
        model.auth_secrets_for(&team_b, Harness::Claude),
        AuthSecretFetchState::Loaded(entries) if entries.is_empty()
    ));
}

#[test]
fn team_secret_mutations_update_only_the_owner_team_cache() {
    let team_a = team_scope(7);
    let team_b = team_scope(8);
    let key_a = AuthSecretCacheKey::new(&team_a, Harness::Claude);
    let key_b = AuthSecretCacheKey::new(&team_b, Harness::Claude);
    let mut model = HarnessAvailabilityModel::new(
        default_harnesses(),
        vec![
            (key_a.clone(), AuthSecretFetchState::Loaded(Vec::new())),
            (key_b, AuthSecretFetchState::Loaded(Vec::new())),
        ],
    );
    let entry = AuthSecretEntry {
        name: "team".to_string(),
        owner: SecretOwner::Team {
            team_uid: team_a.team_uid().unwrap().uid(),
        },
    };

    model.insert_created_auth_secret_entry(key_a, entry);

    assert!(matches!(
        model.auth_secrets_for(&team_a, Harness::Claude),
        AuthSecretFetchState::Loaded(entries) if entries.len() == 1
    ));
    assert!(matches!(
        model.auth_secrets_for(&team_b, Harness::Claude),
        AuthSecretFetchState::Loaded(entries) if entries.is_empty()
    ));
}

#[test]
fn missing_cache_entry_reads_as_not_fetched_and_other_harnesses_are_untouched() {
    let team_a = team_scope(7);
    let key_claude = AuthSecretCacheKey::new(&team_a, Harness::Claude);
    let key_codex = AuthSecretCacheKey::new(&team_a, Harness::Codex);
    let mut model = HarnessAvailabilityModel::new(
        default_harnesses(),
        vec![
            (key_claude.clone(), AuthSecretFetchState::Loading),
            (key_codex, AuthSecretFetchState::Loaded(Vec::new())),
            (key_claude.clone(), AuthSecretFetchState::Loaded(Vec::new())),
        ],
    );
    assert_eq!(model.harnesses(), &vec![Harness::Claude, Harness::Codex, Harness::Gemini]);
    assert!(matches!(
        model.auth_secrets_for(&teamless_scope(), Harness::Claude),
        AuthSecretFetchState::NotFetched
    ));
    model.insert_created_auth_secret_entry(
        key_claude,
        AuthSecretEntry { name: "mine".to_string(), owner: SecretOwner::CurrentUser },
    );
    assert!(matches!(
        model.auth_secrets_for(&team_a, Harness::Claude),
        AuthSecretFetchState::Loaded(entries) if entries.len() == 1 && entries[0].name == "mine"
    ));
    assert!(matches!(
        model.auth_secrets_for(&team_a, Harness::Codex),
        AuthSecretFetchState::Loaded(entries) if entries.is_empty()
    ));
    assert_eq!(Harness::Claude.config_name(), "claude_code");
}
