use warp_client::cloud_agent_settings::{
    AuthSecretPreference, AuthSecretPreferenceScope, CloudAgentSettings,
};
use warp_client::harness_availability::Harness;
use warp_client::ids::{ServerId, TeamContextForOperation};
use warp_client::string_map::StringMap;

fn team_scope(team_uid: u64) -> TeamContextForOperation {
    TeamContextForOperation::for_team(ServerId::from_number(team_uid))
}

fn is_named(p: Option<AuthSecretPreference>, name: &str) -> bool {
    matches!(p, Some(AuthSecretPreference::Named(n)) if n == name)
}

fn is_inherit(p: Option<AuthSecretPreference>) -> bool {
    matches!(p, Some(AuthSecretPreference::Inherit))
}

#[test]
fn scoped_auth_secret_preferences_are_isolated_by_team() {
    let mut settings = CloudAgentSettings::new();
    let team_a = team_scope(7);
    let team_b = team_scope(8);

    settings.persist_auth_secret_preference(
        &team_a,
        Harness::Claude,
        Some(AuthSecretPreference::Named("team-a".to_string())),
    );
    settings.persist_auth_secret_preference(
        &team_b,
        Harness::Claude,
        Some(AuthSecretPreference::Inherit),
    );

    assert!(is_named(
        settings.auth_secret_preference(&team_a, Harness::Claude),
        "team-a"
    ));
    assert!(is_inherit(
        settings.auth_secret_preference(&team_b, Harness::Claude)
    ));
    assert!(settings
        .auth_secret_preference(&team_a, Harness::Codex)
        .is_none());
}

#[test]
fn scoped_preferences_override_legacy_fallback() {
    let mut settings = CloudAgentSettings::new();
    let teamless = TeamContextForOperation::teamless();
    let team = team_scope(7);

    let mut legacy = StringMap::new();
    legacy.insert(
        Harness::Claude.config_name().to_string(),
        "legacy".to_string(),
    );
    settings.set_last_selected_auth_secret(legacy);

    assert!(is_named(
        settings.auth_secret_preference(&teamless, Harness::Claude),
        "legacy"
    ));
    assert!(is_named(
        settings.auth_secret_preference(&team, Harness::Claude),
        "legacy"
    ));

    settings.persist_auth_secret_preference(
        &teamless,
        Harness::Claude,
        Some(AuthSecretPreference::Inherit),
    );

    assert!(is_inherit(
        settings.auth_secret_preference(&teamless, Harness::Claude)
    ));
    assert!(is_named(
        settings.auth_secret_preference(&team, Harness::Claude),
        "legacy"
    ));
    assert_eq!(
        settings
            .last_selected_auth_secret()
            .get(Harness::Claude.config_name())
            .map(String::as_str),
        Some("legacy")
    );
}

#[test]
fn forgetting_a_preference_falls_back_and_overwrites_replace() {
    let mut settings = CloudAgentSettings::new();
    let team = team_scope(9);
    settings.persist_auth_secret_preference(
        &team,
        Harness::Gemini,
        Some(AuthSecretPreference::Named("one".to_string())),
    );
    settings.persist_auth_secret_preference(
        &team,
        Harness::Gemini,
        Some(AuthSecretPreference::Named("two".to_string())),
    );
    assert!(is_named(
        settings.auth_secret_preference(&team, Harness::Gemini),
        "two"
    ));
    settings.persist_auth_secret_preference(&team, Harness::Gemini, None);
    assert!(settings
        .auth_secret_preference(&team, Harness::Gemini)
        .is_none());
}

#[test]
fn persisted_scope_holds_only_the_optional_team_uid() {
    let team = AuthSecretPreferenceScope::from_scope(&team_scope(7));
    let teamless = AuthSecretPreferenceScope::from_scope(&TeamContextForOperation::teamless());
    assert_eq!(team.team_uid, Some(ServerId::from_number(7).uid()));
    assert_eq!(teamless.team_uid, None);
}
