use std::cmp::Ordering;
use warp_client::grok_plugin::{
    begin_install_log, check_installed, grok_hooks_location, hooks_dir_failure,
    installed_version_from_contents, install_steps, needs_update_for, plugin_script,
    record_step_failure, record_step_success, step_contents, step_target, version_file_contents,
    GrokPluginManager, HooksDirLocation, InstallRun, InstallStep, HOOK_JSON, MINIMUM_PLUGIN_VERSION,
    SCRIPT_MODE,
};
use warp_client::versions::{compare_versions, parse_version};

#[test]
fn plugin_script_reports_the_minimum_version() {
    let script = plugin_script();
    assert!(script.starts_with("#!/usr/bin/env bash\n"));
    assert!(script.contains("hook_event=\"${1:-}\""));
    assert!(script.contains("    \"plugin_version\": \"1.0.0\",\n}"));
    assert!(script.contains("\\\"plugin_version\\\":\\\"1.0.0\\\"}\""));
    assert_eq!(script.matches("1.0.0").count(), 2);
    assert!(script.ends_with("printf '\\033]777;notify;warp://cli-agent;%s\\007' \"$body\" >&2\n"));
}

#[test]
fn hook_json_is_valid_json_naming_the_four_events() {
    let value: serde_json::Value = serde_json::from_str(HOOK_JSON).expect("valid JSON");
    let hooks = value.get("hooks").and_then(|h| h.as_object()).expect("hooks object");
    for event in ["SessionStart", "UserPromptSubmit", "Stop", "StopFailure"] {
        let command = hooks[event][0]["hooks"][0]["command"].as_str().unwrap();
        assert_eq!(command, format!("bin/warp-plugin.sh {event}"));
        assert_eq!(hooks[event][0]["hooks"][0]["timeout"].as_u64(), Some(5));
    }
}

#[test]
fn version_file_and_installed_version() {
    assert_eq!(version_file_contents(), "1.0.0\n");
    assert_eq!(
        installed_version_from_contents(&version_file_contents()),
        Some(MINIMUM_PLUGIN_VERSION.to_string())
    );
    assert_eq!(
        installed_version_from_contents(" \t0.9.1\r\n"),
        Some("0.9.1".to_string())
    );
    assert_eq!(installed_version_from_contents(" \n\u{3000}"), None);
    assert_eq!(installed_version_from_contents(""), None);
}

#[test]
fn needs_update_covers_current_missing_and_old_versions() {
    assert!(!needs_update_for(true, Some("1.0.0"), true));
    assert!(!needs_update_for(true, Some("1.2"), true));
    assert!(needs_update_for(true, Some("0.9.9"), true));
    // Present but missing version file: treat as outdated.
    assert!(needs_update_for(true, None, true));
    assert!(!needs_update_for(true, None, false));
    assert!(!needs_update_for(false, Some("0.1.0"), true));
}

#[test]
fn versions_compare_numerically_by_component() {
    assert_eq!(compare_versions("1.10.0", "1.9.0"), Ordering::Greater);
    assert_eq!(compare_versions("1.0", "1.0.0"), Ordering::Equal);
    assert_eq!(compare_versions("0.9", "1.0.0"), Ordering::Less);
    assert_eq!(compare_versions("abc", "0"), Ordering::Equal);
    assert_eq!(parse_version("2.x.30"), vec![2, 0, 30]);
    assert_eq!(parse_version("99999999999999999999.1"), vec![0, 1]);
    assert_eq!(parse_version(""), vec![0]);
}

#[test]
fn install_runs_its_steps_in_order() {
    assert_eq!(
        install_steps(true),
        vec![
            InstallStep::CreateBinDir,
            InstallStep::WriteHookJson,
            InstallStep::WriteScript,
            InstallStep::ReadScriptMetadata,
            InstallStep::SetScriptPermissions,
            InstallStep::WriteVersion,
        ]
    );
    assert_eq!(install_steps(false).len(), 4);
    assert_eq!(step_target(InstallStep::WriteScript), "bin/warp-plugin.sh");
    assert_eq!(step_target(InstallStep::WriteVersion), "warp-plugin.version");
    assert_eq!(step_contents(InstallStep::WriteHookJson).as_deref(), Some(HOOK_JSON));
    assert_eq!(step_contents(InstallStep::CreateBinDir), None);
}

#[test]
fn install_log_and_errors_name_the_paths() {
    let mut log = begin_install_log("/h/hooks");
    record_step_success(&mut log, InstallStep::CreateBinDir, "/h/hooks/bin");
    record_step_success(&mut log, InstallStep::ReadScriptMetadata, "/h/hooks/bin/warp-plugin.sh");
    record_step_success(&mut log, InstallStep::WriteVersion, "/h/hooks/warp-plugin.version");
    assert_eq!(
        log,
        "Installing Warp plugin into /h/hooks\ncreated /h/hooks/bin\nwrote /h/hooks/warp-plugin.version (1.0.0)\n"
    );
    let err = record_step_failure(
        &mut log,
        InstallStep::SetScriptPermissions,
        "/h/hooks/bin/warp-plugin.sh",
        "denied",
    );
    assert_eq!(err.message, "failed to make /h/hooks/bin/warp-plugin.sh executable");
    assert!(err.log.ends_with("chmod /h/hooks/bin/warp-plugin.sh: denied\n"));
    assert_eq!(err.log, log);
    let err = hooks_dir_failure("no home");
    assert_eq!(err.message, "could not determine Grok home directory");
    assert_eq!(err.log, "error resolving Grok hooks dir: no home\n");
}

#[test]
fn hooks_dir_prefers_a_non_empty_grok_home() {
    assert!(matches!(
        grok_hooks_location(Some("/g"), true),
        Some(HooksDirLocation::UnderGrokHome(h)) if h == "/g"
    ));
    assert!(matches!(
        grok_hooks_location(Some(""), true),
        Some(HooksDirLocation::UnderUserHome)
    ));
    assert!(grok_hooks_location(None, false).is_none());
    assert!(check_installed(true, true));
    assert!(!check_installed(true, false));
}

#[test]
fn manager_copy_and_instructions() {
    let manager = GrokPluginManager;
    assert_eq!(manager.minimum_plugin_version(), "1.0.0");
    assert!(manager.can_auto_install());
    assert_eq!(
        manager.install_success_message(),
        "Warp plugin installed. Please restart Grok Build to activate."
    );
    let install = manager.install_instructions();
    assert_eq!(install.title, "Install Warp Plugin for Grok Build");
    assert_eq!(install.steps.len(), 4);
    assert_eq!(install.steps[1].command, "mkdir -p ~/.grok/hooks/bin");
    let update = manager.update_instructions();
    assert_eq!(update.steps.len(), 2);
    assert_eq!(update.post_install_notes, vec!["Run `grok` again after updating the plugin."]);
}

#[test]
fn install_run_goes_through_every_step_when_all_succeed() {
    let mut run = InstallRun::new(true);
    let mut performed = Vec::new();
    while let Some(step) = run.next_step() {
        performed.push(step);
        run.record(true);
    }
    assert_eq!(performed, install_steps(true));
    assert!(run.succeeded());
    assert_eq!(run.next_step(), None);
}

#[test]
fn install_run_stops_at_the_first_failed_step() {
    let mut run = InstallRun::new(true);
    let mut performed = Vec::new();
    while let Some(step) = run.next_step() {
        performed.push(step);
        run.record(step != InstallStep::WriteScript);
    }
    assert_eq!(
        performed,
        vec![InstallStep::CreateBinDir, InstallStep::WriteHookJson, InstallStep::WriteScript]
    );
    assert!(!run.succeeded());
    run.record(true);
    assert_eq!(run.next_step(), None);
    assert!(!run.succeeded());
}

#[test]
fn install_run_failing_first_step_writes_nothing() {
    let mut run = InstallRun::new(false);
    assert_eq!(run.next_step(), Some(InstallStep::CreateBinDir));
    run.record(false);
    assert_eq!(run.next_step(), None);
    assert!(!run.succeeded());
}

#[test]
fn script_is_made_executable() {
    assert_eq!(SCRIPT_MODE, 0o755);
}
