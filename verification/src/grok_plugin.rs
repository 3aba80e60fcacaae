//! The Warp notification plugin for Grok Build: the files it consists of,
//! the steps that install it under the Grok hooks directory, and whether an
//! installed copy is current.
use crate::text::{push_char, string_of, trim, trim_end, trim_start, trimmed};
use crate::versions::{is_older_version, lemma_version_order_reflexive, version_order};
use vstd::prelude::*;

verus! {

/// Minimum Warp plugin version written to the version file and reported by
/// the plugin as `plugin_version`. Bumped when the hooks plugin schema
/// changes.
pub const MINIMUM_PLUGIN_VERSION: &'static str = "1.0.0";

/// The hook configuration file, under the hooks directory.
pub const HOOK_JSON_FILE: &'static str = "warp-plugin.json";

/// The plugin script, under the hooks directory.
pub const PLUGIN_SCRIPT_REL: &'static str = "bin/warp-plugin.sh";

/// The version file, under the hooks directory.
pub const VERSION_FILE: &'static str = "warp-plugin.version";

/// The directory of the plugin script, under the hooks directory.
pub const BIN_DIR: &'static str = "bin";

/// Hook config loaded by Grok Build from `$GROK_HOME/hooks/*.json`.
pub const HOOK_JSON: &'static str = r#"{
  "hooks": {
    "SessionStart": [
      {
        "hooks": [
          {
            "type": "command",
            "command": "bin/warp-plugin.sh SessionStart",
            "timeout": 5
          }
        ]
      }
    ],
    "UserPromptSubmit": [
      {
        "hooks": [
          {
            "type": "command",
            "command": "bin/warp-plugin.sh UserPromptSubmit",
            "timeout": 5
          }
        ]
      }
    ],
    "Stop": [
      {
        "hooks": [
          {
            "type": "command",
            "command": "bin/warp-plugin.sh Stop",
            "timeout": 5
          }
        ]
      }
    ],
    "StopFailure": [
      {
        "hooks": [
          {
            "type": "command",
            "command": "bin/warp-plugin.sh StopFailure",
            "timeout": 5
          }
        ]
      }
    ]
  }
}
"#;

/// The plugin script up to its first version string.
pub const SCRIPT_HEAD: &'static str = r#"#!/usr/bin/env bash
# Warp notification plugin for Grok Build. Written by Warp's one-click install.
set -euo pipefail

payload="$(</dev/stdin)"
hook_event="${1:-}"

case "$hook_event" in
  session_start|SessionStart) event="session_start" ;;
  user_prompt_submit|UserPromptSubmit) event="prompt_submit" ;;
  stop|Stop) event="stop" ;;
  stop_failure|StopFailure) event="stop_failure" ;;
  *) exit 0 ;;
esac

if command -v python3 >/dev/null 2>&1; then
  body="$(printf '%s' "$payload" | HOOK_EVENT="$event" python3 -c '
import json
import os
import sys

payload = json.load(sys.stdin)
body = {
    "v": 1,
    "agent": "grok",
    "event": os.environ["HOOK_EVENT"],
    "plugin_version": ""#;

/// The plugin script between its two version strings.
pub const SCRIPT_MIDDLE: &'static str = r#"",
}
for source, target in (
    ("sessionId", "session_id"),
    ("cwd", "cwd"),
    ("prompt", "query"),
    ("error", "error_type"),
):
    value = payload.get(source)
    if isinstance(value, str) and value:
        body[target] = value
print(json.dumps(body, separators=(",", ":")))
')"
else
  body="{\"v\":1,\"agent\":\"grok\",\"event\":\"$event\",\"plugin_version\":\""#;

/// The plugin script after its second version string.
pub const SCRIPT_TAIL: &'static str = r#"\"}"
fi

# OSC 777;notify;<title>;<body> BEL — Warp maps title/body to PluggableNotification.
printf '\033]777;notify;warp://cli-agent;%s\007' "$body" >&2
"#;

/// The plugin script: it reads the Grok hook envelope JSON from stdin and
/// emits Warp's OSC 777 notification on stderr, reporting the minimum plugin
/// version.
pub open spec fn plugin_script_text() -> Seq<char> {
    SCRIPT_HEAD@ + MINIMUM_PLUGIN_VERSION@ + SCRIPT_MIDDLE@ + MINIMUM_PLUGIN_VERSION@ + SCRIPT_TAIL@
}

/// The plugin script.
pub fn plugin_script() -> (r: String)
    ensures
        r@ == plugin_script_text(),
{
    let mut s = string_of(SCRIPT_HEAD);
    s.append(MINIMUM_PLUGIN_VERSION);
    s.append(SCRIPT_MIDDLE);
    s.append(MINIMUM_PLUGIN_VERSION);
    s.append(SCRIPT_TAIL);
    s
}

/// The contents of the version file: the minimum version and a newline.
pub open spec fn version_file_text() -> Seq<char> {
    MINIMUM_PLUGIN_VERSION@.push('\n')
}

/// The contents of the version file.
pub fn version_file_contents() -> (r: String)
    ensures
        r@ == version_file_text(),
{
    let mut s = string_of(MINIMUM_PLUGIN_VERSION);
    push_char(&mut s, '\n');
    s
}

/// A failed install: a short message and the log of what was done.
pub struct PluginInstallError {
    pub message: String,
    pub log: String,
}

/// One step of installing the plugin files.
#[derive(Clone, Copy, Debug, PartialEq, Eq, Structural)]
pub enum InstallStep {
    /// Create the script directory (and the hooks directory above it).
    CreateBinDir,
    /// Write the hook configuration.
    WriteHookJson,
    /// Write the plugin script.
    WriteScript,
    /// Read the script's permissions (Unix only).
    ReadScriptMetadata,
    /// Make the script executable (Unix only).
    SetScriptPermissions,
    /// Write the version file.
    WriteVersion,
}

/// The steps of an install, in order; the permission steps only on Unix.
pub open spec fn install_plan(unix: bool) -> Seq<InstallStep> {
    if unix {
        seq![
            InstallStep::CreateBinDir,
            InstallStep::WriteHookJson,
            InstallStep::WriteScript,
            InstallStep::ReadScriptMetadata,
            InstallStep::SetScriptPermissions,
            InstallStep::WriteVersion,
        ]
    } else {
        seq![
            InstallStep::CreateBinDir,
            InstallStep::WriteHookJson,
            InstallStep::WriteScript,
            InstallStep::WriteVersion,
        ]
    }
}

/// The steps of an install, in order.
pub fn install_steps(unix: bool) -> (r: Vec<InstallStep>)
    ensures
        r@ == install_plan(unix),
{
    let mut v = Vec::new();
    v.push(InstallStep::CreateBinDir);
    v.push(InstallStep::WriteHookJson);
    v.push(InstallStep::WriteScript);
    if unix {
        v.push(InstallStep::ReadScriptMetadata);
        v.push(InstallStep::SetScriptPermissions);
    }
    v.push(InstallStep::WriteVersion);
    assert(v@ =~= install_plan(unix));
    v
}

/// The path a step acts on, relative to the hooks directory.
pub open spec fn step_path(step: InstallStep) -> Seq<char> {
    match step {
        InstallStep::CreateBinDir => BIN_DIR@,
        InstallStep::WriteHookJson => HOOK_JSON_FILE@,
        InstallStep::WriteScript => PLUGIN_SCRIPT_REL@,
        InstallStep::ReadScriptMetadata => PLUGIN_SCRIPT_REL@,
        InstallStep::SetScriptPermissions => PLUGIN_SCRIPT_REL@,
        InstallStep::WriteVersion => VERSION_FILE@,
    }
}

/// The path a step acts on, relative to the hooks directory.
pub fn step_target(step: InstallStep) -> (r: &'static str)
    ensures
        r@ == step_path(step),
{
    match step {
        InstallStep::CreateBinDir => BIN_DIR,
        InstallStep::WriteHookJson => HOOK_JSON_FILE,
        InstallStep::WriteScript => PLUGIN_SCRIPT_REL,
        InstallStep::ReadScriptMetadata => PLUGIN_SCRIPT_REL,
        InstallStep::SetScriptPermissions => PLUGIN_SCRIPT_REL,
        InstallStep::WriteVersion => VERSION_FILE,
    }
}

/// What a step writes, for the steps that write a file.
pub open spec fn step_text(step: InstallStep) -> Option<Seq<char>> {
    match step {
        InstallStep::WriteHookJson => Some(HOOK_JSON@),
        InstallStep::WriteScript => Some(plugin_script_text()),
        InstallStep::WriteVersion => Some(version_file_text()),
        _ => None,
    }
}

/// What a step writes, for the steps that write a file.
pub fn step_contents(step: InstallStep) -> (r: Option<String>)
    ensures
        match r {
            Some(c) => step_text(step) == Some(c@),
            None => step_text(step) is None,
        },
{
    match step {
        InstallStep::WriteHookJson => Some(string_of(HOOK_JSON)),
        InstallStep::WriteScript => Some(plugin_script()),
        InstallStep::WriteVersion => Some(version_file_contents()),
        _ => None,
    }
}

/// The log line of a step that succeeded on `path`; the metadata read logs
/// nothing.
pub open spec fn success_line(step: InstallStep, path: Seq<char>) -> Seq<char> {
    match step {
        InstallStep::CreateBinDir => "created "@ + path + "\n"@,
        InstallStep::WriteHookJson => "wrote "@ + path + "\n"@,
        InstallStep::WriteScript => "wrote "@ + path + "\n"@,
        InstallStep::ReadScriptMetadata => Seq::empty(),
        InstallStep::SetScriptPermissions => "chmod 755 "@ + path + "\n"@,
        InstallStep::WriteVersion => "wrote "@ + path + " ("@ + MINIMUM_PLUGIN_VERSION@ + ")\n"@,
    }
}

/// The verb that names a step in the log of a failure.
pub open spec fn failure_verb(step: InstallStep) -> Seq<char> {
    match step {
        InstallStep::CreateBinDir => "mkdir"@,
        InstallStep::WriteHookJson => "write"@,
        InstallStep::WriteScript => "write"@,
        InstallStep::ReadScriptMetadata => "stat"@,
        InstallStep::SetScriptPermissions => "chmod"@,
        InstallStep::WriteVersion => "write"@,
    }
}

/// The log line of a step that failed on `path` with error text `err`.
pub open spec fn failure_line(step: InstallStep, path: Seq<char>, err: Seq<char>) -> Seq<char> {
    failure_verb(step) + " "@ + path + ": "@ + err + "\n"@
}

/// The message of a step that failed on `path`.
pub open spec fn failure_message(step: InstallStep, path: Seq<char>) -> Seq<char> {
    match step {
        InstallStep::CreateBinDir => "failed to create "@ + path,
        InstallStep::WriteHookJson => "failed to write "@ + path,
        InstallStep::WriteScript => "failed to write "@ + path,
        InstallStep::ReadScriptMetadata => "failed to set permissions on "@ + path,
        InstallStep::SetScriptPermissions => "failed to make "@ + path + " executable"@,
        InstallStep::WriteVersion => "failed to write "@ + path,
    }
}

/// The log an install starts with.
pub fn begin_install_log(hooks_dir: &str) -> (r: String)
    ensures
        r@ == "Installing Warp plugin into "@ + hooks_dir@ + "\n"@,
{
    let mut s = string_of("Installing Warp plugin into ");
    s.append(hooks_dir);
    s.append("\n");
    s
}

/// Logs a step that succeeded on `path` (the displayed path).
pub fn record_step_success(log: &mut String, step: InstallStep, path: &str)
    ensures
        final(log)@ == old(log)@ + success_line(step, path@),
{
    match step {
        InstallStep::CreateBinDir => {
            log.append("created ");
            log.append(path);
            log.append("\n");
        },
        InstallStep::WriteHookJson | InstallStep::WriteScript => {
            log.append("wrote ");
            log.append(path);
            log.append("\n");
        },
        InstallStep::ReadScriptMetadata => {
            assert(log@ =~= log@ + Seq::<char>::empty());
        },
        InstallStep::SetScriptPermissions => {
            log.append("chmod 755 ");
            log.append(path);
            log.append("\n");
        },
        InstallStep::WriteVersion => {
            log.append("wrote ");
            log.append(path);
            log.append(" (");
            log.append(MINIMUM_PLUGIN_VERSION);
            log.append(")\n");
        },
    }
}

/// Logs a step that failed on `path` with error text `err`, and gives the
/// install error, which carries the whole log.
pub fn record_step_failure(log: &mut String, step: InstallStep, path: &str, err: &str) -> (r:
    PluginInstallError)
    ensures
        final(log)@ == old(log)@ + failure_line(step, path@, err@),
        r.log@ == final(log)@,
        r.message@ == failure_message(step, path@),
{
    let verb = match step {
        InstallStep::CreateBinDir => "mkdir",
        InstallStep::ReadScriptMetadata => "stat",
        InstallStep::SetScriptPermissions => "chmod",
        _ => "write",
    };
    log.append(verb);
    log.append(" ");
    log.append(path);
    log.append(": ");
    log.append(err);
    log.append("\n");
    let message = match step {
        InstallStep::CreateBinDir => {
            let mut m = string_of("failed to create ");
            m.append(path);
            m
        },
        InstallStep::ReadScriptMetadata => {
            let mut m = string_of("failed to set permissions on ");
            m.append(path);
            m
        },
        InstallStep::SetScriptPermissions => {
            let mut m = string_of("failed to make ");
            m.append(path);
            m.append(" executable");
            m
        },
        _ => {
            let mut m = string_of("failed to write ");
            m.append(path);
            m
        },
    };
    PluginInstallError { message, log: log.clone() }
}

/// The install error when the hooks directory cannot be resolved.
pub fn hooks_dir_failure(err: &str) -> (r: PluginInstallError)
    ensures
        r.log@ == "error resolving Grok hooks dir: "@ + err@ + "\n"@,
        r.message@ == "could not determine Grok home directory"@,
{
    let mut log = string_of("error resolving Grok hooks dir: ");
    log.append(err);
    log.append("\n");
    PluginInstallError { message: string_of("could not determine Grok home directory"), log }
}

/// Where the hooks directory lies.
pub enum HooksDirLocation {
    /// `hooks` under this `$GROK_HOME`.
    UnderGrokHome(String),
    /// `.grok/hooks` under the user's home directory.
    UnderUserHome,
}

/// The error text when no home directory is known.
pub const HOME_DIR_NOT_FOUND: &'static str = "could not determine home directory";

/// `$GROK_HOME` is set and not empty.
pub open spec fn grok_home_set(g: Option<&str>) -> bool {
    match g {
        Some(v) => v@.len() > 0,
        None => false,
    }
}

/// Chooses the hooks directory: under `$GROK_HOME` when it is set and not
/// empty, else under the user's home directory; none when neither is known.
pub fn grok_hooks_location(grok_home: Option<&str>, has_home_dir: bool) -> (r: Option<
    HooksDirLocation,
>)
    ensures
        match r {
            Some(HooksDirLocation::UnderGrokHome(h)) => grok_home_set(grok_home) && (
            grok_home matches Some(g) && h@ == g@),
            Some(HooksDirLocation::UnderUserHome) => !grok_home_set(grok_home) && has_home_dir,
            None => !grok_home_set(grok_home) && !has_home_dir,
        },
{
    match grok_home {
        Some(g) => {
            if g.unicode_len() > 0 {
                return Some(HooksDirLocation::UnderGrokHome(string_of(g)));
            }
        },
        None => {},
    }
    if has_home_dir {
        Some(HooksDirLocation::UnderUserHome)
    } else {
        None
    }
}

/// The plugin is installed when both the hook configuration and the script
/// are regular files.
pub fn check_installed(hook_json_is_file: bool, script_is_file: bool) -> (r: bool)
    ensures
        r == (hook_json_is_file && script_is_file),
{
    hook_json_is_file && script_is_file
}

/// The version recorded in a version file: its trimmed contents, none when
/// that is empty.
pub open spec fn recorded_version(contents: Seq<char>) -> Option<Seq<char>> {
    if trimmed(contents).len() == 0 {
        None
    } else {
        Some(trimmed(contents))
    }
}

/// The version recorded in a version file's contents.
pub fn installed_version_from_contents(contents: &str) -> (r: Option<String>)
    ensures
        match r {
            Some(v) => recorded_version(contents@) == Some(v@),
            None => recorded_version(contents@) is None,
        },
{
    let v = trim(contents);
    if v.unicode_len() == 0 {
        None
    } else {
        Some(v)
    }
}

/// The plugin needs an update when the hooks directory resolves and either
/// the recorded version is older than the minimum, or no version is recorded
/// but the plugin files are present.
pub open spec fn update_needed(
    hooks_dir_resolved: bool,
    installed_version: Option<Seq<char>>,
    installed: bool,
) -> bool {
    hooks_dir_resolved && match installed_version {
        Some(v) => version_order(v, MINIMUM_PLUGIN_VERSION@) < 0,
        None => installed,
    }
}

/// Whether the installed plugin needs an update.
pub fn needs_update_for(
    hooks_dir_resolved: bool,
    installed_version: Option<&str>,
    installed: bool,
) -> (r: bool)
    ensures
        r == update_needed(
            hooks_dir_resolved,
            match installed_version {
                Some(v) => Some(v@),
                None => None,
            },
            installed,
        ),
{
    if !hooks_dir_resolved {
        return false;
    }
    match installed_version {
        Some(v) => is_older_version(v, MINIMUM_PLUGIN_VERSION),
        None => installed,
    }
}

/// Right after an install the plugin is current: the version file it writes
/// records the minimum version, which is not older than itself.
pub proof fn law_fresh_install_is_current()
    ensures
        recorded_version(version_file_text()) == Some(MINIMUM_PLUGIN_VERSION@),
        !update_needed(true, recorded_version(version_file_text()), true),
{
    reveal_strlit("1.0.0");
    let v = MINIMUM_PLUGIN_VERSION@;
    let t = version_file_text();
    assert(t.drop_last() =~= v);
    assert(trim_start(t) == t);
    assert(trim_end(v) == v);
    assert(trim_end(t) == trim_end(v));
    lemma_version_order_reflexive(v);
}

/// The version file is written last, after the hook configuration and the
/// script, so a recorded version never precedes the plugin files.
pub proof fn law_version_written_last(unix: bool)
    ensures
        install_plan(unix).last() == InstallStep::WriteVersion,
        exists|i: int, j: int|
            0 <= i < j < install_plan(unix).len() - 1 && install_plan(unix)[i]
                == InstallStep::WriteHookJson && install_plan(unix)[j] == InstallStep::WriteScript,
        forall|k: int|
            0 <= k < install_plan(unix).len() - 1 ==> install_plan(unix)[k]
                != InstallStep::WriteVersion,
{
    assert(install_plan(unix)[1] == InstallStep::WriteHookJson);
    assert(install_plan(unix)[2] == InstallStep::WriteScript);
}

/// The permission bits the script is given on Unix: executable.
pub const SCRIPT_MODE: u32 = 0o755;

/// The files the first `done` steps of `plan` have written, each with its
/// contents, by path relative to the hooks directory.
pub open spec fn written_contents(plan: Seq<InstallStep>, done: nat) -> Map<Seq<char>, Seq<char>>
    decreases done,
{
    if done == 0 || done > plan.len() {
        Map::empty()
    } else {
        let m = written_contents(plan, (done - 1) as nat);
        match step_text(plan[done - 1]) {
            Some(t) => m.insert(step_path(plan[done - 1]), t),
            None => m,
        }
    }
}

/// The files a complete install leaves, with their contents.
pub open spec fn plugin_files() -> Map<Seq<char>, Seq<char>> {
    Map::empty().insert(HOOK_JSON_FILE@, HOOK_JSON@).insert(PLUGIN_SCRIPT_REL@, plugin_script_text()).insert(
        VERSION_FILE@,
        version_file_text(),
    )
}

/// The progress of one install: the planned steps, how many have succeeded,
/// and whether one failed. A failed step ends the install.
pub struct InstallRun {
    plan: Vec<InstallStep>,
    done: usize,
    failed: bool,
}

impl InstallRun {
    #[verifier::type_invariant]
    spec fn within_plan(self) -> bool {
        self.done <= self.plan@.len()
    }

    /// The planned steps.
    pub closed spec fn plan(self) -> Seq<InstallStep> {
        self.plan@
    }

    /// How many steps have succeeded.
    pub closed spec fn done(self) -> nat {
        self.done as nat
    }

    /// Whether a step failed.
    pub closed spec fn failed(self) -> bool {
        self.failed
    }

    /// A run of the install plan, before its first step.
    pub fn new(unix: bool) -> (r: Self)
        ensures
            r.plan() == install_plan(unix),
            r.done() == 0,
            !r.failed(),
    {
        InstallRun { plan: install_steps(unix), done: 0, failed: false }
    }

    /// The step to perform next: the first one not yet done, none once a
    /// step failed or all are done.
    pub fn next_step(&self) -> (r: Option<InstallStep>)
        ensures
            r == if !self.failed() && self.done() < self.plan().len() {
                Some(self.plan()[self.done() as int])
            } else {
                None::<InstallStep>
            },
    {
        proof {
            use_type_invariant(self);
        }
        if !self.failed && self.done < self.plan.len() {
            Some(self.plan[self.done])
        } else {
            None
        }
    }

    /// Records the outcome of the step `next_step` gave: a success moves to
    /// the following step, a failure ends the install. Once the install has
    /// ended, nothing changes.
    pub fn record(&mut self, ok: bool)
        ensures
            final(self).plan() == old(self).plan(),
            if !old(self).failed() && old(self).done() < old(self).plan().len() {
                if ok {
                    final(self).done() == old(self).done() + 1 && !final(self).failed()
                } else {
                    final(self).done() == old(self).done() && final(self).failed()
                }
            } else {
                final(self).done() == old(self).done() && final(self).failed() == old(
                    self,
                ).failed()
            },
    {
        proof {
            use_type_invariant(&*self);
        }
        if !self.failed && self.done < self.plan.len() {
            if ok {
                self.done = self.done + 1;
            } else {
                self.failed = true;
            }
        }
    }

    /// Whether every step succeeded.
    pub fn succeeded(&self) -> (r: bool)
        ensures
            r == (!self.failed() && self.done() == self.plan().len()),
    {
        !self.failed && self.done == self.plan.len()
    }
}

/// An install acts only on the script directory, the hook configuration, the
/// script and the version file.
pub proof fn law_install_touches_only_plugin_files(unix: bool)
    ensures
        forall|k: int|
            0 <= k < install_plan(unix).len() ==> {
                let p = #[trigger] step_path(install_plan(unix)[k]);
                p == BIN_DIR@ || p == HOOK_JSON_FILE@ || p == PLUGIN_SCRIPT_REL@ || p
                    == VERSION_FILE@
            },
{
}

proof fn lemma_complete_install_contents(unix: bool)
    ensures
        written_contents(install_plan(unix), install_plan(unix).len()) =~= plugin_files(),
{
    let plan = install_plan(unix);
    assert(written_contents(plan, 0) == Map::<Seq<char>, Seq<char>>::empty());
    assert(written_contents(plan, 1) == Map::<Seq<char>, Seq<char>>::empty());
    assert(written_contents(plan, 2) == Map::<Seq<char>, Seq<char>>::empty().insert(
        HOOK_JSON_FILE@,
        HOOK_JSON@,
    ));
    assert(written_contents(plan, 3) == Map::<Seq<char>, Seq<char>>::empty().insert(
        HOOK_JSON_FILE@,
        HOOK_JSON@,
    ).insert(PLUGIN_SCRIPT_REL@, plugin_script_text()));
    if unix {
        assert(written_contents(plan, 4) == written_contents(plan, 3));
        assert(written_contents(plan, 5) == written_contents(plan, 3));
        assert(written_contents(plan, 6) == written_contents(plan, 3).insert(
            VERSION_FILE@,
            version_file_text(),
        ));
    } else {
        assert(written_contents(plan, 4) == written_contents(plan, 3).insert(
            VERSION_FILE@,
            version_file_text(),
        ));
    }
}

/// Every complete install writes the same three files with the same
/// contents (and, on Unix, gives the script `SCRIPT_MODE`), so a second
/// install leaves the files as the first one did.
pub proof fn law_install_writes_fixed_files(unix: bool)
    ensures
        written_contents(install_plan(unix), install_plan(unix).len()) == plugin_files(),
        unix ==> install_plan(unix).contains(InstallStep::SetScriptPermissions),
{
    lemma_complete_install_contents(unix);
    if unix {
        assert(install_plan(unix)[4] == InstallStep::SetScriptPermissions);
    }
}

/// Whatever step an install stops at, what it has written is part of what a
/// complete install writes: only plugin files, each with its fixed contents.
pub proof fn law_partial_install_writes_plugin_contents(unix: bool, done: nat)
    requires
        done <= install_plan(unix).len(),
    ensures
        written_contents(install_plan(unix), done).submap_of(plugin_files()),
    decreases done,
{
    reveal_strlit("warp-plugin.json");
    reveal_strlit("bin/warp-plugin.sh");
    reveal_strlit("warp-plugin.version");
    assert(HOOK_JSON_FILE@ != PLUGIN_SCRIPT_REL@) by {
        assert(HOOK_JSON_FILE@[0] != PLUGIN_SCRIPT_REL@[0]);
    }
    assert(HOOK_JSON_FILE@ != VERSION_FILE@) by {
        assert(HOOK_JSON_FILE@.len() != VERSION_FILE@.len());
    }
    assert(PLUGIN_SCRIPT_REL@ != VERSION_FILE@) by {
        assert(PLUGIN_SCRIPT_REL@[0] != VERSION_FILE@[0]);
    }
    if done > 0 {
        law_partial_install_writes_plugin_contents(unix, (done - 1) as nat);
    }
}

/// After a complete install, the two files whose presence makes the plugin
/// count as installed (the hook configuration and the script) have been
/// written, so the installed check holds.
pub proof fn law_complete_install_counts_as_installed(unix: bool)
    ensures
        ({
            let written = written_contents(install_plan(unix), install_plan(unix).len()).dom();
            &&& written.contains(HOOK_JSON_FILE@)
            &&& written.contains(PLUGIN_SCRIPT_REL@)
        }),
{
    lemma_complete_install_contents(unix);
}

/// One step of the manual instructions.
pub struct PluginInstructionStep {
    pub description: &'static str,
    pub command: &'static str,
    pub executable: bool,
    pub link: Option<&'static str>,
}

/// Manual install or update instructions.
pub struct PluginInstructions {
    pub title: &'static str,
    pub subtitle: &'static str,
    pub steps: Vec<PluginInstructionStep>,
    pub post_install_notes: Vec<&'static str>,
}

/// A step as its description, command, executability and link.
pub open spec fn step_view(s: PluginInstructionStep) -> (Seq<char>, Seq<char>, bool, Option<Seq<char>>) {
    (
        s.description@,
        s.command@,
        s.executable,
        match s.link {
            Some(l) => Some(l@),
            None => None,
        },
    )
}

/// The manager of the Grok Build plugin.
pub struct GrokPluginManager;

impl GrokPluginManager {
    /// The version an installed plugin must have.
    pub fn minimum_plugin_version(&self) -> (r: &'static str)
        ensures
            r@ == MINIMUM_PLUGIN_VERSION@,
    {
        MINIMUM_PLUGIN_VERSION
    }

    /// The plugin is installed by writing files, so it can be installed
    /// automatically.
    pub fn can_auto_install(&self) -> (r: bool)
        ensures
            r,
    {
        true
    }

    /// Shown after an install.
    pub fn install_success_message(&self) -> (r: &'static str)
        ensures
            r@ == "Warp plugin installed. Please restart Grok Build to activate."@,
    {
        "Warp plugin installed. Please restart Grok Build to activate."
    }

    /// Shown after an update.
    pub fn update_success_message(&self) -> (r: &'static str)
        ensures
            r@ == "Warp plugin updated. Please restart Grok Build to activate."@,
    {
        "Warp plugin updated. Please restart Grok Build to activate."
    }

    /// The manual install instructions.
    pub fn install_instructions(&self) -> (r: PluginInstructions)
        ensures
            r.title@ == "Install Warp Plugin for Grok Build"@,
            r.subtitle@ == "Add the Warp plugin so Grok Build can report session status to Warp. Grok Build already works with Warp's toolbar and rich input without this step."@,
            r.steps@.map_values(|s: PluginInstructionStep| step_view(s)) == seq![
                (
                    "Ensure Grok Build is installed (default path on macOS/Linux):"@,
                    "~/.grok/bin/grok"@,
                    false,
                    Some("https://x.ai/cli"@),
                ),
                (
                    "Create the user hooks directory if it does not exist:"@,
                    "mkdir -p ~/.grok/hooks/bin"@,
                    true,
                    None,
                ),
                (
                    "Add the Warp plugin hook JSON (auto-install writes this for you):"@,
                    "~/.grok/hooks/warp-plugin.json"@,
                    false,
                    Some("https://github.com/warpdotdev/warp/issues/11727"@),
                ),
                (
                    "Restart the Grok Build session (exit and run `grok` again) so the plugin loads."@,
                    "grok"@,
                    true,
                    None,
                ),
            ],
            r.post_install_notes@.map_values(|n: &'static str| n@) == seq![
                "Without the plugin, Warp still detects Grok Build and offers the toolbar, rich input, and image paste."@,
            ],
    {
        let mut steps = Vec::new();
        steps.push(
            PluginInstructionStep {
                description: "Ensure Grok Build is installed (default path on macOS/Linux):",
                command: "~/.grok/bin/grok",
                executable: false,
                link: Some("https://x.ai/cli"),
            },
        );
        steps.push(
            PluginInstructionStep {
                description: "Create the user hooks directory if it does not exist:",
                command: "mkdir -p ~/.grok/hooks/bin",
                executable: true,
                link: None,
            },
        );
        steps.push(
            PluginInstructionStep {
                description: "Add the Warp plugin hook JSON (auto-install writes this for you):",
                command: "~/.grok/hooks/warp-plugin.json",
                executable: false,
                link: Some("https://github.com/warpdotdev/warp/issues/11727"),
            },
        );
        steps.push(
            PluginInstructionStep {
                description: "Restart the Grok Build session (exit and run `grok` again) so the plugin loads.",
                command: "grok",
                executable: true,
                link: None,
            },
        );
        let mut notes = Vec::new();
        notes.push(
            "Without the plugin, Warp still detects Grok Build and offers the toolbar, rich input, and image paste.",
        );
        let r = PluginInstructions {
            title: "Install Warp Plugin for Grok Build",
            subtitle: "Add the Warp plugin so Grok Build can report session status to Warp. Grok Build already works with Warp's toolbar and rich input without this step.",
            steps,
            post_install_notes: notes,
        };
        assert(r.steps@.map_values(|s: PluginInstructionStep| step_view(s)) =~= seq![
            (
                "Ensure Grok Build is installed (default path on macOS/Linux):"@,
                "~/.grok/bin/grok"@,
                false,
                Some("https://x.ai/cli"@),
            ),
            (
                "Create the user hooks directory if it does not exist:"@,
                "mkdir -p ~/.grok/hooks/bin"@,
                true,
                None,
            ),
            (
                "Add the Warp plugin hook JSON (auto-install writes this for you):"@,
                "~/.grok/hooks/warp-plugin.json"@,
                false,
                Some("https://github.com/warpdotdev/warp/issues/11727"@),
            ),
            (
                "Restart the Grok Build session (exit and run `grok` again) so the plugin loads."@,
                "grok"@,
                true,
                None,
            ),
        ]);
        assert(r.post_install_notes@.map_values(|n: &'static str| n@) =~= seq![
            "Without the plugin, Warp still detects Grok Build and offers the toolbar, rich input, and image paste."@,
        ]);
        r
    }

    /// The manual update instructions.
    pub fn update_instructions(&self) -> (r: PluginInstructions)
        ensures
            r.title@ == "Update Warp Plugin for Grok Build"@,
            r.subtitle@ == "Refresh the Warp plugin under ~/.grok/hooks if a newer version is available."@,
            r.steps@.map_values(|s: PluginInstructionStep| step_view(s)) == seq![
                (
                    "Replace the Warp plugin files under:"@,
                    "~/.grok/hooks/"@,
                    false,
                    Some("https://github.com/warpdotdev/warp/issues/11727"@),
                ),
                (
                    "Restart the Grok Build session to load the updated plugin."@,
                    "grok"@,
                    true,
                    None,
                ),
            ],
            r.post_install_notes@.map_values(|n: &'static str| n@) == seq![
                "Run `grok` again after updating the plugin."@,
            ],
    {
        let mut steps = Vec::new();
        steps.push(
            PluginInstructionStep {
                description: "Replace the Warp plugin files under:",
                command: "~/.grok/hooks/",
                executable: false,
                link: Some("https://github.com/warpdotdev/warp/issues/11727"),
            },
        );
        steps.push(
            PluginInstructionStep {
                description: "Restart the Grok Build session to load the updated plugin.",
                command: "grok",
                executable: true,
                link: None,
            },
        );
        let mut notes = Vec::new();
        notes.push("Run `grok` again after updating the plugin.");
        let r = PluginInstructions {
            title: "Update Warp Plugin for Grok Build",
            subtitle: "Refresh the Warp plugin under ~/.grok/hooks if a newer version is available.",
            steps,
            post_install_notes: notes,
        };
        assert(r.steps@.map_values(|s: PluginInstructionStep| step_view(s)) =~= seq![
            (
                "Replace the Warp plugin files under:"@,
                "~/.grok/hooks/"@,
                false,
                Some("https://github.com/warpdotdev/warp/issues/11727"@),
            ),
            (
                "Restart the Grok Build session to load the updated plugin."@,
                "grok"@,
                true,
                None,
            ),
        ]);
        assert(r.post_install_notes@.map_values(|n: &'static str| n@) =~= seq![
            "Run `grok` again after updating the plugin."@,
        ]);
        r
    }
}

} // verus!
