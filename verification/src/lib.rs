//! Client-side rules of the Warp app: team and workspace membership actions,
//! scoped auth-secret caches and preferences, platform-error conversion, the
//! Grok Build hooks plugin, retry decisions and CLI secret scopes.
pub mod text;
pub mod string_map;
pub mod platform_error;
pub mod ids;
pub mod workspace;
pub mod teams_page;
pub mod harness_availability;
pub mod cloud_agent_settings;
pub mod confirmation_dialog;
pub mod isolation_platform;
pub mod secret_scope;
pub mod versions;
pub mod grok_plugin;
pub mod retry;
pub mod remove_user_from_workspace;
pub mod api_key_modal;
