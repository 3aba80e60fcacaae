//! The team scope flags of the `secret` CLI commands.
use vstd::prelude::*;

verus! {

/// The scope flags: `--team` with an optional team UID, or `--personal`.
pub struct SecretScopeArgs {
    /// `None` without `--team`; `Some(None)` for a bare `--team`;
    /// `Some(Some(uid))` for `--team=<uid>`.
    pub team: Option<Option<String>>,
    /// `--personal`.
    pub personal: bool,
}

impl SecretScopeArgs {
    /// Whether `--team` was given, with or without a UID.
    pub fn is_team(&self) -> (r: bool)
        ensures
            r == self.team is Some,
    {
        self.team.is_some()
    }

    /// The team UID given to `--team`, if any.
    pub fn requested_team_uid(&self) -> (r: Option<&str>)
        ensures
            match r {
                Some(u) => self.team matches Some(Some(t)) && u@ == t@,
                None => !(self.team matches Some(Some(_))),
            },
    {
        match &self.team {
            Some(Some(t)) => Some(t.as_str()),
            _ => None,
        }
    }
}

/// The arguments of `secret list`.
pub struct ListSecretsArgs {
    pub scope: SecretScopeArgs,
}

/// The `secret` subcommands.
pub enum SecretCommand {
    /// List the secrets of a scope.
    List(ListSecretsArgs),
}

} // verus!
