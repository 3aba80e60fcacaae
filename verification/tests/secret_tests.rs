use clap::{Arg, ArgAction, Command};
use warp_client::secret_scope::{ListSecretsArgs, SecretCommand, SecretScopeArgs};

/// The `secret` command line: `list` with `--team[=<uid>]` and `--personal`.
fn command() -> Command {
    Command::new("test").subcommand(
        Command::new("list")
            .arg(
                Arg::new("team")
                    .long("team")
                    .num_args(0..=1)
                    .require_equals(true)
                    .value_name("TEAM_UID"),
            )
            .arg(
                Arg::new("personal")
                    .long("personal")
                    .action(ArgAction::SetTrue)
                    .conflicts_with("team"),
            ),
    )
}

fn parse_command(argv: &[&str]) -> SecretCommand {
    let mut full = vec!["test"];
    full.extend_from_slice(argv);
    let matches = command().try_get_matches_from(full).expect("parse succeeds");
    let Some(("list", sub)) = matches.subcommand() else {
        panic!("expected list command");
    };
    let team = if sub.contains_id("team") {
        Some(sub.get_one::<String>("team").cloned())
    } else {
        None
    };
    SecretCommand::List(ListSecretsArgs {
        scope: SecretScopeArgs {
            team,
            personal: sub.get_flag("personal"),
        },
    })
}

fn parse_list(argv: &[&str]) -> ListSecretsArgs {
    let SecretCommand::List(args) = parse_command(argv);
    args
}

#[test]
fn list_accepts_explicit_team_uid() {
    let args = parse_list(&["list", "--team=team-uid"]);
    assert_eq!(args.scope.requested_team_uid(), Some("team-uid"));
}

#[test]
fn list_accepts_bare_team_selection() {
    let args = parse_list(&["list", "--team"]);
    assert!(args.scope.is_team());
    assert_eq!(args.scope.requested_team_uid(), None);
}

#[test]
fn list_accepts_no_team_flag() {
    let args = parse_list(&["list"]);
    assert!(!args.scope.is_team());
    assert!(!args.scope.personal);
}

#[test]
fn list_accepts_personal_scope() {
    let args = parse_list(&["list", "--personal"]);

    assert!(args.scope.personal);
    assert!(!args.scope.is_team());
}

#[test]
fn scope_methods_read_the_team_field() {
    let scope = SecretScopeArgs {
        team: Some(Some("t".to_string())),
        personal: false,
    };
    assert!(scope.is_team());
    assert_eq!(scope.requested_team_uid(), Some("t"));
}
