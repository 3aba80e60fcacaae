use warp_client::ids::ServerId;
use warp_client::teams_page::{
    disabled_member_tooltip_text, join_teams_header_text, Item, JoinTeamsHeader, MemberAction,
    TeamFooterAction, TeamsPageSection, TeamsPageView, TeamsWidget,
};
use warp_client::workspace::{
    BillingMetadata, CustomerType, DiscoverableTeam, EmailInvite, MembershipRole,
    MultiAdminPolicy, NativeWorkspacesPolicy, Team, TeamMember, Tier, Workspace, WorkspaceMember,
};

const OR_JOIN_TEAM_HEADER: JoinTeamsHeader = JoinTeamsHeader::OrJoinTeam;
const JOIN_TEAM_HEADER: JoinTeamsHeader = JoinTeamsHeader::JoinTeam;
const DISABLED_MEMBER_TOOLTIP_TEXT: &str = "This member's account has been disabled.";

fn member(email: &str, role: MembershipRole) -> TeamMember {
    TeamMember {
        uid: email.to_string(),
        email: email.to_string(),
        role,
        is_disabled: false,
    }
}

fn disabled_member(email: &str, role: MembershipRole) -> TeamMember {
    TeamMember {
        is_disabled: true,
        ..member(email, role)
    }
}

fn team_with_members(members: Vec<TeamMember>, multi_admin_enabled: bool) -> Team {
    Team {
        uid: ServerId::from_number(1),
        name: "Test Team".to_string(),
        members,
        pending_email_invites: vec![],
        billing_metadata: BillingMetadata {
            tier: Tier {
                multi_admin_policy: Some(MultiAdminPolicy {
                    enabled: multi_admin_enabled,
                }),
                native_workspaces_policy: None,
            },
            customer_type: CustomerType::Unknown,
        },
    }
}

fn workspace_with_member(
    email: &str,
    role: MembershipRole,
    native_workspaces_enabled: bool,
) -> Workspace {
    let mut workspace =
        Workspace::from_local_cache(ServerId::from_number(2), "Test Workspace".to_string());
    workspace.billing_metadata.tier.native_workspaces_policy = Some(NativeWorkspacesPolicy {
        enabled: native_workspaces_enabled,
    });
    workspace.members.push(WorkspaceMember {
        uid: email.to_string(),
        email: email.to_string(),
        role,
        is_disabled: false,
    });
    workspace
}

fn admin_workspace(email: &str) -> Workspace {
    workspace_with_member(email, MembershipRole::Admin, true)
}

fn open_team(uid: &str, name: &str) -> DiscoverableTeam {
    DiscoverableTeam {
        team_uid: uid.to_string(),
        num_members: 2,
        name: name.to_string(),
        team_accepting_invites: true,
    }
}

/// Returns the action labels rendered for the item with the given `text` (a
/// member email or pending-invite email), in the order they were pushed.
fn action_labels(items: &[Item], text: &str) -> Vec<String> {
    items
        .iter()
        .find(|item| item.text == text)
        .map(|item| item.actions.iter().map(|a| a.label.clone()).collect())
        .unwrap_or_default()
}

const OWNER_EMAIL: &str = "owner@example.com";
const ADMIN_EMAIL: &str = "admin@example.com";
const MEMBER_EMAIL: &str = "member@example.com";

#[test]
fn owner_can_transfer_promote_and_remove_without_workspace_admin_role() {
    let team = team_with_members(
        vec![
            member(OWNER_EMAIL, MembershipRole::Owner),
            member(MEMBER_EMAIL, MembershipRole::User),
        ],
        true,
    );
    let workspace = workspace_with_member(OWNER_EMAIL, MembershipRole::User, true);

    let items = TeamsPageView::team_to_item_list(&team, OWNER_EMAIL, &workspace);

    assert_eq!(
        action_labels(&items, MEMBER_EMAIL),
        vec!["Transfer ownership", "Promote to admin", "Remove from team"]
    );
}

#[test]
fn team_admin_can_promote_and_remove_without_workspace_admin_role() {
    let team = team_with_members(
        vec![
            member(ADMIN_EMAIL, MembershipRole::Admin),
            member(MEMBER_EMAIL, MembershipRole::User),
        ],
        true,
    );
    let workspace = workspace_with_member(ADMIN_EMAIL, MembershipRole::User, true);

    let items = TeamsPageView::team_to_item_list(&team, ADMIN_EMAIL, &workspace);

    // No "Transfer ownership" -- that stays owner-only.
    assert_eq!(
        action_labels(&items, MEMBER_EMAIL),
        vec!["Promote to admin", "Remove from team"]
    );
}

#[test]
fn non_admin_workspace_member_gets_no_member_actions() {
    let team = team_with_members(
        vec![
            member(MEMBER_EMAIL, MembershipRole::User),
            member("other@example.com", MembershipRole::User),
        ],
        true,
    );
    let workspace = workspace_with_member(MEMBER_EMAIL, MembershipRole::User, true);

    let items = TeamsPageView::team_to_item_list(&team, MEMBER_EMAIL, &workspace);

    assert!(action_labels(&items, "other@example.com").is_empty());
}

#[test]
fn workspace_admin_without_team_role_can_promote_demote_and_remove() {
    let team = team_with_members(
        vec![
            member(MEMBER_EMAIL, MembershipRole::User),
            member("regular@example.com", MembershipRole::User),
            member(ADMIN_EMAIL, MembershipRole::Admin),
        ],
        true,
    );
    let workspace = admin_workspace(MEMBER_EMAIL);

    let items = TeamsPageView::team_to_item_list(&team, MEMBER_EMAIL, &workspace);

    assert_eq!(
        action_labels(&items, "regular@example.com"),
        vec!["Promote to admin", "Remove from workspace"]
    );
    assert_eq!(
        action_labels(&items, ADMIN_EMAIL),
        vec!["Demote from admin", "Remove from workspace"]
    );
}

#[test]
fn workspace_admin_gets_team_management_permissions() {
    let team = team_with_members(vec![member(MEMBER_EMAIL, MembershipRole::User)], true);
    let workspace = admin_workspace(MEMBER_EMAIL);

    assert!(TeamsPageView::has_admin_permissions(&team, &workspace, MEMBER_EMAIL));
}

#[test]
fn workspace_admin_without_native_workspaces_policy_can_manage_members() {
    let team = team_with_members(
        vec![
            member(MEMBER_EMAIL, MembershipRole::User),
            member("other@example.com", MembershipRole::User),
        ],
        true,
    );
    let workspace = workspace_with_member(MEMBER_EMAIL, MembershipRole::Admin, false);

    let items = TeamsPageView::team_to_item_list(&team, MEMBER_EMAIL, &workspace);

    assert_eq!(
        action_labels(&items, "other@example.com"),
        vec!["Promote to admin", "Remove from team"]
    );
}

#[test]
fn workspace_admin_cannot_transfer_ownership() {
    let team = team_with_members(
        vec![
            member(MEMBER_EMAIL, MembershipRole::User),
            member(OWNER_EMAIL, MembershipRole::Owner),
        ],
        true,
    );
    let workspace = admin_workspace(MEMBER_EMAIL);

    let items = TeamsPageView::team_to_item_list(&team, MEMBER_EMAIL, &workspace);

    // Ownership transfer stays gated on team-owner permissions only.
    assert!(action_labels(&items, OWNER_EMAIL).is_empty());
}

#[test]
fn workspace_admin_without_multi_admin_plan_can_remove_but_not_promote() {
    let team = team_with_members(
        vec![
            member(MEMBER_EMAIL, MembershipRole::User),
            member("regular@example.com", MembershipRole::User),
        ],
        false,
    );
    let workspace = admin_workspace(MEMBER_EMAIL);

    let items = TeamsPageView::team_to_item_list(&team, MEMBER_EMAIL, &workspace);

    // The multi-admin plan gate on promote/demote is unaffected by the
    // workspace-admin override.
    assert_eq!(
        action_labels(&items, "regular@example.com"),
        vec!["Remove from workspace"]
    );
}

#[test]
fn current_user_gets_no_actions_against_their_own_row_as_workspace_admin() {
    let team = team_with_members(
        vec![
            member(MEMBER_EMAIL, MembershipRole::User),
            member("other@example.com", MembershipRole::User),
        ],
        true,
    );
    let workspace = admin_workspace(MEMBER_EMAIL);

    let items = TeamsPageView::team_to_item_list(&team, MEMBER_EMAIL, &workspace);

    assert!(action_labels(&items, MEMBER_EMAIL).is_empty());
}

#[test]
fn native_team_admin_does_not_get_remove_from_workspace() {
    let team = team_with_members(
        vec![
            member(ADMIN_EMAIL, MembershipRole::Admin),
            member(MEMBER_EMAIL, MembershipRole::User),
        ],
        true,
    );
    let workspace = workspace_with_member(ADMIN_EMAIL, MembershipRole::User, true);

    let items = TeamsPageView::team_to_item_list(&team, ADMIN_EMAIL, &workspace);

    assert_eq!(
        action_labels(&items, MEMBER_EMAIL),
        vec!["Promote to admin", "Remove from team"]
    );
}

#[test]
fn native_workspace_admin_who_is_also_team_admin_gets_both_remove_actions() {
    let team = team_with_members(
        vec![
            member(ADMIN_EMAIL, MembershipRole::Admin),
            member(MEMBER_EMAIL, MembershipRole::User),
        ],
        true,
    );
    let workspace = admin_workspace(ADMIN_EMAIL);

    let items = TeamsPageView::team_to_item_list(&team, ADMIN_EMAIL, &workspace);

    assert_eq!(
        action_labels(&items, MEMBER_EMAIL),
        vec![
            "Promote to admin",
            "Remove from workspace",
            "Remove from team"
        ]
    );
}

#[test]
fn native_workspace_admin_cannot_remove_workspace_owner() {
    let team = team_with_members(
        vec![
            member(MEMBER_EMAIL, MembershipRole::User),
            member(OWNER_EMAIL, MembershipRole::User),
        ],
        true,
    );
    let mut workspace = admin_workspace(MEMBER_EMAIL);
    workspace.members.push(WorkspaceMember {
        uid: OWNER_EMAIL.to_string(),
        email: OWNER_EMAIL.to_string(),
        role: MembershipRole::Owner,
        is_disabled: false,
    });

    let items = TeamsPageView::team_to_item_list(&team, MEMBER_EMAIL, &workspace);

    assert!(!action_labels(&items, OWNER_EMAIL).contains(&"Remove from workspace".to_string()));
}

#[test]
fn non_native_workspace_keeps_create_team_ui() {
    let workspace = workspace_with_member(ADMIN_EMAIL, MembershipRole::Admin, false);

    assert_eq!(
        TeamsWidget::page_sections_for(Some(&workspace), Some(ADMIN_EMAIL), true),
        vec![
            TeamsPageSection::CreateTeam,
            TeamsPageSection::JoinTeams {
                header: OR_JOIN_TEAM_HEADER
            }
        ]
    );
    assert_eq!(
        TeamsWidget::page_sections_for(Some(&workspace), Some(ADMIN_EMAIL), false),
        vec![TeamsPageSection::CreateTeam]
    );
}

#[test]
fn unresolved_workspace_keeps_create_team_ui() {
    assert_eq!(
        TeamsWidget::page_sections_for(None, Some(MEMBER_EMAIL), false),
        vec![TeamsPageSection::CreateTeam]
    );
}

#[test]
fn native_workspace_admin_gets_admin_panel_cta() {
    let workspace = admin_workspace(ADMIN_EMAIL);

    assert_eq!(
        TeamsWidget::page_sections_for(Some(&workspace), Some(ADMIN_EMAIL), true),
        vec![
            TeamsPageSection::JoinTeams {
                header: JOIN_TEAM_HEADER
            },
            TeamsPageSection::AdminPanelCta
        ]
    );
    assert_eq!(
        TeamsWidget::page_sections_for(Some(&workspace), Some(ADMIN_EMAIL), false),
        vec![TeamsPageSection::AdminPanelCta]
    );
}

#[test]
fn native_workspace_member_gets_join_or_empty_state() {
    let workspace = workspace_with_member(MEMBER_EMAIL, MembershipRole::User, true);

    assert_eq!(
        TeamsWidget::page_sections_for(Some(&workspace), Some(MEMBER_EMAIL), true),
        vec![TeamsPageSection::JoinTeams {
            header: JOIN_TEAM_HEADER
        }]
    );
    assert_eq!(
        TeamsWidget::page_sections_for(Some(&workspace), Some(MEMBER_EMAIL), false),
        vec![TeamsPageSection::NoTeamsToJoin]
    );
}

#[test]
fn native_workspace_member_cannot_leave_their_only_team() {
    let team = team_with_members(vec![member(MEMBER_EMAIL, MembershipRole::User)], false);
    let mut workspace = workspace_with_member(MEMBER_EMAIL, MembershipRole::User, true);
    workspace.teams.push(team.clone());

    assert_eq!(TeamsWidget::team_footer_action(&team, &workspace, false), None);
}

#[test]
fn native_workspace_owner_can_leave_an_enterprise_team_when_not_team_owner() {
    let mut team = team_with_members(vec![member(ADMIN_EMAIL, MembershipRole::Admin)], true);
    team.billing_metadata.customer_type = CustomerType::Enterprise;
    let mut other_team = team.clone();
    other_team.uid = ServerId::from_number(2);
    let mut workspace = workspace_with_member(ADMIN_EMAIL, MembershipRole::Owner, true);
    workspace.teams = vec![team.clone(), other_team];

    assert_eq!(
        TeamsWidget::team_footer_action(&team, &workspace, false),
        Some(TeamFooterAction::Leave)
    );
}

#[test]
fn native_workspace_team_owner_must_transfer_ownership_before_leaving() {
    let mut team = team_with_members(vec![member(OWNER_EMAIL, MembershipRole::Owner)], true);
    team.billing_metadata.customer_type = CustomerType::Enterprise;
    let mut other_team = team.clone();
    other_team.uid = ServerId::from_number(2);
    let mut workspace = workspace_with_member(OWNER_EMAIL, MembershipRole::Owner, true);
    workspace.teams = vec![team.clone(), other_team];

    assert_eq!(TeamsWidget::team_footer_action(&team, &workspace, true), None);
}

#[test]
fn non_native_enterprise_workspace_keeps_team_actions_hidden() {
    let mut team = team_with_members(vec![member(ADMIN_EMAIL, MembershipRole::Admin)], true);
    team.billing_metadata.customer_type = CustomerType::Enterprise;
    let workspace = workspace_with_member(ADMIN_EMAIL, MembershipRole::Admin, false);

    assert_eq!(TeamsWidget::team_footer_action(&team, &workspace, false), None);
}

#[test]
fn native_workspace_member_can_leave_when_another_membership_remains() {
    let team = team_with_members(vec![member(MEMBER_EMAIL, MembershipRole::User)], false);
    let mut other_team = team.clone();
    other_team.uid = ServerId::from_number(2);
    let mut workspace = workspace_with_member(MEMBER_EMAIL, MembershipRole::User, true);
    workspace.teams = vec![team.clone(), other_team];

    assert_eq!(
        TeamsWidget::team_footer_action(&team, &workspace, false),
        Some(TeamFooterAction::Leave)
    );
}

#[test]
fn native_workspace_member_on_a_team_can_join_another_open_team() {
    let mut workspace = workspace_with_member(MEMBER_EMAIL, MembershipRole::User, true);
    workspace.teams.push(team_with_members(
        vec![member(MEMBER_EMAIL, MembershipRole::User)],
        false,
    ));
    workspace.open_teams = vec![open_team("0000000000000000000002", "Second Team")];

    let states = TeamsPageView::open_team_states_for_workspace(Some(&workspace), false);

    assert_eq!(states.len(), 1);
    assert_eq!(states[0].team.name, "Second Team");
}

#[test]
fn non_native_workspace_does_not_show_open_teams() {
    let mut workspace = workspace_with_member(MEMBER_EMAIL, MembershipRole::User, false);
    workspace.open_teams = vec![open_team("0000000000000000000002", "Second Team")];

    let states = TeamsPageView::open_team_states_for_workspace(Some(&workspace), false);

    assert!(states.is_empty());
}

#[test]
fn native_workspace_with_no_open_teams_does_not_offer_browse_teams() {
    let workspace = workspace_with_member(MEMBER_EMAIL, MembershipRole::User, true);

    let states = TeamsPageView::open_team_states_for_workspace(Some(&workspace), false);

    assert!(states.is_empty());
}

#[test]
fn joined_team_disappears_from_open_teams_after_membership_refresh() {
    let joined_team_uid = "0000000000000000000002";
    let mut workspace = workspace_with_member(MEMBER_EMAIL, MembershipRole::User, true);
    workspace.open_teams = vec![open_team(joined_team_uid, "Second Team")];
    assert_eq!(TeamsPageView::open_team_states_for_workspace(Some(&workspace), false).len(), 1);

    let mut joined_team =
        team_with_members(vec![member(MEMBER_EMAIL, MembershipRole::User)], false);
    joined_team.uid = ServerId::from_string_lossy(joined_team_uid);
    workspace.teams.push(joined_team);

    assert!(
        TeamsPageView::open_team_states_for_workspace(Some(&workspace), false).is_empty(),
        "a refreshed membership must hide the joined team even if openTeams is stale"
    );
}

#[test]
fn viewer_missing_from_the_workspace_roster_is_not_an_admin() {
    let workspace = admin_workspace(ADMIN_EMAIL);

    assert_eq!(
        TeamsWidget::page_sections_for(Some(&workspace), None, false),
        vec![TeamsPageSection::NoTeamsToJoin]
    );
}

#[test]
fn workspace_admin_can_cancel_pending_invite() {
    let mut team = team_with_members(vec![member(MEMBER_EMAIL, MembershipRole::User)], true);
    team.pending_email_invites.push(EmailInvite {
        invitee_email: "invitee@example.com".to_string(),
        expired: false,
        team_uid: Some(ServerId::from_number(1)),
    });
    let workspace = admin_workspace(MEMBER_EMAIL);

    let items = TeamsPageView::team_to_item_list(&team, MEMBER_EMAIL, &workspace);

    assert_eq!(
        action_labels(&items, "invitee@example.com"),
        vec!["Cancel invite"]
    );
}

#[test]
fn disabled_member_is_flagged_but_keeps_removal_action() {
    let team = team_with_members(
        vec![
            member(ADMIN_EMAIL, MembershipRole::Admin),
            disabled_member(MEMBER_EMAIL, MembershipRole::User),
        ],
        true,
    );
    let workspace = workspace_with_member(ADMIN_EMAIL, MembershipRole::User, true);

    let items = TeamsPageView::team_to_item_list(&team, ADMIN_EMAIL, &workspace);

    let disabled_item = items
        .iter()
        .find(|item| item.text == MEMBER_EMAIL)
        .expect("disabled member should still be listed");
    assert!(
        disabled_item.is_disabled,
        "a member whose account is disabled should be flagged for the dimmed/tooltip treatment"
    );
    // Same action set as an equivalent active member (see
    // `team_admin_can_promote_and_remove_without_workspace_admin_role`):
    // disabling an account must not change which actions are offered.
    assert_eq!(
        action_labels(&items, MEMBER_EMAIL),
        vec!["Promote to admin", "Remove from team"]
    );
}

#[test]
fn active_member_is_not_flagged_disabled() {
    let team = team_with_members(
        vec![
            member(ADMIN_EMAIL, MembershipRole::Admin),
            member(MEMBER_EMAIL, MembershipRole::User),
        ],
        true,
    );
    let workspace = workspace_with_member(ADMIN_EMAIL, MembershipRole::User, true);

    let items = TeamsPageView::team_to_item_list(&team, ADMIN_EMAIL, &workspace);

    let active_item = items
        .iter()
        .find(|item| item.text == MEMBER_EMAIL)
        .expect("member should be listed");
    assert!(
        !active_item.is_disabled,
        "an active member's account must not be flagged disabled"
    );
}

#[test]
fn disabled_member_tooltip_only_for_disabled_rows() {
    assert_eq!(
        disabled_member_tooltip_text(true),
        Some(DISABLED_MEMBER_TOOLTIP_TEXT)
    );
    assert_eq!(disabled_member_tooltip_text(false), None);
}

#[test]
fn items_list_members_then_invites_with_matching_actions() {
    let mut team = team_with_members(
        vec![
            member(OWNER_EMAIL, MembershipRole::Owner),
            member(ADMIN_EMAIL, MembershipRole::Admin),
        ],
        true,
    );
    team.pending_email_invites.push(EmailInvite {
        invitee_email: "late@example.com".to_string(),
        expired: true,
        team_uid: None,
    });
    let workspace = workspace_with_member(OWNER_EMAIL, MembershipRole::User, false);

    let items = TeamsPageView::team_to_item_list(&team, OWNER_EMAIL, &workspace);

    let texts: Vec<&str> = items.iter().map(|i| i.text.as_str()).collect();
    assert_eq!(texts, vec![OWNER_EMAIL, ADMIN_EMAIL, "late@example.com"]);
    let kinds: Vec<MemberAction> = items[1].actions.iter().map(|a| a.action).collect();
    assert_eq!(
        kinds,
        vec![
            MemberAction::TransferOwnership,
            MemberAction::DemoteFromAdmin,
            MemberAction::RemoveFromTeam
        ]
    );
    assert_eq!(action_labels(&items, "late@example.com"), vec!["Cancel invite"]);
}

#[test]
fn non_native_non_enterprise_member_can_leave() {
    let team = team_with_members(vec![member(MEMBER_EMAIL, MembershipRole::User)], false);
    let workspace = workspace_with_member(MEMBER_EMAIL, MembershipRole::User, false);
    assert_eq!(
        TeamsWidget::team_footer_action(&team, &workspace, false),
        Some(TeamFooterAction::Leave)
    );
    assert_eq!(TeamsWidget::team_footer_action(&team, &workspace, true), None);
}

#[test]
fn join_team_headers_have_their_text() {
    assert_eq!(join_teams_header_text(JOIN_TEAM_HEADER), "Join a team");
    assert_eq!(join_teams_header_text(OR_JOIN_TEAM_HEADER), "Or, join a team");
}

#[test]
fn numeric_server_ids_are_zero_padded() {
    assert_eq!(ServerId::from_number(2).uid(), "0000000000000000000002");
    assert_eq!(ServerId::from_number(0).uid(), "0000000000000000000000");
    assert_eq!(
        ServerId::from_number(u64::MAX).uid(),
        "0018446744073709551615"
    );
    assert!(ServerId::from_number(2).same_as(&ServerId::from_string_lossy("0000000000000000000002")));
}

#[test]
fn wasm_does_not_expose_open_workspace_teams() {
    let mut workspace = workspace_with_member(MEMBER_EMAIL, MembershipRole::User, true);
    workspace.open_teams = vec![open_team("0000000000000000000002", "Second Team")];

    let states = TeamsPageView::open_team_states_for_workspace(Some(&workspace), true);

    assert!(states.is_empty());
}
