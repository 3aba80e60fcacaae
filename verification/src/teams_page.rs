//! The rules of the teams settings page: which actions the viewer is offered
//! on each member and invite row, which sections the page shows, whether a
//! team can be left, and which open teams can be joined.
use crate::text::str_eq;
use crate::workspace::{
    is_admin_role, is_multi_admin_enabled, is_native_workspaces_enabled, multi_admin_enabled,
    native_workspaces_enabled, team_role, team_role_of, workspace_role, workspace_role_of,
    CustomerType, DiscoverableTeam, MembershipRole, Team, Workspace,
};
use vstd::prelude::*;

verus! {

/// An action offered on a row of the team list.
#[derive(Clone, Copy, Debug, PartialEq, Eq, Structural)]
pub enum MemberAction {
    TransferOwnership,
    PromoteToAdmin,
    DemoteFromAdmin,
    RemoveFromWorkspace,
    RemoveFromTeam,
    CancelInvite,
}

/// The label shown for an action.
pub open spec fn action_label(a: MemberAction) -> Seq<char> {
    match a {
        MemberAction::TransferOwnership => "Transfer ownership"@,
        MemberAction::PromoteToAdmin => "Promote to admin"@,
        MemberAction::DemoteFromAdmin => "Demote from admin"@,
        MemberAction::RemoveFromWorkspace => "Remove from workspace"@,
        MemberAction::RemoveFromTeam => "Remove from team"@,
        MemberAction::CancelInvite => "Cancel invite"@,
    }
}

/// The label shown for an action.
pub fn label_for(a: MemberAction) -> (r: &'static str)
    ensures
        r@ == action_label(a),
{
    match a {
        MemberAction::TransferOwnership => "Transfer ownership",
        MemberAction::PromoteToAdmin => "Promote to admin",
        MemberAction::DemoteFromAdmin => "Demote from admin",
        MemberAction::RemoveFromWorkspace => "Remove from workspace",
        MemberAction::RemoveFromTeam => "Remove from team",
        MemberAction::CancelInvite => "Cancel invite",
    }
}

/// An action on a row, with its label.
pub struct ItemAction {
    pub action: MemberAction,
    pub label: String,
}

/// A row of the team list: a member or a pending invite.
pub struct Item {
    /// The member's or invitee's email.
    pub text: String,
    pub actions: Vec<ItemAction>,
    /// The member's account is disabled: the row is dimmed and tooltipped.
    pub is_disabled: bool,
}

/// The actions of a row.
pub open spec fn item_actions(i: Item) -> Seq<MemberAction> {
    i.actions@.map_values(|a: ItemAction| a.action)
}

/// Each action carries its own label.
pub open spec fn labels_match(i: Item) -> bool {
    forall|k: int| 0 <= k < i.actions@.len() ==> #[trigger] i.actions@[k].label@ == action_label(
        i.actions@[k].action,
    )
}

/// The viewer holds an administering role in the team.
pub open spec fn is_team_admin(team: Team, viewer: Seq<char>) -> bool {
    match team_role_of(team.members@, viewer) {
        Some(r) => is_admin_role(r),
        None => false,
    }
}

/// The viewer is an owner or admin of the workspace; a viewer missing from
/// the workspace roster is not.
pub open spec fn is_workspace_admin(ws: Workspace, viewer: Seq<char>) -> bool {
    match workspace_role_of(ws.members@, viewer) {
        Some(r) => is_admin_role(r),
        None => false,
    }
}

/// The viewer may manage the team's members: a team admin or owner, or a
/// workspace admin or owner.
pub open spec fn admin_permissions(team: Team, ws: Workspace, viewer: Seq<char>) -> bool {
    is_team_admin(team, viewer) || is_workspace_admin(ws, viewer)
}

/// The actions the viewer is offered on the row of a team member whose
/// email is `email` and whose team role is `role`, in display order.
///
/// - none on the viewer's own row;
/// - transfer ownership: the viewer owns the team;
/// - promote or demote: the viewer has admin permissions and the plan allows
///   several admins; never on the team owner;
/// - remove from workspace: native workspaces only, by a workspace admin;
///   never on the team owner or the workspace owner;
/// - remove from team: by a team admin, or by a workspace admin outside
///   native workspaces; never on the team owner.
pub open spec fn member_actions(
    team: Team,
    ws: Workspace,
    viewer: Seq<char>,
    email: Seq<char>,
    role: MembershipRole,
) -> Seq<MemberAction> {
    row_actions(
        email == viewer,
        team_role_of(team.members@, viewer) == Some(MembershipRole::Owner),
        is_team_admin(team, viewer),
        is_workspace_admin(ws, viewer),
        native_workspaces_enabled(ws.billing_metadata),
        multi_admin_enabled(team.billing_metadata),
        role,
        workspace_role_of(ws.members@, email) == Some(MembershipRole::Owner),
    )
}

/// The rules of [`member_actions`] over the facts they read: whether the row
/// is the viewer's own, the viewer's standing, the plan, the target's team
/// role, and whether the target owns the workspace.
pub open spec fn row_actions(
    own_row: bool,
    owner: bool,
    team_admin: bool,
    ws_admin: bool,
    native: bool,
    multi_admin: bool,
    role: MembershipRole,
    target_ws_owner: bool,
) -> Seq<MemberAction> {
    if own_row {
        Seq::empty()
    } else {
        let target_owner = role == MembershipRole::Owner;
        let transfer = if owner && !target_owner {
            seq![MemberAction::TransferOwnership]
        } else {
            Seq::empty()
        };
        let promote = if (team_admin || ws_admin) && multi_admin && !target_owner {
            if role == MembershipRole::Admin {
                seq![MemberAction::DemoteFromAdmin]
            } else {
                seq![MemberAction::PromoteToAdmin]
            }
        } else {
            Seq::empty()
        };
        let remove_ws = if native && ws_admin && !target_owner && !target_ws_owner {
            seq![MemberAction::RemoveFromWorkspace]
        } else {
            Seq::empty()
        };
        let remove_team = if (team_admin || (ws_admin && !native)) && !target_owner {
            seq![MemberAction::RemoveFromTeam]
        } else {
            Seq::empty()
        };
        transfer + promote + remove_ws + remove_team
    }
}

/// No viewer is offered any action on the team owner's row, nor on their
/// own row.
pub proof fn law_owner_and_own_rows_have_no_actions(
    team: Team,
    ws: Workspace,
    viewer: Seq<char>,
    email: Seq<char>,
    role: MembershipRole,
)
    requires
        role == MembershipRole::Owner || email == viewer,
    ensures
        member_actions(team, ws, viewer, email, role) == Seq::<MemberAction>::empty(),
{
    assert(member_actions(team, ws, viewer, email, role) =~= Seq::<MemberAction>::empty());
}

/// Removing from the workspace is offered only in native workspaces, only to
/// workspace admins, and never on the workspace owner; removing from the team
/// is never offered to a workspace admin of a native workspace who holds no
/// team admin role.
pub proof fn law_removal_scopes(
    team: Team,
    ws: Workspace,
    viewer: Seq<char>,
    email: Seq<char>,
    role: MembershipRole,
)
    ensures
        member_actions(team, ws, viewer, email, role).contains(MemberAction::RemoveFromWorkspace)
            ==> native_workspaces_enabled(ws.billing_metadata) && is_workspace_admin(ws, viewer)
            && workspace_role_of(ws.members@, email) != Some(MembershipRole::Owner),
        member_actions(team, ws, viewer, email, role).contains(MemberAction::RemoveFromTeam)
            ==> is_team_admin(team, viewer) || !native_workspaces_enabled(ws.billing_metadata),
{
    let a = member_actions(team, ws, viewer, email, role);
    if a.contains(MemberAction::RemoveFromWorkspace) {
        let i = choose|i: int| 0 <= i < a.len() && a[i] == MemberAction::RemoveFromWorkspace;
    }
    if a.contains(MemberAction::RemoveFromTeam) {
        let i = choose|i: int| 0 <= i < a.len() && a[i] == MemberAction::RemoveFromTeam;
    }
}

/// The place of an action in a row's display order: transfer, promote or
/// demote, remove from workspace, remove from team, cancel invite.
pub open spec fn display_rank(a: MemberAction) -> int {
    match a {
        MemberAction::TransferOwnership => 0,
        MemberAction::PromoteToAdmin => 1,
        MemberAction::DemoteFromAdmin => 1,
        MemberAction::RemoveFromWorkspace => 2,
        MemberAction::RemoveFromTeam => 3,
        MemberAction::CancelInvite => 4,
    }
}

/// The actions come in display order, each at most once.
pub open spec fn in_display_order(s: Seq<MemberAction>) -> bool {
    forall|i: int, j: int|
        0 <= i < j < s.len() ==> display_rank(#[trigger] s[i]) < display_rank(#[trigger] s[j])
}

proof fn lemma_display_order_concat(a: Seq<MemberAction>, b: Seq<MemberAction>, mid: int)
    requires
        in_display_order(a),
        in_display_order(b),
        forall|i: int| 0 <= i < a.len() ==> display_rank(#[trigger] a[i]) < mid,
        forall|j: int| 0 <= j < b.len() ==> display_rank(#[trigger] b[j]) >= mid,
    ensures
        in_display_order(a + b),
{
    let c = a + b;
    assert forall|i: int, j: int| 0 <= i < j < c.len() implies display_rank(#[trigger] c[i])
        < display_rank(#[trigger] c[j]) by {
        if j < a.len() {
            assert(c[i] == a[i] && c[j] == a[j]);
        } else if i >= a.len() {
            assert(c[i] == b[i - a.len()] && c[j] == b[j - a.len()]);
        } else {
            assert(c[i] == a[i] && c[j] == b[j - a.len()]);
        }
    }
}

proof fn lemma_row_actions_facts(
    own_row: bool,
    owner: bool,
    team_admin: bool,
    ws_admin: bool,
    native: bool,
    multi: bool,
    role: MembershipRole,
    target_ws_owner: bool,
)
    ensures
        ({
            let a = row_actions(
                own_row,
                owner,
                team_admin,
                ws_admin,
                native,
                multi,
                role,
                target_ws_owner,
            );
            let target_owner = role == MembershipRole::Owner;
            &&& a.contains(MemberAction::TransferOwnership) <==> (!own_row && owner
                && !target_owner)
            &&& a.contains(MemberAction::PromoteToAdmin) <==> (!own_row && (team_admin
                || ws_admin) && multi && !target_owner && role != MembershipRole::Admin)
            &&& a.contains(MemberAction::DemoteFromAdmin) <==> (!own_row && (team_admin
                || ws_admin) && multi && role == MembershipRole::Admin)
            &&& a.contains(MemberAction::RemoveFromWorkspace) <==> (!own_row && native
                && ws_admin && !target_owner && !target_ws_owner)
            &&& a.contains(MemberAction::RemoveFromTeam) <==> (!own_row && (team_admin
                || (ws_admin && !native)) && !target_owner)
            &&& !a.contains(MemberAction::CancelInvite)
            &&& in_display_order(a)
        }),
{
    broadcast use vstd::seq_lib::lemma_seq_concat_contains_all_elements;

    let a = row_actions(own_row, owner, team_admin, ws_admin, native, multi, role, target_ws_owner);
    if !own_row {
        let target_owner = role == MembershipRole::Owner;
        let t = if owner && !target_owner {
            seq![MemberAction::TransferOwnership]
        } else {
            Seq::empty()
        };
        let p = if (team_admin || ws_admin) && multi && !target_owner {
            if role == MembershipRole::Admin {
                seq![MemberAction::DemoteFromAdmin]
            } else {
                seq![MemberAction::PromoteToAdmin]
            }
        } else {
            Seq::empty()
        };
        let w = if native && ws_admin && !target_owner && !target_ws_owner {
            seq![MemberAction::RemoveFromWorkspace]
        } else {
            Seq::empty()
        };
        let r = if (team_admin || (ws_admin && !native)) && !target_owner {
            seq![MemberAction::RemoveFromTeam]
        } else {
            Seq::empty()
        };
        assert(a == t + p + w + r);
        assert forall|x: MemberAction| #[trigger] t.contains(x) <==> (x
            == MemberAction::TransferOwnership && owner && !target_owner) by {
            if owner && !target_owner {
                assert(t[0] == MemberAction::TransferOwnership);
            }
        }
        assert forall|x: MemberAction| #[trigger] p.contains(x) <==> ((team_admin || ws_admin)
            && multi && !target_owner && (if role == MembershipRole::Admin {
            x == MemberAction::DemoteFromAdmin
        } else {
            x == MemberAction::PromoteToAdmin
        })) by {
            if (team_admin || ws_admin) && multi && !target_owner {
                if role == MembershipRole::Admin {
                    assert(p[0] == MemberAction::DemoteFromAdmin);
                } else {
                    assert(p[0] == MemberAction::PromoteToAdmin);
                }
            }
        }
        assert forall|x: MemberAction| #[trigger] w.contains(x) <==> (x
            == MemberAction::RemoveFromWorkspace && native && ws_admin && !target_owner
            && !target_ws_owner) by {
            if native && ws_admin && !target_owner && !target_ws_owner {
                assert(w[0] == MemberAction::RemoveFromWorkspace);
            }
        }
        assert forall|x: MemberAction| #[trigger] r.contains(x) <==> (x
            == MemberAction::RemoveFromTeam && (team_admin || (ws_admin && !native))
            && !target_owner) by {
            if (team_admin || (ws_admin && !native)) && !target_owner {
                assert(r[0] == MemberAction::RemoveFromTeam);
            }
        }
        lemma_display_order_concat(t, p, 1);
        lemma_display_order_concat(t + p, w, 2);
        lemma_display_order_concat(t + p + w, r, 3);
    } else {
        assert(a =~= Seq::<MemberAction>::empty());
    }
}

proof fn lemma_display_order_no_duplicates(a: Seq<MemberAction>)
    requires
        in_display_order(a),
    ensures
        a.no_duplicates(),
{
    assert forall|i: int, j: int| 0 <= i < a.len() && 0 <= j < a.len() && i != j implies a[i]
        != a[j] by {
        if i < j {
            assert(display_rank(a[i]) < display_rank(a[j]));
        } else {
            assert(display_rank(a[j]) < display_rank(a[i]));
        }
    }
}

/// Which actions a member row offers, each stated by itself:
///
/// - transfer ownership: to the team owner, on another member who is not the
///   owner;
/// - promote (on a plain member) or demote (on an admin): only when the plan
///   allows several admins, to a team or workspace admin, never on the owner;
/// - remove from workspace: in a native workspace, to a workspace admin,
///   never on the team owner nor on the workspace owner;
/// - remove from team: to a team admin, or to a workspace admin outside
///   native workspaces, never on the team owner;
/// - never cancel invite, and nothing on the viewer's own row.
///
/// The actions come in display order, none twice.
pub proof fn law_member_action_conditions(
    team: Team,
    ws: Workspace,
    viewer: Seq<char>,
    email: Seq<char>,
    role: MembershipRole,
)
    ensures
        ({
            let a = member_actions(team, ws, viewer, email, role);
            let other = email != viewer;
            let team_admin = is_team_admin(team, viewer);
            let ws_admin = is_workspace_admin(ws, viewer);
            let native = native_workspaces_enabled(ws.billing_metadata);
            let multi = multi_admin_enabled(team.billing_metadata);
            &&& a.contains(MemberAction::TransferOwnership) <==> (other && team_role_of(
                team.members@,
                viewer,
            ) == Some(MembershipRole::Owner) && role != MembershipRole::Owner)
            &&& a.contains(MemberAction::PromoteToAdmin) <==> (other && (team_admin || ws_admin)
                && multi && role != MembershipRole::Owner && role != MembershipRole::Admin)
            &&& a.contains(MemberAction::DemoteFromAdmin) <==> (other && (team_admin || ws_admin)
                && multi && role == MembershipRole::Admin)
            &&& a.contains(MemberAction::RemoveFromWorkspace) <==> (other && native && ws_admin
                && role != MembershipRole::Owner && workspace_role_of(ws.members@, email) != Some(
                MembershipRole::Owner,
            ))
            &&& a.contains(MemberAction::RemoveFromTeam) <==> (other && (team_admin || (ws_admin
                && !native)) && role != MembershipRole::Owner)
            &&& !a.contains(MemberAction::CancelInvite)
            &&& in_display_order(a)
            &&& a.no_duplicates()
        }),
{
    lemma_row_actions_facts(
        email == viewer,
        team_role_of(team.members@, viewer) == Some(MembershipRole::Owner),
        is_team_admin(team, viewer),
        is_workspace_admin(ws, viewer),
        native_workspaces_enabled(ws.billing_metadata),
        multi_admin_enabled(team.billing_metadata),
        role,
        workspace_role_of(ws.members@, email) == Some(MembershipRole::Owner),
    );
    lemma_display_order_no_duplicates(member_actions(team, ws, viewer, email, role));
}

/// The teams settings page: the list of the viewer's team.
pub struct TeamsPageView;

/// The teams widget: its sections and team card footers.
pub struct TeamsWidget;

/// The actions on the row of a pending invite.
pub open spec fn invite_actions(team: Team, ws: Workspace, viewer: Seq<char>) -> Seq<
    MemberAction,
> {
    if admin_permissions(team, ws, viewer) {
        seq![MemberAction::CancelInvite]
    } else {
        Seq::empty()
    }
}

/// A pending invite can be cancelled, its only action, exactly by a team
/// admin or owner or a workspace admin or owner.
pub proof fn law_invite_cancel_conditions(team: Team, ws: Workspace, viewer: Seq<char>)
    ensures
        invite_actions(team, ws, viewer).contains(MemberAction::CancelInvite) <==> (is_team_admin(
            team,
            viewer,
        ) || is_workspace_admin(ws, viewer)),
        invite_actions(team, ws, viewer).len() <= 1,
{
    if is_team_admin(team, viewer) || is_workspace_admin(ws, viewer) {
        assert(invite_actions(team, ws, viewer)[0] == MemberAction::CancelInvite);
    }
}

fn push_action(actions: &mut Vec<ItemAction>, a: MemberAction)
    ensures
        final(actions)@.len() == old(actions)@.len() + 1,
        forall|k: int| 0 <= k < old(actions)@.len() ==> #[trigger] final(actions)@[k] == old(
            actions,
        )@[k],
        final(actions)@.last().action == a,
        final(actions)@.last().label@ == action_label(a),
{
    let label = String::from_str(label_for(a));
    actions.push(ItemAction { action: a, label });
}

/// The facts about the viewer that the row rules use.
struct Viewer {
    owner: bool,
    team_admin: bool,
    workspace_admin: bool,
    native: bool,
    multi_admin: bool,
}

spec fn viewer_matches(v: Viewer, team: Team, ws: Workspace, viewer: Seq<char>) -> bool {
    &&& v.owner == (team_role_of(team.members@, viewer) == Some(MembershipRole::Owner))
    &&& v.team_admin == is_team_admin(team, viewer)
    &&& v.workspace_admin == is_workspace_admin(ws, viewer)
    &&& v.native == native_workspaces_enabled(ws.billing_metadata)
    &&& v.multi_admin == multi_admin_enabled(team.billing_metadata)
}

fn viewer_facts(team: &Team, workspace: &Workspace, viewer: &str) -> (v: Viewer)
    ensures
        viewer_matches(v, *team, *workspace, viewer@),
{
    let team_role = team_role(&team.members, viewer);
    let ws_role = workspace_role(&workspace.members, viewer);
    let owner = match team_role {
        Some(MembershipRole::Owner) => true,
        _ => false,
    };
    let team_admin = match team_role {
        Some(MembershipRole::Owner) => true,
        Some(MembershipRole::Admin) => true,
        _ => false,
    };
    let workspace_admin = match ws_role {
        Some(MembershipRole::Owner) => true,
        Some(MembershipRole::Admin) => true,
        _ => false,
    };
    Viewer {
        owner,
        team_admin,
        workspace_admin,
        native: is_native_workspaces_enabled(&workspace.billing_metadata),
        multi_admin: is_multi_admin_enabled(&team.billing_metadata),
    }
}

fn row_actions_for(
    own_row: bool,
    owner: bool,
    team_admin: bool,
    ws_admin: bool,
    native: bool,
    multi_admin: bool,
    role: MembershipRole,
    target_ws_owner: bool,
) -> (r: Vec<ItemAction>)
    ensures
        r@.map_values(|a: ItemAction| a.action) == row_actions(
            own_row,
            owner,
            team_admin,
            ws_admin,
            native,
            multi_admin,
            role,
            target_ws_owner,
        ),
        forall|k: int| 0 <= k < r@.len() ==> #[trigger] r@[k].label@ == action_label(r@[k].action),
{
    let mut actions: Vec<ItemAction> = Vec::new();
    if own_row {
        assert(actions@.map_values(|a: ItemAction| a.action) =~= Seq::<MemberAction>::empty());
        return actions;
    }
    let target_owner = match role {
        MembershipRole::Owner => true,
        _ => false,
    };
    let ghost s0 = actions@.map_values(|a: ItemAction| a.action);
    if owner && !target_owner {
        push_action(&mut actions, MemberAction::TransferOwnership);
    }
    let ghost s1 = actions@.map_values(|a: ItemAction| a.action);
    assert(s1 =~= if owner && !target_owner {
        seq![MemberAction::TransferOwnership]
    } else {
        Seq::empty()
    });
    if (team_admin || ws_admin) && multi_admin && !target_owner {
        match role {
            MembershipRole::Admin => push_action(&mut actions, MemberAction::DemoteFromAdmin),
            _ => push_action(&mut actions, MemberAction::PromoteToAdmin),
        }
    }
    let ghost s2 = actions@.map_values(|a: ItemAction| a.action);
    assert(s2 =~= s1 + if (team_admin || ws_admin) && multi_admin && !target_owner {
        if role == MembershipRole::Admin {
            seq![MemberAction::DemoteFromAdmin]
        } else {
            seq![MemberAction::PromoteToAdmin]
        }
    } else {
        Seq::empty()
    });
    if native && ws_admin && !target_owner && !target_ws_owner {
        push_action(&mut actions, MemberAction::RemoveFromWorkspace);
    }
    let ghost s3 = actions@.map_values(|a: ItemAction| a.action);
    assert(s3 =~= s2 + if native && ws_admin && !target_owner && !target_ws_owner {
        seq![MemberAction::RemoveFromWorkspace]
    } else {
        Seq::empty()
    });
    if (team_admin || (ws_admin && !native)) && !target_owner {
        push_action(&mut actions, MemberAction::RemoveFromTeam);
    }
    let ghost s4 = actions@.map_values(|a: ItemAction| a.action);
    assert(s4 =~= s3 + if (team_admin || (ws_admin && !native)) && !target_owner {
        seq![MemberAction::RemoveFromTeam]
    } else {
        Seq::empty()
    });
    actions
}

fn member_row_actions(
    team: &Team,
    workspace: &Workspace,
    viewer: &str,
    v: &Viewer,
    email: &str,
    role: MembershipRole,
) -> (r: Vec<ItemAction>)
    requires
        viewer_matches(*v, *team, *workspace, viewer@),
    ensures
        r@.map_values(|a: ItemAction| a.action) == member_actions(
            *team,
            *workspace,
            viewer@,
            email@,
            role,
        ),
        forall|k: int| 0 <= k < r@.len() ==> #[trigger] r@[k].label@ == action_label(r@[k].action),
{
    let own_row = str_eq(email, viewer);
    let target_ws_owner = match workspace_role(&workspace.members, email) {
        Some(MembershipRole::Owner) => true,
        _ => false,
    };
    row_actions_for(
        own_row,
        v.owner,
        v.team_admin,
        v.workspace_admin,
        v.native,
        v.multi_admin,
        role,
        target_ws_owner,
    )
}

impl TeamsPageView {
    /// Whether the viewer may manage the team's members.
    pub fn has_admin_permissions(team: &Team, workspace: &Workspace, viewer: &str) -> (r: bool)
        ensures
            r == admin_permissions(*team, *workspace, viewer@),
    {
        let v = viewer_facts(team, workspace, viewer);
        v.team_admin || v.workspace_admin
    }
}

impl TeamsPageView {
    /// The rows of the team list as the viewer sees them: one per member, in
    /// member order, then one per pending invite, in invite order.
    pub fn team_to_item_list(team: &Team, viewer: &str, workspace: &Workspace) -> (r: Vec<Item>)
        ensures
            r@.len() == team.members@.len() + team.pending_email_invites@.len(),
            forall|i: int|
                0 <= i < team.members@.len() ==> {
                    &&& (#[trigger] r@[i]).text@ == team.members@[i].email@
                    &&& r@[i].is_disabled == team.members@[i].is_disabled
                    &&& item_actions(r@[i]) == member_actions(
                        *team,
                        *workspace,
                        viewer@,
                        team.members@[i].email@,
                        team.members@[i].role,
                    )
                    &&& labels_match(r@[i])
                },
            forall|j: int|
                0 <= j < team.pending_email_invites@.len() ==> {
                    let row = #[trigger] r@[team.members@.len() + j];
                    &&& row.text@ == team.pending_email_invites@[j].invitee_email@
                    &&& !row.is_disabled
                    &&& item_actions(row) == invite_actions(*team, *workspace, viewer@)
                    &&& labels_match(row)
                },
    {
        let v = viewer_facts(team, workspace, viewer);
        let n = team.members.len();
        let mut items: Vec<Item> = Vec::new();
        let mut i: usize = 0;
        while i < n
            invariant
                n == team.members@.len(),
                i <= n,
                items@.len() == i,
                viewer_matches(v, *team, *workspace, viewer@),
                forall|k: int|
                    0 <= k < i ==> {
                        &&& (#[trigger] items@[k]).text@ == team.members@[k].email@
                        &&& items@[k].is_disabled == team.members@[k].is_disabled
                        &&& item_actions(items@[k]) == member_actions(
                            *team,
                            *workspace,
                            viewer@,
                            team.members@[k].email@,
                            team.members@[k].role,
                        )
                        &&& labels_match(items@[k])
                    },
            decreases n - i,
        {
            let member = &team.members[i];
            let actions = member_row_actions(
                team,
                workspace,
                viewer,
                &v,
                member.email.as_str(),
                member.role,
            );
            items.push(Item { text: member.email.clone(), actions, is_disabled: member.is_disabled });
            i = i + 1;
        }
        let m = team.pending_email_invites.len();
        let mut j: usize = 0;
        while j < m
            invariant
                n == team.members@.len(),
                m == team.pending_email_invites@.len(),
                j <= m,
                items@.len() == n + j,
                viewer_matches(v, *team, *workspace, viewer@),
                forall|k: int|
                    0 <= k < n ==> {
                        &&& (#[trigger] items@[k]).text@ == team.members@[k].email@
                        &&& items@[k].is_disabled == team.members@[k].is_disabled
                        &&& item_actions(items@[k]) == member_actions(
                            *team,
                            *workspace,
                            viewer@,
                            team.members@[k].email@,
                            team.members@[k].role,
                        )
                        &&& labels_match(items@[k])
                    },
                forall|k: int|
                    0 <= k < j ==> {
                        let row = #[trigger] items@[n + k];
                        &&& row.text@ == team.pending_email_invites@[k].invitee_email@
                        &&& !row.is_disabled
                        &&& item_actions(row) == invite_actions(*team, *workspace, viewer@)
                        &&& labels_match(row)
                    },
            decreases m - j,
        {
            let mut actions: Vec<ItemAction> = Vec::new();
            if v.team_admin || v.workspace_admin {
                push_action(&mut actions, MemberAction::CancelInvite);
            }
            assert(actions@.map_values(|a: ItemAction| a.action) =~= invite_actions(
                *team,
                *workspace,
                viewer@,
            ));
            let invite = &team.pending_email_invites[j];
            let ghost before = items@;
            items.push(Item { text: invite.invitee_email.clone(), actions, is_disabled: false });
            assert(forall|k: int| 0 <= k < n + j ==> items@[k] == before[k]);
            j = j + 1;
        }
        items
    }
}

/// The header above the open teams.
#[derive(Clone, Copy, Debug, PartialEq, Eq, Structural)]
pub enum JoinTeamsHeader {
    /// Shown alone, in a native workspace.
    JoinTeam,
    /// Shown under the create-team section.
    OrJoinTeam,
}

/// The text of a join-teams header.
pub fn join_teams_header_text(h: JoinTeamsHeader) -> (r: &'static str)
    ensures
        r@ == match h {
            JoinTeamsHeader::JoinTeam => "Join a team"@,
            JoinTeamsHeader::OrJoinTeam => "Or, join a team"@,
        },
{
    match h {
        JoinTeamsHeader::JoinTeam => "Join a team",
        JoinTeamsHeader::OrJoinTeam => "Or, join a team",
    }
}

/// A section of the teams page shown when the viewer is on no team.
#[derive(Clone, Copy, Debug, PartialEq, Eq, Structural)]
pub enum TeamsPageSection {
    CreateTeam,
    JoinTeams { header: JoinTeamsHeader },
    AdminPanelCta,
    NoTeamsToJoin,
}

/// The sections of the page. Outside native workspaces (or while the
/// workspace is unresolved) teams are created here, with the open teams
/// offered below. In a native workspace teams are created in the admin
/// panel: admins get its call to action; others see the open teams or an
/// empty state.
pub open spec fn page_sections(native: bool, admin: bool, has_open_teams: bool) -> Seq<
    TeamsPageSection,
> {
    if !native {
        if has_open_teams {
            seq![
                TeamsPageSection::CreateTeam,
                TeamsPageSection::JoinTeams { header: JoinTeamsHeader::OrJoinTeam },
            ]
        } else {
            seq![TeamsPageSection::CreateTeam]
        }
    } else if admin {
        if has_open_teams {
            seq![
                TeamsPageSection::JoinTeams { header: JoinTeamsHeader::JoinTeam },
                TeamsPageSection::AdminPanelCta,
            ]
        } else {
            seq![TeamsPageSection::AdminPanelCta]
        }
    } else if has_open_teams {
        seq![TeamsPageSection::JoinTeams { header: JoinTeamsHeader::JoinTeam }]
    } else {
        seq![TeamsPageSection::NoTeamsToJoin]
    }
}

/// The workspace is resolved and native.
pub open spec fn resolved_native(ws: Option<&Workspace>) -> bool {
    match ws {
        Some(w) => native_workspaces_enabled(w.billing_metadata),
        None => false,
    }
}

/// The viewer is known and administers the resolved workspace.
pub open spec fn resolved_admin(ws: Option<&Workspace>, viewer: Option<&str>) -> bool {
    match (ws, viewer) {
        (Some(w), Some(e)) => is_workspace_admin(*w, e@),
        _ => false,
    }
}

impl TeamsWidget {
    /// The sections of the teams page for a viewer who is on no team.
    pub fn page_sections_for(
        workspace: Option<&Workspace>,
        viewer: Option<&str>,
        has_open_teams: bool,
    ) -> (r: Vec<TeamsPageSection>)
        ensures
            r@ == page_sections(
                resolved_native(workspace),
                resolved_admin(workspace, viewer),
                has_open_teams,
            ),
    {
        let native = match workspace {
            Some(w) => is_native_workspaces_enabled(&w.billing_metadata),
            None => false,
        };
        let admin = match (workspace, viewer) {
            (Some(w), Some(e)) => match workspace_role(&w.members, e) {
                Some(MembershipRole::Owner) => true,
                Some(MembershipRole::Admin) => true,
                _ => false,
            },
            _ => false,
        };
        let mut r: Vec<TeamsPageSection> = Vec::new();
        if !native {
            r.push(TeamsPageSection::CreateTeam);
            if has_open_teams {
                r.push(TeamsPageSection::JoinTeams { header: JoinTeamsHeader::OrJoinTeam });
            }
        } else if admin {
            if has_open_teams {
                r.push(TeamsPageSection::JoinTeams { header: JoinTeamsHeader::JoinTeam });
            }
            r.push(TeamsPageSection::AdminPanelCta);
        } else if has_open_teams {
            r.push(TeamsPageSection::JoinTeams { header: JoinTeamsHeader::JoinTeam });
        } else {
            r.push(TeamsPageSection::NoTeamsToJoin);
        }
        assert(r@ =~= page_sections(native, admin, has_open_teams));
        r
    }
}

/// The action at the foot of a team card.
#[derive(Clone, Copy, Debug, PartialEq, Eq, Structural)]
pub enum TeamFooterAction {
    Leave,
}

/// The viewer belongs to a team of the workspace other than `team`.
pub open spec fn has_other_membership(team: Team, ws: Workspace) -> bool {
    exists|i: int| 0 <= i < ws.teams@.len() && #[trigger] ws.teams@[i].uid@ != team.uid@
}

/// Whether the viewer may leave the team. A team owner must first transfer
/// ownership. In a native workspace the viewer keeps at least one team, so
/// leaving needs another membership; outside native workspaces enterprise
/// teams cannot be left.
pub open spec fn footer_action(team: Team, ws: Workspace, is_team_owner: bool) -> Option<
    TeamFooterAction,
> {
    if is_team_owner {
        None
    } else if native_workspaces_enabled(ws.billing_metadata) {
        if has_other_membership(team, ws) {
            Some(TeamFooterAction::Leave)
        } else {
            None
        }
    } else if team.billing_metadata.customer_type == CustomerType::Enterprise {
        None
    } else {
        Some(TeamFooterAction::Leave)
    }
}

/// A team owner is never offered to leave. In a native workspace a
/// non-owner may leave exactly when they belong to some team of the
/// workspace other than this one, wherever it stands in the list; outside
/// native workspaces a non-owner may leave any team that is not an
/// enterprise team.
pub proof fn law_leave_conditions(team: Team, ws: Workspace)
    ensures
        footer_action(team, ws, true) is None,
        native_workspaces_enabled(ws.billing_metadata) ==> (footer_action(team, ws, false)
            == Some(TeamFooterAction::Leave) <==> exists|i: int|
            0 <= i < ws.teams@.len() && ws.teams@[i].uid@ != team.uid@),
        native_workspaces_enabled(ws.billing_metadata) ==> (footer_action(team, ws, false) is None
            <==> forall|i: int| 0 <= i < ws.teams@.len() ==> ws.teams@[i].uid@ == team.uid@),
        !native_workspaces_enabled(ws.billing_metadata) ==> (footer_action(team, ws, false)
            == Some(TeamFooterAction::Leave) <==> team.billing_metadata.customer_type
            != CustomerType::Enterprise),
{
}

impl TeamsWidget {
    /// The action at the foot of the viewer's team card, if any.
    pub fn team_footer_action(team: &Team, workspace: &Workspace, is_team_owner: bool) -> (r: Option<
        TeamFooterAction,
    >)
        ensures
            r == footer_action(*team, *workspace, is_team_owner),
    {
        if is_team_owner {
            return None;
        }
        if is_native_workspaces_enabled(&workspace.billing_metadata) {
            let mut i: usize = 0;
            while i < workspace.teams.len()
                invariant
                    !is_team_owner,
                    native_workspaces_enabled(workspace.billing_metadata),
                    i <= workspace.teams@.len(),
                    forall|k: int| 0 <= k < i ==> #[trigger] workspace.teams@[k].uid@ == team.uid@,
                decreases workspace.teams@.len() - i,
            {
                if !workspace.teams[i].uid.same_as(&team.uid) {
                    assert(workspace.teams@[i as int].uid@ != team.uid@);
                    return Some(TeamFooterAction::Leave);
                }
                i = i + 1;
            }
            None
        } else {
            match team.billing_metadata.customer_type {
                CustomerType::Enterprise => None,
                _ => Some(TeamFooterAction::Leave),
            }
        }
    }
}

/// An open team offered for joining.
pub struct OpenTeamState {
    pub team: DiscoverableTeam,
}

/// The viewer already belongs to the team with this UID.
pub open spec fn joined(ws: Workspace, uid: Seq<char>) -> bool {
    exists|i: int| 0 <= i < ws.teams@.len() && #[trigger] ws.teams@[i].uid@ == uid
}

/// The open teams offered: none on a wasm build, none outside a resolved
/// native workspace; otherwise the workspace's open teams, in order, without
/// those the viewer already belongs to (the membership list wins over a stale
/// open list).
pub open spec fn open_teams_offered(ws: Option<&Workspace>, is_wasm: bool) -> Seq<
    DiscoverableTeam,
> {
    if is_wasm {
        Seq::empty()
    } else {
        open_teams_in(ws)
    }
}

/// The open teams a resolved native workspace offers, without the joined ones.
pub open spec fn open_teams_in(ws: Option<&Workspace>) -> Seq<DiscoverableTeam> {
    match ws {
        Some(w) => if native_workspaces_enabled(w.billing_metadata) {
            w.open_teams@.filter(|t: DiscoverableTeam| !joined(*w, t.team_uid@))
        } else {
            Seq::empty()
        },
        None => Seq::empty(),
    }
}

/// In a resolved native workspace (and not on wasm), an open team is
/// offered exactly when it is one of the workspace's open teams and no team
/// the viewer belongs to has its UID; nothing else is offered, and when the
/// viewer belongs to none of the open teams all of them are offered. The
/// offered teams keep the order of the workspace's open teams.
pub proof fn law_open_teams_are_the_unjoined(w: Workspace, t: DiscoverableTeam)
    requires
        native_workspaces_enabled(w.billing_metadata),
    ensures
        open_teams_offered(Some(&w), false).contains(t) <==> (w.open_teams@.contains(t)
            && forall|j: int| 0 <= j < w.teams@.len() ==> w.teams@[j].uid@ != t.team_uid@),
        open_teams_offered(Some(&w), false).len() <= w.open_teams@.len(),
        (forall|i: int, j: int|
            0 <= i < w.open_teams@.len() && 0 <= j < w.teams@.len() ==> w.teams@[j].uid@
                != w.open_teams@[i].team_uid@) ==> open_teams_offered(Some(&w), false)
            == w.open_teams@,
        open_teams_offered(Some(&w), true).len() == 0,
        ordered_selection(open_teams_offered(Some(&w), false), w.open_teams@),
{
    lemma_filter_is_ordered_selection(
        w.open_teams@,
        |x: DiscoverableTeam| !joined(w, x.team_uid@),
    );
    broadcast use vstd::seq_lib::group_filter_ensures, Seq::lemma_filter_contains_rev;

    let keep = |x: DiscoverableTeam| !joined(w, x.team_uid@);
    let s = w.open_teams@;
    let f = s.filter(keep);
    assert(f == open_teams_offered(Some(&w), false));
    if f.contains(t) {
        let k = choose|k: int| 0 <= k < f.len() && f[k] == t;
        assert(keep(f[k]));
    }
    if s.contains(t) && forall|j: int| 0 <= j < w.teams@.len() ==> w.teams@[j].uid@ != t.team_uid@ {
        let k = choose|k: int| 0 <= k < s.len() && s[k] == t;
        assert(keep(s[k]));
        s.lemma_filter_contains(keep, k);
    }
    s.lemma_filter_len(keep);
    if forall|i: int, j: int|
        0 <= i < s.len() && 0 <= j < w.teams@.len() ==> w.teams@[j].uid@ != s[i].team_uid@ {
        assert forall|i: int| 0 <= i < s.len() implies keep(#[trigger] s[i]) by {
            if joined(w, s[i].team_uid@) {
                let j = choose|j: int| 0 <= j < w.teams@.len() && #[trigger] w.teams@[j].uid@
                    == s[i].team_uid@;
                assert(w.teams@[j].uid@ != s[i].team_uid@);
            }
        }
        lemma_filter_keeps_every(s, keep);
    }
}

/// `sub` is made of elements of `s` taken in the order they stand in `s`,
/// each position of `s` used at most once (a subsequence of `s`).
pub open spec fn ordered_selection(sub: Seq<DiscoverableTeam>, s: Seq<DiscoverableTeam>) -> bool
    decreases s.len(),
{
    if sub.len() == 0 {
        true
    } else if s.len() == 0 {
        false
    } else if sub.last() == s.last() && ordered_selection(sub.drop_last(), s.drop_last()) {
        true
    } else {
        ordered_selection(sub, s.drop_last())
    }
}

proof fn lemma_filter_is_ordered_selection(s: Seq<DiscoverableTeam>, p: spec_fn(DiscoverableTeam) -> bool)
    ensures
        ordered_selection(s.filter(p), s),
    decreases s.len(),
{
    reveal_with_fuel(Seq::<_>::filter, 1);
    if s.len() > 0 {
        let d = s.drop_last();
        lemma_filter_is_ordered_selection(d, p);
        if p(s.last()) {
            assert(s.filter(p) == d.filter(p).push(s.last()));
            assert(s.filter(p).drop_last() =~= d.filter(p));
        } else {
            assert(s.filter(p) == d.filter(p));
        }
    }
}

proof fn lemma_filter_keeps_every(s: Seq<DiscoverableTeam>, p: spec_fn(DiscoverableTeam) -> bool)
    requires
        forall|i: int| 0 <= i < s.len() ==> p(#[trigger] s[i]),
    ensures
        s.filter(p) == s,
    decreases s.len(),
{
    reveal_with_fuel(Seq::<_>::filter, 1);
    if s.len() > 0 {
        let d = s.drop_last();
        assert forall|i: int| 0 <= i < d.len() implies p(#[trigger] d[i]) by {
            assert(d[i] == s[i]);
        }
        lemma_filter_keeps_every(d, p);
        assert(p(s[s.len() - 1]));
        assert(d.push(s.last()) =~= s);
    }
}

fn is_joined(workspace: &Workspace, uid: &str) -> (r: bool)
    ensures
        r == joined(*workspace, uid@),
{
    let mut i: usize = 0;
    while i < workspace.teams.len()
        invariant
            i <= workspace.teams@.len(),
            forall|k: int| 0 <= k < i ==> #[trigger] workspace.teams@[k].uid@ != uid@,
        decreases workspace.teams@.len() - i,
    {
        if str_eq(workspace.teams[i].uid.uid_str(), uid) {
            return true;
        }
        i = i + 1;
    }
    false
}

impl TeamsPageView {
    /// The open teams the viewer can join in this workspace; a wasm build
    /// (`is_wasm`) exposes none.
    pub fn open_team_states_for_workspace(workspace: Option<&Workspace>, is_wasm: bool) -> (r: Vec<
        OpenTeamState,
    >)
        ensures
            r@.map_values(|s: OpenTeamState| s.team) == open_teams_offered(workspace, is_wasm),
    {
        let mut r: Vec<OpenTeamState> = Vec::new();
        if is_wasm {
            assert(r@.map_values(|s: OpenTeamState| s.team) =~= Seq::<DiscoverableTeam>::empty());
            return r;
        }
        match workspace {
            None => {
                assert(r@.map_values(|s: OpenTeamState| s.team) =~= Seq::<DiscoverableTeam>::empty());
                r
            },
            Some(w) => {
                if !is_native_workspaces_enabled(&w.billing_metadata) {
                    assert(r@.map_values(|s: OpenTeamState| s.team) =~= Seq::<
                        DiscoverableTeam,
                    >::empty());
                    return r;
                }
                let ghost keep = |t: DiscoverableTeam| !joined(*w, t.team_uid@);
                let mut i: usize = 0;
                assert(w.open_teams@.take(0).filter(keep) =~= Seq::<DiscoverableTeam>::empty());
                while i < w.open_teams.len()
                    invariant
                        i <= w.open_teams@.len(),
                        keep == (|t: DiscoverableTeam| !joined(*w, t.team_uid@)),
                        r@.map_values(|s: OpenTeamState| s.team) == w.open_teams@.take(
                            i as int,
                        ).filter(keep),
                    decreases w.open_teams@.len() - i,
                {
                    let t = &w.open_teams[i];
                    let ghost before = r@.map_values(|s: OpenTeamState| s.team);
                    proof {
                        reveal_with_fuel(Seq::<_>::filter, 1);
                        assert(w.open_teams@.take(i + 1).drop_last() =~= w.open_teams@.take(i as int));
                    }
                    if !is_joined(w, t.team_uid.as_str()) {
                        let team = t.clone();
                        r.push(OpenTeamState { team });
                        assert(r@.map_values(|s: OpenTeamState| s.team) =~= before.push(*t));
                    }
                    i = i + 1;
                }
                assert(w.open_teams@.take(i as int) =~= w.open_teams@);
                r
            },
        }
    }
}

/// The tooltip of a member row whose account is disabled.
pub fn disabled_member_tooltip_text(is_disabled: bool) -> (r: Option<&'static str>)
    ensures
        match r {
            Some(t) => is_disabled && t@ == "This member's account has been disabled."@,
            None => !is_disabled,
        },
{
    if is_disabled {
        Some("This member's account has been disabled.")
    } else {
        None
    }
}

} // verus!
