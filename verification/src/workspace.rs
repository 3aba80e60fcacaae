//! Workspaces, teams and their members, as the client holds them.
use crate::ids::ServerId;
use crate::text::str_eq;
use vstd::prelude::*;

verus! {

/// A member's role in a team or a workspace.
#[derive(Clone, Copy, Debug, PartialEq, Eq, Structural)]
pub enum MembershipRole {
    Owner,
    Admin,
    User,
}

/// Owners and admins administer.
pub open spec fn is_admin_role(r: MembershipRole) -> bool {
    r == MembershipRole::Owner || r == MembershipRole::Admin
}

/// A member of a team.
#[derive(Clone, Debug)]
pub struct TeamMember {
    pub uid: String,
    pub email: String,
    pub role: MembershipRole,
    /// The member's account has been disabled.
    pub is_disabled: bool,
}

/// A member of a workspace.
#[derive(Clone, Debug)]
pub struct WorkspaceMember {
    pub uid: String,
    pub email: String,
    pub role: MembershipRole,
    pub is_disabled: bool,
}

/// A pending invitation by email.
#[derive(Clone)]
pub struct EmailInvite {
    pub invitee_email: String,
    pub expired: bool,
    pub team_uid: Option<ServerId>,
}

/// Whether a plan allows more than one admin.
#[derive(Clone, Copy, Debug)]
pub struct MultiAdminPolicy {
    pub enabled: bool,
}

/// Whether a plan runs on native workspaces.
#[derive(Clone, Copy, Debug)]
pub struct NativeWorkspacesPolicy {
    pub enabled: bool,
}

/// The policies of a billing tier.
#[derive(Clone, Copy, Debug)]
pub struct Tier {
    pub multi_admin_policy: Option<MultiAdminPolicy>,
    pub native_workspaces_policy: Option<NativeWorkspacesPolicy>,
}

/// The kind of customer a team or workspace belongs to.
#[derive(Clone, Copy, Debug, PartialEq, Eq, Structural)]
pub enum CustomerType {
    Unknown,
    Enterprise,
}

/// Billing information.
#[derive(Clone, Copy, Debug)]
pub struct BillingMetadata {
    pub tier: Tier,
    pub customer_type: CustomerType,
}

impl Tier {
    /// A tier with no policy set.
    pub fn new() -> (r: Self)
        ensures
            r.multi_admin_policy is None,
            r.native_workspaces_policy is None,
    {
        Tier { multi_admin_policy: None, native_workspaces_policy: None }
    }
}

impl BillingMetadata {
    /// Billing with no policy set and an unknown customer type.
    pub fn new() -> (r: Self)
        ensures
            r.tier.multi_admin_policy is None,
            r.tier.native_workspaces_policy is None,
            r.customer_type == CustomerType::Unknown,
    {
        BillingMetadata { tier: Tier::new(), customer_type: CustomerType::Unknown }
    }
}

/// The plan allows several admins (an absent policy does not).
pub open spec fn multi_admin_enabled(b: BillingMetadata) -> bool {
    match b.tier.multi_admin_policy {
        Some(p) => p.enabled,
        None => false,
    }
}

/// The plan runs on native workspaces (an absent policy does not).
pub open spec fn native_workspaces_enabled(b: BillingMetadata) -> bool {
    match b.tier.native_workspaces_policy {
        Some(p) => p.enabled,
        None => false,
    }
}

/// Whether the plan allows several admins.
pub fn is_multi_admin_enabled(b: &BillingMetadata) -> (r: bool)
    ensures
        r == multi_admin_enabled(*b),
{
    match b.tier.multi_admin_policy {
        Some(p) => p.enabled,
        None => false,
    }
}

/// Whether the plan runs on native workspaces.
pub fn is_native_workspaces_enabled(b: &BillingMetadata) -> (r: bool)
    ensures
        r == native_workspaces_enabled(*b),
{
    match b.tier.native_workspaces_policy {
        Some(p) => p.enabled,
        None => false,
    }
}

/// A team.
#[derive(Clone)]
pub struct Team {
    pub uid: ServerId,
    pub name: String,
    pub members: Vec<TeamMember>,
    pub pending_email_invites: Vec<EmailInvite>,
    pub billing_metadata: BillingMetadata,
}

/// A team of the workspace that the viewer may join.
pub struct DiscoverableTeam {
    pub team_uid: String,
    pub num_members: u64,
    pub name: String,
    pub team_accepting_invites: bool,
}

impl Clone for DiscoverableTeam {
    fn clone(&self) -> (r: Self)
        ensures
            r == *self,
    {
        DiscoverableTeam {
            team_uid: self.team_uid.clone(),
            num_members: self.num_members,
            name: self.name.clone(),
            team_accepting_invites: self.team_accepting_invites,
        }
    }
}

/// A workspace: its members, the teams the viewer belongs to, and the open
/// teams the viewer could join.
#[derive(Clone)]
pub struct Workspace {
    pub uid: ServerId,
    pub name: String,
    pub members: Vec<WorkspaceMember>,
    pub teams: Vec<Team>,
    pub open_teams: Vec<DiscoverableTeam>,
    pub billing_metadata: BillingMetadata,
}

impl Workspace {
    /// A workspace known only by id and name: no members, teams or policies.
    pub fn from_local_cache(uid: ServerId, name: String) -> (r: Self)
        ensures
            r.uid@ == uid@,
            r.name@ == name@,
            r.members@.len() == 0,
            r.teams@.len() == 0,
            r.open_teams@.len() == 0,
            !native_workspaces_enabled(r.billing_metadata),
            !multi_admin_enabled(r.billing_metadata),
            r.billing_metadata.customer_type == CustomerType::Unknown,
    {
        Workspace {
            uid,
            name,
            members: Vec::new(),
            teams: Vec::new(),
            open_teams: Vec::new(),
            billing_metadata: BillingMetadata::new(),
        }
    }
}

/// The role of the first team member with the given email.
pub open spec fn team_role_of(m: Seq<TeamMember>, email: Seq<char>) -> Option<MembershipRole>
    decreases m.len(),
{
    if m.len() == 0 {
        None
    } else if m[0].email@ == email {
        Some(m[0].role)
    } else {
        team_role_of(m.drop_first(), email)
    }
}

/// The role of the first workspace member with the given email.
pub open spec fn workspace_role_of(m: Seq<WorkspaceMember>, email: Seq<char>) -> Option<
    MembershipRole,
>
    decreases m.len(),
{
    if m.len() == 0 {
        None
    } else if m[0].email@ == email {
        Some(m[0].role)
    } else {
        workspace_role_of(m.drop_first(), email)
    }
}

/// The role that the member with `email` holds in the team, if any.
pub fn team_role(members: &Vec<TeamMember>, email: &str) -> (r: Option<MembershipRole>)
    ensures
        r == team_role_of(members@, email@),
{
    let mut i: usize = 0;
    assert(members@.skip(0) =~= members@);
    while i < members.len()
        invariant
            i <= members.len(),
            team_role_of(members@, email@) == team_role_of(members@.skip(i as int), email@),
        decreases members.len() - i,
    {
        assert(members@.skip(i as int)[0] == members@[i as int]);
        if str_eq(members[i].email.as_str(), email) {
            return Some(members[i].role);
        }
        assert(members@.skip(i as int).drop_first() =~= members@.skip(i + 1));
        i = i + 1;
    }
    None
}

/// The role that the member with `email` holds in the workspace, if any.
pub fn workspace_role(members: &Vec<WorkspaceMember>, email: &str) -> (r: Option<MembershipRole>)
    ensures
        r == workspace_role_of(members@, email@),
{
    let mut i: usize = 0;
    assert(members@.skip(0) =~= members@);
    while i < members.len()
        invariant
            i <= members.len(),
            workspace_role_of(members@, email@) == workspace_role_of(
                members@.skip(i as int),
                email@,
            ),
        decreases members.len() - i,
    {
        assert(members@.skip(i as int)[0] == members@[i as int]);
        if str_eq(members[i].email.as_str(), email) {
            return Some(members[i].role);
        }
        assert(members@.skip(i as int).drop_first() =~= members@.skip(i + 1));
        i = i + 1;
    }
    None
}

} // verus!
