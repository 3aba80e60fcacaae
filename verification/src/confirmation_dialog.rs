//! The copy of the dialog that confirms removing a member or leaving a team.
use crate::text::string_of;
use vstd::prelude::*;

verus! {

/// The body of the dialog that removes a member from a team with reload
/// credits.
pub const REMOVE_TEAM_MEMBER_RELOAD_CREDITS_BODY_TEXT: &'static str =
    "This member will lose access to the team's reload credits, and any credits they have not used stay with the team.";

/// The confirm button of the dialog that leaves a team.
pub const LEAVE_TEAM_CONFIRM_TEXT: &'static str = "Leave team";

/// What the dialog confirms.
pub enum CloudActionConfirmationDialogVariant {
    /// Remove a member from one team of a native workspace.
    RemoveNativeWorkspaceTeamMember { member_email: String, workspace_name: String },
    /// Remove a member from the workspace and all of its teams.
    RemoveWorkspaceMember { member_email: String, workspace_name: String },
    /// Remove a member from a team that has reload credits.
    RemoveTeamMemberReloadCredits,
    /// Leave one team of a native workspace.
    LeaveNativeWorkspaceTeam { team_name: String },
}

/// The title of a variant.
pub open spec fn title_of(v: CloudActionConfirmationDialogVariant) -> Seq<char> {
    match v {
        CloudActionConfirmationDialogVariant::RemoveNativeWorkspaceTeamMember { .. } =>
            "Remove from team?"@,
        CloudActionConfirmationDialogVariant::RemoveWorkspaceMember { .. } =>
            "Remove from workspace?"@,
        CloudActionConfirmationDialogVariant::RemoveTeamMemberReloadCredits =>
            "Are you sure you want to remove this member?"@,
        CloudActionConfirmationDialogVariant::LeaveNativeWorkspaceTeam { team_name } => "Leave "@
            + team_name@ + "?"@,
    }
}

/// The body of a variant.
pub open spec fn body_of(v: CloudActionConfirmationDialogVariant) -> Seq<char> {
    match v {
        CloudActionConfirmationDialogVariant::RemoveNativeWorkspaceTeamMember {
            member_email,
            workspace_name,
        } => "Are you sure you want to remove "@ + member_email@ + " from this team? "@
            + member_email@ + " will still keep their "@ + workspace_name@
            + " workspace membership and their other team memberships."@,
        CloudActionConfirmationDialogVariant::RemoveWorkspaceMember {
            member_email,
            workspace_name,
        } => "Are you sure you want to remove "@ + member_email@
            + " from the workspace? This will remove "@ + member_email@ + " from all teams in "@
            + workspace_name@ + " and from the workspace itself."@,
        CloudActionConfirmationDialogVariant::RemoveTeamMemberReloadCredits =>
            REMOVE_TEAM_MEMBER_RELOAD_CREDITS_BODY_TEXT@,
        CloudActionConfirmationDialogVariant::LeaveNativeWorkspaceTeam { .. } =>
            "Your workspace access and other team memberships won\u{2019}t change."@,
    }
}

/// The confirm button of a variant.
pub open spec fn confirm_of(v: CloudActionConfirmationDialogVariant) -> Seq<char> {
    match v {
        CloudActionConfirmationDialogVariant::RemoveNativeWorkspaceTeamMember { .. } =>
            "Remove from team"@,
        CloudActionConfirmationDialogVariant::RemoveWorkspaceMember { .. } =>
            "Remove from workspace"@,
        CloudActionConfirmationDialogVariant::RemoveTeamMemberReloadCredits => "Remove Member"@,
        CloudActionConfirmationDialogVariant::LeaveNativeWorkspaceTeam { .. } =>
            LEAVE_TEAM_CONFIRM_TEXT@,
    }
}

/// The confirmation dialog; it shows nothing until a variant is set.
pub struct CloudActionConfirmationDialog {
    variant: Option<CloudActionConfirmationDialogVariant>,
}

impl CloudActionConfirmationDialog {
    /// The variant shown, if any.
    pub closed spec fn shown(self) -> Option<CloudActionConfirmationDialogVariant> {
        self.variant
    }

    /// A dialog with no variant set.
    pub fn new() -> (r: Self)
        ensures
            r.shown() is None,
    {
        CloudActionConfirmationDialog { variant: None }
    }

    /// Shows `variant`.
    pub fn set_variant(&mut self, variant: CloudActionConfirmationDialogVariant)
        ensures
            final(self).shown() == Some(variant),
    {
        self.variant = Some(variant);
    }

    /// The title; empty while no variant is set.
    pub fn title_text(&self) -> (r: String)
        ensures
            r@ == match self.shown() {
                Some(v) => title_of(v),
                None => Seq::<char>::empty(),
            },
    {
        match &self.variant {
            None => String::new(),
            Some(CloudActionConfirmationDialogVariant::RemoveNativeWorkspaceTeamMember { .. }) =>
                string_of("Remove from team?"),
            Some(CloudActionConfirmationDialogVariant::RemoveWorkspaceMember { .. }) => string_of(
                "Remove from workspace?",
            ),
            Some(CloudActionConfirmationDialogVariant::RemoveTeamMemberReloadCredits) => string_of(
                "Are you sure you want to remove this member?",
            ),
            Some(CloudActionConfirmationDialogVariant::LeaveNativeWorkspaceTeam { team_name }) => {
                let mut s = string_of("Leave ");
                s.append(team_name.as_str());
                s.append("?");
                s
            },
        }
    }

    /// The body; empty while no variant is set.
    pub fn body_text(&self) -> (r: String)
        ensures
            r@ == match self.shown() {
                Some(v) => body_of(v),
                None => Seq::<char>::empty(),
            },
    {
        match &self.variant {
            None => String::new(),
            Some(
                CloudActionConfirmationDialogVariant::RemoveNativeWorkspaceTeamMember {
                    member_email,
                    workspace_name,
                },
            ) => {
                let mut s = string_of("Are you sure you want to remove ");
                s.append(member_email.as_str());
                s.append(" from this team? ");
                s.append(member_email.as_str());
                s.append(" will still keep their ");
                s.append(workspace_name.as_str());
                s.append(" workspace membership and their other team memberships.");
                s
            },
            Some(
                CloudActionConfirmationDialogVariant::RemoveWorkspaceMember {
                    member_email,
                    workspace_name,
                },
            ) => {
                let mut s = string_of("Are you sure you want to remove ");
                s.append(member_email.as_str());
                s.append(" from the workspace? This will remove ");
                s.append(member_email.as_str());
                s.append(" from all teams in ");
                s.append(workspace_name.as_str());
                s.append(" and from the workspace itself.");
                s
            },
            Some(CloudActionConfirmationDialogVariant::RemoveTeamMemberReloadCredits) => string_of(
                REMOVE_TEAM_MEMBER_RELOAD_CREDITS_BODY_TEXT,
            ),
            Some(CloudActionConfirmationDialogVariant::LeaveNativeWorkspaceTeam { .. }) => string_of(
                "Your workspace access and other team memberships won\u{2019}t change.",
            ),
        }
    }

    /// The confirm button; empty while no variant is set.
    pub fn confirm_button_text(&self) -> (r: String)
        ensures
            r@ == match self.shown() {
                Some(v) => confirm_of(v),
                None => Seq::<char>::empty(),
            },
    {
        match &self.variant {
            None => String::new(),
            Some(CloudActionConfirmationDialogVariant::RemoveNativeWorkspaceTeamMember { .. }) =>
                string_of("Remove from team"),
            Some(CloudActionConfirmationDialogVariant::RemoveWorkspaceMember { .. }) => string_of(
                "Remove from workspace",
            ),
            Some(CloudActionConfirmationDialogVariant::RemoveTeamMemberReloadCredits) => string_of(
                "Remove Member",
            ),
            Some(CloudActionConfirmationDialogVariant::LeaveNativeWorkspaceTeam { .. }) => string_of(
                LEAVE_TEAM_CONFIRM_TEXT,
            ),
        }
    }
}

} // verus!
