//! The GraphQL mutation that removes a user from a workspace: its input and
//! its result shapes.
use vstd::prelude::*;

verus! {

/// Request metadata the server returns with a mutation's output.
pub struct ResponseContext {
    pub server_version: Option<String>,
}

/// An error the server means to be shown to the user.
pub struct UserFacingError {
    pub message: String,
}

/// The output of a successful call.
pub struct RemoveUserFromWorkspaceOutput {
    pub success: bool,
    pub response_context: ResponseContext,
}

/// What the mutation returns: its output, an error for the user, or a
/// result type this client does not know.
pub enum RemoveUserFromWorkspaceResult {
    RemoveUserFromWorkspaceOutput(RemoveUserFromWorkspaceOutput),
    UserFacingError(UserFacingError),
    Unknown,
}

/// The mutation's input: where in the client the removal was started, the
/// user to remove and the workspace to remove them from, by their ids.
pub struct RemoveUserFromWorkspaceInput {
    pub entrypoint: String,
    pub user_uid: String,
    pub workspace_uid: String,
}

/// The mutation's response under the root mutation type.
pub struct RemoveUserFromWorkspace {
    pub remove_user_from_workspace: RemoveUserFromWorkspaceResult,
}

} // verus!
