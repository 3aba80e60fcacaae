use warp_client::ids::{RequestTeamScope, ServerId, TeamContextForOperation};

fn request_scope_for_team(team_uid: ServerId) -> RequestTeamScope {
    RequestTeamScope::from_scope(&TeamContextForOperation::for_team(team_uid))
}

#[test]
fn scoped_managed_secret_requests_send_selected_team_header() {
    let team_uid = ServerId::from_number(17);
    let team_uid_header = team_uid.uid();
    let request_scope = request_scope_for_team(team_uid);

    assert_eq!(
        RequestTeamScope::team_header_value(Some(&request_scope)),
        Some(team_uid_header)
    );
}

#[test]
fn unscoped_managed_secret_list_omits_team_header() {
    assert_eq!(RequestTeamScope::team_header_value(None), None);
}

#[test]
fn teamless_scope_sends_no_team_header() {
    let scope = RequestTeamScope::from_scope(&TeamContextForOperation::teamless());
    assert_eq!(scope.team_uid, None);
    assert_eq!(RequestTeamScope::team_header_value(Some(&scope)), None);
}
