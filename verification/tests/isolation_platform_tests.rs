use warp_client::isolation_platform::{
    has_own_token_issuance, is_workload_token_available_for, IsolationPlatformType,
    WARP_WORKLOAD_TOKEN_ENV,
};

#[test]
fn workload_token_available_for_platforms_with_their_own_issuance() {
    assert!(is_workload_token_available_for(
        Some(IsolationPlatformType::DockerSandbox),
        None
    ));
    assert!(is_workload_token_available_for(
        Some(IsolationPlatformType::Namespace),
        None
    ));
}

#[test]
fn workload_token_unavailable_without_platform_or_generic_token() {
    assert!(!is_workload_token_available_for(None, None));
    assert!(!is_workload_token_available_for(
        Some(IsolationPlatformType::Docker),
        None
    ));
}

#[test]
fn workload_token_available_via_generic_token_without_detected_platform() {
    // A self-hosted worker running directly on a host can still authenticate
    // via a manually configured generic token.
    assert!(is_workload_token_available_for(None, Some("example-token")));
}

#[test]
fn workload_token_unavailable_with_empty_generic_token() {
    assert!(!is_workload_token_available_for(None, Some("")));
}

#[test]
fn plain_docker_uses_the_generic_token() {
    assert!(!has_own_token_issuance(IsolationPlatformType::Docker));
    assert!(is_workload_token_available_for(
        Some(IsolationPlatformType::Docker),
        Some("t")
    ));
    assert_eq!(WARP_WORKLOAD_TOKEN_ENV, "WARP_WORKLOAD_TOKEN");
}
