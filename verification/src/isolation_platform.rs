//! Whether a sandboxed worker can obtain a workload identity token.
use vstd::prelude::*;

verus! {

/// The environment variable that holds a manually configured generic
/// workload token.
pub const WARP_WORKLOAD_TOKEN_ENV: &'static str = "WARP_WORKLOAD_TOKEN";

/// The isolation platform a worker was detected to run on.
#[derive(Clone, Copy, Debug, PartialEq, Eq, Structural)]
pub enum IsolationPlatformType {
    /// A plain Docker container.
    Docker,
    /// A Docker sandbox, which issues its own workload tokens.
    DockerSandbox,
    /// A Namespace instance, which issues its own workload tokens.
    Namespace,
}

/// The platform issues workload tokens itself.
pub open spec fn issues_own_token(p: IsolationPlatformType) -> bool {
    p == IsolationPlatformType::DockerSandbox || p == IsolationPlatformType::Namespace
}

/// A workload token is available: the detected platform issues its own, or
/// a non-empty generic token is configured (which also covers a worker with
/// no detected platform).
pub open spec fn workload_token_available(
    platform: Option<IsolationPlatformType>,
    generic_token: Option<Seq<char>>,
) -> bool {
    (match platform {
        Some(p) => issues_own_token(p),
        None => false,
    }) || (match generic_token {
        Some(t) => t.len() > 0,
        None => false,
    })
}

/// Whether the platform issues workload tokens itself.
pub fn has_own_token_issuance(p: IsolationPlatformType) -> (r: bool)
    ensures
        r == issues_own_token(p),
{
    match p {
        IsolationPlatformType::DockerSandbox => true,
        IsolationPlatformType::Namespace => true,
        IsolationPlatformType::Docker => false,
    }
}

/// Whether a workload token is available on `platform`, given the value of
/// the generic token variable (`None` when it is unset).
pub fn is_workload_token_available_for(
    platform: Option<IsolationPlatformType>,
    generic_token: Option<&str>,
) -> (r: bool)
    ensures
        r == workload_token_available(
            platform,
            match generic_token {
                Some(t) => Some(t@),
                None => None,
            },
        ),
{
    let own = match platform {
        Some(p) => has_own_token_issuance(p),
        None => false,
    };
    if own {
        return true;
    }
    match generic_token {
        Some(t) => t.unicode_len() > 0,
        None => false,
    }
}

} // verus!
