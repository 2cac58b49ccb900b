//! Restart policies: parsing a policy name and the pure restart decision.

use vstd::prelude::*;

verus! {

use vstd::string::StringSliceAdditionalSpecFns;
use crate::strutil::{eq_ignore_ascii_case, str_eq_ignore_ascii_case};
use crate::service::ServiceStatus;

/// Per-service rule governing whether a dead service is respawned.
#[derive(Debug, Clone, Copy, PartialEq, Eq, Structural)]
pub enum RestartPolicy {
    Always,
    OnFailure,
    Never,
}

/// The policy a configuration string names, matched ignoring ASCII case.
/// Anything that is neither `always` nor `never` — including both spellings
/// `onfailure` and `on_failure`, and any unrecognized value — is `OnFailure`.
pub open spec fn policy_of(s: Seq<u8>) -> RestartPolicy {
    if eq_ignore_ascii_case(s, "always".spec_bytes()) {
        RestartPolicy::Always
    } else if eq_ignore_ascii_case(s, "never".spec_bytes()) {
        RestartPolicy::Never
    } else {
        RestartPolicy::OnFailure
    }
}

impl RestartPolicy {
    /// Parses a policy name case-insensitively; unrecognized values default
    /// to `OnFailure`.
    pub fn from_str(s: &str) -> (r: RestartPolicy)
        ensures
            r == policy_of(s.spec_bytes()),
    {
        if str_eq_ignore_ascii_case(s, "always") {
            RestartPolicy::Always
        } else if str_eq_ignore_ascii_case(s, "never") {
            RestartPolicy::Never
        } else {
            // `onfailure` and `on_failure` land here together with the
            // default for unrecognized values; all three mean `OnFailure`.
            RestartPolicy::OnFailure
        }
    }
}

/// The restart decision, a pure function of the policy, the current status,
/// and the restart budget: `Always` restarts unconditionally, `OnFailure`
/// restarts a `Failed` service while the budget lasts, `Never` never does.
pub open spec fn should_restart_spec(
    policy: RestartPolicy,
    status: ServiceStatus,
    restart_count: u32,
    max_restarts: u32,
) -> bool {
    match policy {
        RestartPolicy::Always => true,
        RestartPolicy::OnFailure => status == ServiceStatus::Failed && restart_count
            < max_restarts,
        RestartPolicy::Never => false,
    }
}

/// Executable form of the restart decision.
pub fn should_restart_decision(
    policy: RestartPolicy,
    status: ServiceStatus,
    restart_count: u32,
    max_restarts: u32,
) -> (r: bool)
    ensures
        r == should_restart_spec(policy, status, restart_count, max_restarts),
{
    match policy {
        RestartPolicy::Always => true,
        RestartPolicy::OnFailure => status == ServiceStatus::Failed && restart_count
            < max_restarts,
        RestartPolicy::Never => false,
    }
}

} // verus!
