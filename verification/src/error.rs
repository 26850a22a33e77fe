//! What can go wrong while a container is provisioned or destroyed.

use vstd::prelude::*;
use vstd::string::*;

verus! {

/// The failures that an operation reports to its caller.
#[derive(Clone, Copy, Debug, PartialEq, Eq, Structural)]
pub enum LifecycleError {
    /// The container runtime could not be reached to list its containers.
    RuntimeUnavailable,
    /// The data directory could not be prepared, or the runtime refused to
    /// create or start the container.
    ProvisionFailed,
    /// The container did not become healthy before the deadline; it was
    /// stopped and removed.
    HealthCheckTimeout,
    /// The runtime failed to remove a container by force.
    DestroyFailed,
}

impl LifecycleError {
    /// The text shown to the caller, given what the runtime said (`detail`).
    pub open spec fn spec_message(self, detail: Seq<char>) -> Seq<char> {
        match self {
            LifecycleError::RuntimeUnavailable => "Failed to list containers: "@ + detail,
            LifecycleError::ProvisionFailed => detail,
            LifecycleError::HealthCheckTimeout => "Container failed to become healthy within timeout"@,
            LifecycleError::DestroyFailed => "Failed to remove container: "@ + detail,
        }
    }

    /// The text shown to the caller. `detail` is what the runtime or the
    /// filesystem answered; a timeout has a fixed text and ignores it.
    pub fn message(&self, detail: &str) -> (text: String)
        ensures
            text@ == self.spec_message(detail@),
    {
        match self {
            LifecycleError::RuntimeUnavailable => {
                let mut text = String::from_str("Failed to list containers: ");
                text.append(detail);
                text
            },
            LifecycleError::ProvisionFailed => String::from_str(detail),
            LifecycleError::HealthCheckTimeout => String::from_str(
                "Container failed to become healthy within timeout",
            ),
            LifecycleError::DestroyFailed => {
                let mut text = String::from_str("Failed to remove container: ");
                text.append(detail);
                text
            },
        }
    }
}

} // verus!
