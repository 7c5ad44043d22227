//! The two reconcilers, and what they hand back to the driver.

use vstd::prelude::*;

pub mod clustertunnel;
pub mod ingress;
pub mod utils;

verus! {

/// What the driver does with an object after a pass.
#[derive(Clone, Copy, Debug, PartialEq, Eq, Structural)]
pub enum Action {
    /// Run the next pass after so many seconds.
    Requeue(u64),
    /// Run the next pass when the object changes.
    AwaitChange,
}

/// Which side of an object's life a pass is for.
#[derive(Clone, Copy, Debug, PartialEq, Eq, Structural)]
pub enum Event {
    /// The object exists: bring the world in line with it.
    Apply,
    /// The object is being deleted: undo what was done for it.
    Cleanup,
}

/// The name under which the operator writes to the cluster.
pub const OPERATOR_MANAGER: &'static str = "cloudflare-tunnels-operator";

/// The annotation of the workload's pod template that carries the hash of
/// the routing document.
pub const ANNOTATION_CONFIG_HASH: &'static str = "cloudflare-tunnels-operator.io/config-hash";

/// Seconds before a pass that failed is tried again.
pub const RETRY_SECONDS: u64 = 15;

/// Seconds before an object that is in line is looked at again.
pub const RESYNC_SECONDS: u64 = 3600;

/// A pass that failed is run again after a short, fixed time.
pub fn error_policy() -> (action: Action)
    ensures
        action == Action::Requeue(15),
{
    Action::Requeue(RETRY_SECONDS)
}

/// A pass that went through is run again after an hour.
pub fn resync() -> (action: Action)
    ensures
        action == Action::Requeue(3600),
{
    Action::Requeue(RESYNC_SECONDS)
}

} // verus!
