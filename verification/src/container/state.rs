//! The lifecycle status of a container.

use vstd::prelude::*;

verus! {

/// Where a container stands in its lifecycle.
#[derive(Clone, Copy, Debug, PartialEq, Eq, Structural)]
pub enum ContainerStatus {
    /// The container is being created.
    Creating,
    /// The container exists, and its process has not been started.
    Created,
    /// The container's process runs.
    Running,
    /// The container's process has exited.
    Stopped,
    /// The container's processes are frozen.
    Paused,
}

} // verus!
