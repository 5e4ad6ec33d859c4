//! Two leaf mechanisms of a container runtime: the registry that picks the
//! executor for a workload, and the monitor that reports a running
//! container's resource usage.

pub mod container;
pub mod error;
pub mod workload;
