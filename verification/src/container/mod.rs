//! What this library knows of a container: its lifecycle status, and the
//! monitor that reports its resource usage.

pub mod container_events;
pub mod state;
