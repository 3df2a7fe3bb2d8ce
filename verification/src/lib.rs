//! Readiness detection for ephemeral test containers.
//!
//! A test harness that starts a service in a container needs to know when the
//! service has finished booting. This library scans the process's log stream
//! for a target message and reports success once it appears, or failure with
//! the lines it saw when the stream closes first. It also derives the
//! filesystem paths under which captured output is persisted for post-mortem
//! debugging, and defines the capability contract that container image
//! profiles expose to the wait engine.

pub mod dump;
pub mod image;
pub mod kafka;
pub mod logs;
