//! Locating a bundled runtime and backend service, and supervising the one
//! backend process that is launched from them.
//!
//! The crate decides; the host application performs. Every filesystem probe,
//! process launch and termination signal is requested from the host as a plain
//! value, and its outcome is reported back as a plain value.

pub mod launch;
pub mod locator;
pub mod paths;
pub mod startup;
pub mod supervisor;
