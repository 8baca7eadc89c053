//! A build wrapper that works around path-length limits: when the project's
//! path is long, the project tree is mirrored into a short staging directory,
//! the build tool is run there, and its exit status is passed through.
//!
//! The library decides everything: whether redirection is needed, which
//! filesystem actions the mirror step performs, where the staging copy lives,
//! and which exit code the wrapper reports. The runner binary only carries
//! those decisions out against the real filesystem and process table.

pub mod config;
pub mod laws;
pub mod paths;
pub mod plan;
