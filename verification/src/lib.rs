//! The verified core of a minimal build tool for compiled projects: it
//! decides which compilation units are stale, schedules their
//! compilation with bounded parallelism and fail-fast semantics, and
//! composes the compile, link and archive command lines, together with
//! clean planning and upward build-file discovery.
//!
//! Everything that touches the world — reading the description file,
//! walking the source tree, spawning processes, probing and removing
//! files, printing — lives outside this crate's logic and hands plain
//! values in and out.

pub mod buildfile;
pub mod compose;
pub mod discovery;
pub mod error;
pub mod logger;
pub mod project;
pub mod scheduler;
pub mod staleness;
pub mod target;
