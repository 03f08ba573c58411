use vstd::prelude::*;

verus! {

/// The error taxonomy of the build core.
///
/// Every fallible operation of the orchestrator reports one of these; no
/// failure is suppressed, and a failing step short-circuits the whole
/// build or clean call.
#[derive(Debug, PartialEq, Eq)]
pub enum BuildError {
    /// An open, read, metadata or remove operation failed; carries a
    /// description of the failure.
    Io { detail: String },
    /// The project description document was malformed.
    ConfigParse { detail: String },
    /// A named binary or library was requested but is not declared;
    /// carries the kind of output sought and the requested name.
    TargetNotFound { kind: String, name: String },
    /// Upward discovery ran out of parent directories without finding a
    /// project description file; carries the original starting directory.
    NoBuildFile { start: String },
    /// A spawned process could not be started or exited nonzero; carries
    /// the command text where available.
    Process { command: String },
}

} // verus!
