use vstd::prelude::*;

verus! {

/// Failures reported to the caller before or around execution. Outcomes of the
/// executed program itself are an `ExecutionStatus`, not an error.
#[derive(Debug, Clone, Copy, PartialEq, Eq, Structural)]
pub enum SandboxError {
    /// No registry entry matches the requested language; nothing was staged.
    UnsupportedLanguage,
    /// The workspace path is already held by another sandbox in flight.
    PathConflict,
    /// The workspace could not be staged or released.
    IOError,
    /// `prepare` was called on a sandbox that is already prepared or running.
    AlreadyPrepared,
    /// `run` was called before `prepare` succeeded, or after staging failed.
    NotPrepared,
    /// The process was already launched.
    AlreadyRunning,
    /// An exit was reported for a sandbox that is not running.
    NotRunning,
    /// The sandbox has reached a terminal state and accepts no more lifecycle calls.
    AlreadyTerminal,
    /// The workspace cannot be released while the process runs.
    StillRunning,
}

} // verus!
