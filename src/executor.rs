//! Errors of the executors that run a container's initial process.
use vstd::prelude::*;

verus! {

/// A step of driving the libkrun library.
#[derive(Clone, Copy, Debug, PartialEq, Eq, Structural)]
pub enum KrunStep {
    CreateCtx,
    SetLogLevel,
    SetVmConfig,
    SetRoot,
    StartEnter,
}

#[derive(Clone, Debug, PartialEq, Eq)]
pub enum ExecutorError {
    /// The named executor does not handle this specification; the next one
    /// may.
    CantHandle(String),
    /// The specification lacks something the executor needs.
    InvalidArg,
    /// The backend library is used before it was loaded.
    LibraryNotLoaded,
    /// The backend context is used before it was created.
    ContextNotInitialized,
    /// A second backend context was to be recorded.
    ContextAlreadyInitialized,
    /// A call into the backend returned a negative status.
    Foreign { step: KrunStep, rc: i32 },
    Other(String),
}

#[derive(Clone, Debug, PartialEq, Eq)]
pub enum ExecutorValidationError {
    /// The named executor does not handle this specification.
    CantHandle(String),
}

} // verus!
