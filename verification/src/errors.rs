//! Error values reported by the kernel.

use vstd::prelude::*;

verus! {

/// An error reported by the engine while serving a state lookup or a call
/// that crossed the module boundary.
#[derive(Debug, Clone)]
pub enum EngineError {
    /// The raw engine handle passed across the module boundary was invalid.
    BadPointer,
    /// A state lookup found no value for the requested type; carries the
    /// name of the type that was asked for.
    UninitialisedState(&'static str),
}

/// An error reported while loading or reloading a native code module.
#[derive(Debug, Clone)]
pub enum LoadError {
    /// The artifact was missing, rejected by the platform loader, or lacked
    /// a required entry point; carries a description of what went wrong.
    ModuleLoadFailure(String),
    /// The module's build identifier differs from the kernel's, so no call
    /// into the module can be trusted.
    AbiMismatch,
}

/// The failure a system reports to the scheduler; carries a message for the
/// embedder to log.
#[derive(Debug, Clone)]
pub struct SystemError {
    pub message: String,
}

} // verus!
