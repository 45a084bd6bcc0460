//! Recoverable errors this bridge returns to its callers.

use vstd::prelude::*;

verus! {

/// Error returned when a script-function registration fails.
#[derive(Debug, Clone, Copy, PartialEq, Eq, Structural)]
pub enum SqFunctionError {
    /// The function-registration registry's lock was held by another
    /// operation; the call did not block and the registry was left unchanged.
    LockedSqFunctionVec,
}

/// Error returned when wiring the host logger into the plugin fails.
#[derive(Debug, Clone, Copy, PartialEq, Eq, Structural)]
pub enum LoggerError {
    /// The logger bridge was already installed by an earlier call; the
    /// installed state is left untouched.
    LoggerAlreadyInitialized,
}

} // verus!
