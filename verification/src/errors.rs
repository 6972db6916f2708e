//! Error families of queues and the runtime.

use vstd::prelude::*;

verus! {

/// Why a queue operation did not produce an item.
#[derive(Debug, Clone, Copy, PartialEq, Eq, Structural)]
pub enum QueueError {
    /// The queue holds nothing to hand out.
    Empty,
    /// The queue's lock was poisoned by a panicking holder.
    Poisoned,
    /// This handle does not offer the operation.
    Unsupported,
}


/// Why a model operation failed.
#[derive(Debug, Clone, Copy, PartialEq, Eq, Structural)]
pub enum InferenceError {
    /// The model could not be initialised.
    InitializationFailed,
    /// The input was not acceptable to the model.
    InvalidInput,
    /// The backend failed while running the model.
    ExecutionFailed,
}

/// Why a runtime operation failed.
#[derive(Debug, Clone, PartialEq, Eq)]
pub enum RuntimeError {
    /// Setting up the runtime failed; the message says why.
    InitializationFailed(String),
}

} // verus!
