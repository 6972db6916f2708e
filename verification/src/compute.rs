//! Compute backend and model contracts, and model artifacts.

use std::sync::Arc;
use vstd::prelude::*;
use crate::errors::InferenceError;
use crate::memory::MemoryClass;
use crate::message::Payload;

verus! {

/// What a compute backend can do.
#[derive(Debug, Clone, Copy, PartialEq, Eq, Structural)]
pub struct BackendCapabilities {
    /// Whether the backend supports device streams.
    pub device_streams: bool,
    /// Largest supported batch, if limited.
    pub max_batch: Option<usize>,
    /// Backend-defined bit set of supported data types.
    pub dtype_mask: u64,
}

/// Placement preferences and size limits of a loaded model.
#[derive(Debug, Clone, Copy, PartialEq, Eq, Structural)]
pub struct ModelMetadata {
    /// Preferred memory class of inputs.
    pub preferred_input: MemoryClass,
    /// Preferred memory class of outputs.
    pub preferred_output: MemoryClass,
    /// Largest accepted input, in bytes.
    pub max_input_bytes: Option<usize>,
    /// Largest produced output, in bytes.
    pub max_output_bytes: Option<usize>,
}

/// A loaded model that performs one synchronous inference step at a time.
pub trait ComputeModel<InP: Payload, OutP: Payload> {
    /// Prepare internal state.
    fn init(&mut self) -> Result<(), InferenceError>;

    /// Run exactly one inference step on `inp`.
    fn infer_one(&mut self, inp: &InP) -> Result<OutP, InferenceError>;

    /// Wait for outstanding device work.
    fn drain(&mut self) -> Result<(), InferenceError>;

    /// Return to a known baseline state.
    fn reset(&mut self) -> Result<(), InferenceError>;

    /// Placement preferences and limits.
    fn metadata(&self) -> ModelMetadata;
}

/// An engine that loads models and reports its capabilities.
pub trait ComputeBackend<InP: Payload, OutP: Payload> {
    /// The concrete model type.
    type Model: ComputeModel<InP, OutP>;

    /// Backend-specific error.
    type Error;

    /// What a model is loaded from.
    type ModelDescriptor<'desc> where Self: 'desc;

    /// Capabilities of the backend.
    fn capabilities(&self) -> BackendCapabilities;

    /// Load a model.
    fn load_model<'desc>(&self, desc: Self::ModelDescriptor<'desc>) -> Result<Self::Model, Self::Error>;
}

/// Raw model bytes handed to a backend, with an optional label.
#[derive(Debug, Clone)]
pub struct ModelArtifact {
    /// The model file or engine blob.
    pub bytes: Arc<Vec<u8>>,
    /// Optional label or path hint.
    pub label: Option<String>,
}

impl ModelArtifact {
    /// An unlabelled artifact over `bytes`.
    pub fn from_bytes(bytes: Vec<u8>) -> (a: ModelArtifact)
        ensures
            a.bytes@ == bytes@,
            a.label is None,
    {
        ModelArtifact { bytes: Arc::new(bytes), label: None }
    }
}

} // verus!
