//! Configuration of the model stage of a runtime.

use std::collections::BTreeMap;
use vstd::prelude::*;

verus! {

/// Which backend runs the model and where its files are.
#[derive(Clone, Debug)]
pub struct ModelConfiguration {
    /// Key of the compute backend in the registry.
    pub backend: String,
    /// Path of the raw model bytes.
    pub model_bytes_path: Option<String>,
    /// Path of a model bundle.
    pub model_bundle_path: Option<String>,
    /// Path of the model's signature.
    pub model_signature_path: Option<String>,
    /// Backend-specific options.
    pub options: BTreeMap<String, String>,
}

} // verus!
