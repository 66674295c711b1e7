//! The inference block that will run a voice model inside the processing
//! chain. Until a model ships, it passes the signal through unchanged.

use vstd::prelude::*;

verus! {

/// An inference block: enabled exactly when it was given a model path.
pub struct OnnxInferenceBlock {
    enabled: bool,
    model_path: Option<String>,
}

impl OnnxInferenceBlock {
    /// Whether the block runs a model.
    pub closed spec fn spec_enabled(&self) -> bool {
        self.enabled
    }

    /// The model path the block was given.
    pub closed spec fn spec_model_path(&self) -> Option<String> {
        self.model_path
    }

    /// A block for the model at `model_path`; without a path it does nothing.
    pub fn new(model_path: Option<String>) -> (r: Self)
        ensures
            r.spec_enabled() == model_path.is_some(),
            r.spec_model_path() == model_path,
    {
        OnnxInferenceBlock { enabled: model_path.is_some(), model_path }
    }

    /// Whether the block runs a model.
    pub fn is_enabled(&self) -> (b: bool)
        ensures
            b == self.spec_enabled(),
    {
        self.enabled
    }

    /// The model path the block was given.
    pub fn model_path(&self) -> (r: &Option<String>)
        ensures
            *r == self.spec_model_path(),
    {
        &self.model_path
    }
}

} // verus!
