//! The on-device LLM port's data: quantization levels and inference errors.

use vstd::prelude::*;

verus! {

/// Errors specific to LLM inference operations.
#[derive(Debug)]
pub enum LLMError {
    /// The requested model is not loaded into memory.
    ModelNotLoaded,
    /// Inference did not complete within the timeout.
    Timeout,
    /// The prompt is invalid (empty, too long, or malformed).
    InvalidPrompt(String),
    /// The model file could not be found or loaded.
    LoadFailed(String),
    /// An internal error during inference.
    Internal(String),
}

impl LLMError {
    /// The human-readable description of the error.
    pub open spec fn text(&self) -> Seq<char> {
        match self {
            LLMError::ModelNotLoaded => "Model not loaded"@,
            LLMError::Timeout => "Inference timeout"@,
            LLMError::InvalidPrompt(s) => "Invalid prompt: "@ + s@,
            LLMError::LoadFailed(s) => "Model load failed: "@ + s@,
            LLMError::Internal(s) => "Internal inference error: "@ + s@,
        }
    }

    /// Writes the human-readable description of the error.
    pub fn to_string(&self) -> (r: String)
        ensures
            r@ == self.text(),
    {
        match self {
            LLMError::ModelNotLoaded => String::from_str("Model not loaded"),
            LLMError::Timeout => String::from_str("Inference timeout"),
            LLMError::InvalidPrompt(s) => {
                let mut r = String::from_str("Invalid prompt: ");
                r.append(s.as_str());
                r
            },
            LLMError::LoadFailed(s) => {
                let mut r = String::from_str("Model load failed: ");
                r.append(s.as_str());
                r
            },
            LLMError::Internal(s) => {
                let mut r = String::from_str("Internal inference error: ");
                r.append(s.as_str());
                r
            },
        }
    }
}

/// Quantization levels for GGUF model loading.
#[derive(Debug, Clone, Copy, PartialEq, Eq, Structural, Hash)]
pub enum Quantization {
    /// 2-bit quantization: smallest, lowest quality.
    Q2K,
    /// 3-bit quantization.
    Q3K,
    /// 4-bit medium: good balance of size and quality.
    Q4KM,
    /// 4-bit small: smaller than Q4KM.
    Q4KS,
    /// 5-bit medium.
    Q5KM,
    /// 5-bit small.
    Q5KS,
    /// 6-bit quantization.
    Q6K,
    /// 8-bit quantization: larger, higher quality.
    Q8,
    /// 1.58-bit quantization: experimental, very small.
    Q1_5,
}

} // verus!
