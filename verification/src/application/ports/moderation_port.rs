//! The moderation port's data: verdicts, categories and errors.
//!
//! The categories are those of the domain events: there is one definition.

use vstd::prelude::*;

pub use crate::domain::events::ModerationCategory;

verus! {

/// Errors specific to moderation operations.
#[derive(Debug)]
pub enum ModerationError {
    /// The LLM inference failed.
    InferenceFailed(String),
    /// The LLM model is not loaded.
    ModelNotLoaded(String),
    /// Content analysis timed out.
    Timeout(String),
}

impl ModerationError {
    /// The human-readable description of the error.
    pub open spec fn text(&self) -> Seq<char> {
        match self {
            ModerationError::InferenceFailed(s) => "LLM inference failed: "@ + s@,
            ModerationError::ModelNotLoaded(s) => "Model not loaded: "@ + s@,
            ModerationError::Timeout(s) => "Analysis timeout: "@ + s@,
        }
    }

    /// Writes the human-readable description of the error.
    pub fn to_string(&self) -> (r: String)
        ensures
            r@ == self.text(),
    {
        match self {
            ModerationError::InferenceFailed(s) => {
                let mut r = String::from_str("LLM inference failed: ");
                r.append(s.as_str());
                r
            },
            ModerationError::ModelNotLoaded(s) => {
                let mut r = String::from_str("Model not loaded: ");
                r.append(s.as_str());
                r
            },
            ModerationError::Timeout(s) => {
                let mut r = String::from_str("Analysis timeout: ");
                r.append(s.as_str());
                r
            },
        }
    }
}

/// The verdict on a message after checking it with its sender's context.
#[derive(Debug)]
pub enum ContentVerdict {
    /// Nothing prohibited was found.
    Safe,
    /// Prohibited content was found, for the given reason.
    Unsafe(String),
    /// The content is borderline and needs a second look.
    NeedsReview,
}

} // verus!
