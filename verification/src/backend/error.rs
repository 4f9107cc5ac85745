//! Errors of the backends, and their conversion into service errors.

use vstd::prelude::*;
use crate::error::InferenceError;
use crate::text::concat2;

verus! {

/// An error of a backend.
#[derive(Debug)]
pub enum BackendError {
    BackendNotInitialized,
    BackendNotAvailable(String),
    UnsupportedInput(String),
    TokenizerFailed(String),
    InferenceFailed(String),
    LLMBusy(String),
    Internal(String),
    UnknownBackend(String),
}

impl BackendError {
    /// The message of this error.
    pub open spec fn text(&self) -> Seq<char> {
        match self {
            BackendError::BackendNotInitialized => "Backend not initialized"@,
            BackendError::BackendNotAvailable(s) => "Backend not available: "@ + s@,
            BackendError::UnsupportedInput(s) => "Unsupported input: "@ + s@,
            BackendError::TokenizerFailed(s) => "Tokenizer failed: "@ + s@,
            BackendError::InferenceFailed(s) => "Inference failed: "@ + s@,
            BackendError::LLMBusy(s) => "LLM is busy: "@ + s@,
            BackendError::Internal(s) => "Internal error: "@ + s@,
            BackendError::UnknownBackend(s) => "Unknown backend: "@ + s@,
        }
    }

    /// The message of this error.
    pub fn message(&self) -> (m: String)
        ensures
            m@ == self.text(),
    {
        match self {
            BackendError::BackendNotInitialized => String::from_str("Backend not initialized"),
            BackendError::BackendNotAvailable(s) => concat2("Backend not available: ", s.as_str()),
            BackendError::UnsupportedInput(s) => concat2("Unsupported input: ", s.as_str()),
            BackendError::TokenizerFailed(s) => concat2("Tokenizer failed: ", s.as_str()),
            BackendError::InferenceFailed(s) => concat2("Inference failed: ", s.as_str()),
            BackendError::LLMBusy(s) => concat2("LLM is busy: ", s.as_str()),
            BackendError::Internal(s) => concat2("Internal error: ", s.as_str()),
            BackendError::UnknownBackend(s) => concat2("Unknown backend: ", s.as_str()),
        }
    }
}

impl InferenceError {
    /// The service error that a backend error becomes: a `BackendError`
    /// carrying the backend error's message.
    pub fn from_backend(e: BackendError) -> (r: InferenceError)
        ensures
            r matches InferenceError::BackendError(m) && m@ == e.text(),
    {
        InferenceError::BackendError(e.message())
    }
}

impl From<BackendError> for InferenceError {
    fn from(e: BackendError) -> (r: InferenceError)
        ensures
            r matches InferenceError::BackendError(m) && m@ == e.text(),
    {
        InferenceError::from_backend(e)
    }
}

/// `from` builds a new message string, which no spec value can name, so the
/// conversion is not described by a spec value; `from` states its result in
/// its own `ensures` instead.
impl vstd::std_specs::convert::FromSpecImpl<BackendError> for InferenceError {
    open spec fn obeys_from_spec() -> bool {
        false
    }

    open spec fn from_spec(v: BackendError) -> InferenceError {
        arbitrary()
    }
}

} // verus!
