//! The service's unified error type and its classification.

use vstd::prelude::*;
use std::time::Duration;
use crate::text::{concat2, concat3, nat_decimal, push_u64};

verus! {

/// An error of the inference service.
#[derive(Debug)]
pub enum InferenceError {
    ModelLoadFailed(String),
    InvalidPath(String),
    UnsupportedModelFormat(String),
    TokenizationFailed(String),
    PromptTooLong(usize, usize),
    Timeout(Duration),
    InferenceFailed(String),
    NoTokensGenerated,
    BackendNotAvailable(String),
    BackendError(String),
    BackendNotInitialized,
    OutOfMemory(String),
    MemoryAllocationFailed,
    HealthCheckFailed(String),
    ModelNotLoaded,
    Internal(String),
    FfiError(String),
}

impl Clone for InferenceError {
    fn clone(&self) -> (r: Self)
        ensures
            r == *self,
    {
        match self {
            InferenceError::ModelLoadFailed(s) => InferenceError::ModelLoadFailed(s.clone()),
            InferenceError::InvalidPath(s) => InferenceError::InvalidPath(s.clone()),
            InferenceError::UnsupportedModelFormat(s) => InferenceError::UnsupportedModelFormat(
                s.clone(),
            ),
            InferenceError::TokenizationFailed(s) => InferenceError::TokenizationFailed(s.clone()),
            InferenceError::PromptTooLong(n, max) => InferenceError::PromptTooLong(*n, *max),
            InferenceError::Timeout(d) => InferenceError::Timeout(*d),
            InferenceError::InferenceFailed(s) => InferenceError::InferenceFailed(s.clone()),
            InferenceError::NoTokensGenerated => InferenceError::NoTokensGenerated,
            InferenceError::BackendNotAvailable(s) => InferenceError::BackendNotAvailable(
                s.clone(),
            ),
            InferenceError::BackendError(s) => InferenceError::BackendError(s.clone()),
            InferenceError::BackendNotInitialized => InferenceError::BackendNotInitialized,
            InferenceError::OutOfMemory(s) => InferenceError::OutOfMemory(s.clone()),
            InferenceError::MemoryAllocationFailed => InferenceError::MemoryAllocationFailed,
            InferenceError::HealthCheckFailed(s) => InferenceError::HealthCheckFailed(s.clone()),
            InferenceError::ModelNotLoaded => InferenceError::ModelNotLoaded,
            InferenceError::Internal(s) => InferenceError::Internal(s.clone()),
            InferenceError::FfiError(s) => InferenceError::FfiError(s.clone()),
        }
    }
}

/// The result type of the service's operations.
pub type InferenceResult<T> = Result<T, InferenceError>;

impl InferenceError {
    /// The stable, machine-readable code of the error's kind.
    pub open spec fn code(&self) -> Seq<char> {
        match self {
            InferenceError::ModelLoadFailed(_) => "MODEL_LOAD_FAILED"@,
            InferenceError::InvalidPath(_) => "INVALID_PATH"@,
            InferenceError::UnsupportedModelFormat(_) => "UNSUPPORTED_FORMAT"@,
            InferenceError::TokenizationFailed(_) => "TOKENIZATION_FAILED"@,
            InferenceError::PromptTooLong(_, _) => "PROMPT_TOO_LONG"@,
            InferenceError::Timeout(_) => "TIMEOUT"@,
            InferenceError::InferenceFailed(_) => "INFERENCE_FAILED"@,
            InferenceError::NoTokensGenerated => "NO_TOKENS"@,
            InferenceError::BackendNotAvailable(_) => "BACKEND_NOT_AVAILABLE"@,
            InferenceError::BackendError(_) => "BACKEND_ERROR"@,
            InferenceError::BackendNotInitialized => "BACKEND_NOT_INITIALIZED"@,
            InferenceError::OutOfMemory(_) => "OUT_OF_MEMORY"@,
            InferenceError::MemoryAllocationFailed => "MEMORY_ALLOCATION_FAILED"@,
            InferenceError::HealthCheckFailed(_) => "HEALTH_CHECK_FAILED"@,
            InferenceError::ModelNotLoaded => "MODEL_NOT_LOADED"@,
            InferenceError::Internal(_) => "INTERNAL_ERROR"@,
            InferenceError::FfiError(_) => "FFI_ERROR"@,
        }
    }

    /// Whether the error is the server's fault (as opposed to the request's
    /// or the deployment's).
    pub open spec fn server_fault(&self) -> bool {
        match self {
            InferenceError::ModelLoadFailed(_) | InferenceError::InferenceFailed(_)
            | InferenceError::BackendError(_) | InferenceError::OutOfMemory(_)
            | InferenceError::MemoryAllocationFailed | InferenceError::Internal(_)
            | InferenceError::FfiError(_) => true,
            _ => false,
        }
    }

    /// The stable, machine-readable code of the error's kind.
    pub fn error_code(&self) -> (c: &'static str)
        ensures
            c@ == self.code(),
    {
        match self {
            InferenceError::ModelLoadFailed(_) => "MODEL_LOAD_FAILED",
            InferenceError::InvalidPath(_) => "INVALID_PATH",
            InferenceError::UnsupportedModelFormat(_) => "UNSUPPORTED_FORMAT",
            InferenceError::TokenizationFailed(_) => "TOKENIZATION_FAILED",
            InferenceError::PromptTooLong(_, _) => "PROMPT_TOO_LONG",
            InferenceError::Timeout(_) => "TIMEOUT",
            InferenceError::InferenceFailed(_) => "INFERENCE_FAILED",
            InferenceError::NoTokensGenerated => "NO_TOKENS",
            InferenceError::BackendNotAvailable(_) => "BACKEND_NOT_AVAILABLE",
            InferenceError::BackendError(_) => "BACKEND_ERROR",
            InferenceError::BackendNotInitialized => "BACKEND_NOT_INITIALIZED",
            InferenceError::OutOfMemory(_) => "OUT_OF_MEMORY",
            InferenceError::MemoryAllocationFailed => "MEMORY_ALLOCATION_FAILED",
            InferenceError::HealthCheckFailed(_) => "HEALTH_CHECK_FAILED",
            InferenceError::ModelNotLoaded => "MODEL_NOT_LOADED",
            InferenceError::Internal(_) => "INTERNAL_ERROR",
            InferenceError::FfiError(_) => "FFI_ERROR",
        }
    }

    /// Whether the error is the server's fault.
    pub fn is_server_error(&self) -> (b: bool)
        ensures
            b == self.server_fault(),
    {
        match self {
            InferenceError::ModelLoadFailed(_) | InferenceError::InferenceFailed(_)
            | InferenceError::BackendError(_) | InferenceError::OutOfMemory(_)
            | InferenceError::MemoryAllocationFailed | InferenceError::Internal(_)
            | InferenceError::FfiError(_) => true,
            _ => false,
        }
    }

    /// The message of this error.  For a timeout it is the text that comes
    /// before the duration.
    pub open spec fn text(&self) -> Seq<char> {
        match self {
            InferenceError::ModelLoadFailed(s) => "Failed to load model from "@ + s@
                + ": file not found or invalid format"@,
            InferenceError::InvalidPath(s) => "Invalid model path: "@ + s@,
            InferenceError::UnsupportedModelFormat(s) => "Model format not supported: "@ + s@,
            InferenceError::TokenizationFailed(s) => "Tokenization failed: "@ + s@,
            InferenceError::PromptTooLong(n, max) => "Prompt too long: "@ + nat_decimal(*n as nat)
                + " tokens (max: "@ + nat_decimal(*max as nat) + ")"@,
            InferenceError::Timeout(_) => "Inference timeout after "@,
            InferenceError::InferenceFailed(s) => "Inference failed: "@ + s@,
            InferenceError::NoTokensGenerated => "No tokens generated"@,
            InferenceError::BackendNotAvailable(s) => "Backend '"@ + s@ + "' not available"@,
            InferenceError::BackendError(s) => "Backend error: "@ + s@,
            InferenceError::BackendNotInitialized => "Backend not initialized"@,
            InferenceError::OutOfMemory(s) => "Out of memory: "@ + s@,
            InferenceError::MemoryAllocationFailed => "Memory allocation failed"@,
            InferenceError::HealthCheckFailed(s) => "Health check failed: "@ + s@,
            InferenceError::ModelNotLoaded => "Model not loaded"@,
            InferenceError::Internal(s) => "Internal error: "@ + s@,
            InferenceError::FfiError(s) => "FFI error: "@ + s@,
        }
    }

    /// The message of this error: `text()`, followed for a timeout by the
    /// duration (its whole seconds and the nanoseconds beyond them) in
    /// `Debug` notation.
    pub fn message(&self) -> (m: String)
        ensures
            self is Timeout ==> exists|secs: u64, nanos: u32|
                nanos < 1_000_000_000 && m@ == self.text() + duration_debug_text(secs, nanos),
            !(self is Timeout) ==> m@ == self.text(),
    {
        match self {
            InferenceError::ModelLoadFailed(s) => concat3(
                "Failed to load model from ",
                s.as_str(),
                ": file not found or invalid format",
            ),
            InferenceError::InvalidPath(s) => concat2("Invalid model path: ", s.as_str()),
            InferenceError::UnsupportedModelFormat(s) => concat2(
                "Model format not supported: ",
                s.as_str(),
            ),
            InferenceError::TokenizationFailed(s) => concat2("Tokenization failed: ", s.as_str()),
            InferenceError::PromptTooLong(n, max) => {
                let mut m = String::from_str("Prompt too long: ");
                push_u64(&mut m, *n as u64);
                m.append(" tokens (max: ");
                push_u64(&mut m, *max as u64);
                m.append(")");
                m
            },
            InferenceError::Timeout(d) => {
                let secs = duration_secs(d);
                let nanos = duration_subsec_nanos(d);
                let w = duration_debug(secs, nanos);
                let m = concat2("Inference timeout after ", w.as_str());
                assert(m@ == self.text() + duration_debug_text(secs, nanos));
                m
            },
            InferenceError::InferenceFailed(s) => concat2("Inference failed: ", s.as_str()),
            InferenceError::NoTokensGenerated => String::from_str("No tokens generated"),
            InferenceError::BackendNotAvailable(s) => concat3(
                "Backend '",
                s.as_str(),
                "' not available",
            ),
            InferenceError::BackendError(s) => concat2("Backend error: ", s.as_str()),
            InferenceError::BackendNotInitialized => String::from_str("Backend not initialized"),
            InferenceError::OutOfMemory(s) => concat2("Out of memory: ", s.as_str()),
            InferenceError::MemoryAllocationFailed => String::from_str("Memory allocation failed"),
            InferenceError::HealthCheckFailed(s) => concat2("Health check failed: ", s.as_str()),
            InferenceError::ModelNotLoaded => String::from_str("Model not loaded"),
            InferenceError::Internal(s) => concat2("Internal error: ", s.as_str()),
            InferenceError::FfiError(s) => concat2("FFI error: ", s.as_str()),
        }
    }
}

/// What `format!("{:?}", Duration::new(secs, nanos))` writes: the duration
/// in `Debug` notation, which depends on the two numbers alone.
pub uninterp spec fn duration_debug_text(secs: u64, nanos: u32) -> Seq<char>;

/// Calls `Duration::as_secs`: the whole seconds of `d`.  Nothing is claimed
/// of the number, since a `Duration`'s value is not visible to the proofs.
#[verifier::external_body]
fn duration_secs(d: &Duration) -> (secs: u64) {
    d.as_secs()
}

/// Calls `Duration::subsec_nanos`: the nanoseconds of `d` beyond its whole
/// seconds, which its documentation says are less than one second's worth.
#[verifier::external_body]
fn duration_subsec_nanos(d: &Duration) -> (nanos: u32)
    ensures
        nanos < 1_000_000_000,
{
    d.subsec_nanos()
}

/// Writes `format!("{:?}", d)` for the duration `d` of `secs` seconds and
/// `nanos` nanoseconds (`Duration::new`, which cannot panic when the
/// nanoseconds are under a second).
#[verifier::external_body]
fn duration_debug(secs: u64, nanos: u32) -> (s: String)
    requires
        nanos < 1_000_000_000,
    ensures
        s@ == duration_debug_text(secs, nanos),
{
    format!("{:?}", Duration::new(secs, nanos))
}

} // verus!
