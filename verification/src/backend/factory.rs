//! Selection of the backend that serves the model.

use vstd::prelude::*;
use crate::backend::types::BackendType;
use crate::error::{InferenceError, InferenceResult};

verus! {

/// Chooses and checks the backend that serves the model.
pub struct BackendFactory;

impl BackendFactory {
    /// The backend the factory picks when none is asked for: CUDA when the
    /// build supports it, else llama.cpp on the CPU.  This build has no CUDA
    /// support, so the pick is the CPU.
    pub fn auto_detect() -> (t: BackendType)
        ensures
            t == BackendType::LlamaCpu,
    {
        if Self::cuda_available() {
            BackendType::LlamaCuda
        } else {
            BackendType::LlamaCpu
        }
    }

    /// Whether the build supports CUDA: it does not.
    pub fn cuda_available() -> (b: bool)
        ensures
            !b,
    {
        false
    }

    /// Whether the factory can build a backend of kind `t`: only the CPU
    /// backend can be built here; every other kind is refused with the reason.
    pub fn check_creatable(t: BackendType) -> (r: InferenceResult<()>)
        ensures
            t == BackendType::LlamaCpu <==> r is Ok,
            t == BackendType::LlamaCuda ==> (r matches Err(InferenceError::BackendNotAvailable(m))
                && m@ == "CUDA"@),
            t == BackendType::Rknn3 ==> (r matches Err(InferenceError::BackendNotAvailable(m))
                && m@ == "RKNN3 backend is managed by BackendManager, not BackendFactory"@),
            t == BackendType::Proxy ==> (r matches Err(InferenceError::BackendNotAvailable(m))
                && m@ == "Proxy backend not yet implemented"@),
    {
        match t {
            BackendType::LlamaCuda => Err(
                InferenceError::BackendNotAvailable(String::from_str("CUDA")),
            ),
            BackendType::LlamaCpu => Ok(()),
            BackendType::Rknn3 => Err(
                InferenceError::BackendNotAvailable(
                    String::from_str(
                        "RKNN3 backend is managed by BackendManager, not BackendFactory",
                    ),
                ),
            ),
            BackendType::Proxy => Err(
                InferenceError::BackendNotAvailable(
                    String::from_str("Proxy backend not yet implemented"),
                ),
            ),
        }
    }
}

} // verus!
