//! The CUDA backend, which is not implemented yet.

use vstd::prelude::*;
use crate::error::{InferenceError, InferenceResult};

verus! {

/// llama.cpp on a CUDA GPU.
pub struct CudaBackend;

impl CudaBackend {
    /// Refuses: the CUDA backend is not implemented yet.  The model path is
    /// taken as text.
    pub fn new(model_path: &str, n_ctx: i32) -> (r: InferenceResult<Self>)
        ensures
            r matches Err(InferenceError::BackendNotAvailable(m)) && m@
                == "CUDA backend not yet implemented"@,
    {
        Err(InferenceError::BackendNotAvailable(String::from_str("CUDA backend not yet implemented")))
    }

    /// The name the CUDA backend reports.
    pub fn name(&self) -> (s: &'static str)
        ensures
            s@ == "cuda"@,
    {
        "cuda"
    }
}

} // verus!
