//! Results and statistics that backends report.

use vstd::prelude::*;

verus! {

/// Memory use of a backend.
#[derive(Debug, Clone, Copy)]
pub struct MemoryStats {
    pub used_bytes: u64,
    pub total_bytes: u64,
    pub free_bytes: u64,
}

impl Default for MemoryStats {
    fn default() -> (m: Self)
        ensures
            m.used_bytes == 0,
            m.total_bytes == 0,
            m.free_bytes == 0,
    {
        MemoryStats { used_bytes: 0, total_bytes: 0, free_bytes: 0 }
    }
}

/// The outcome of a non-streaming inference.
#[derive(Debug, Clone)]
pub struct ForwardResult {
    /// The generated tokens.
    pub tokens: Vec<i32>,
    /// Milliseconds until the first token, if one came.
    pub first_token_ms: Option<u64>,
    /// Milliseconds the whole inference took.
    pub total_ms: u64,
}

/// One token of a streamed inference, as the HTTP layer sees it.
#[derive(Debug, Clone)]
pub struct StreamToken {
    pub token: i32,
    pub text: String,
    pub is_first: bool,
    pub is_done: bool,
}

} // verus!
