//! Lingbase: the decision logic of an edge LLM inference service.
//!
//! The library holds the parts of the service that compute: error
//! classification, backend selection, chat prompt and response assembly,
//! streaming metrics, greedy token selection, the token generation loop as a
//! state machine, and the plain-value types of the RKNN3 runtime bindings.

pub mod text;
pub mod error;
pub mod rknn3;
pub mod backend;
pub mod api;
pub mod infra;
pub mod llama;
