//! HTTP API layer: the OpenAI-compatible message types and the assembly of
//! prompts, responses and stream chunks.

pub mod types;
pub mod chat;
