//! llama.cpp integration: the decisions taken around the native calls.

pub mod ptr;
pub mod tokenize;
pub mod model;
