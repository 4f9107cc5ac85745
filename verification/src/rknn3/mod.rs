//! Plain-value part of the RKNN3 runtime bindings: error codes and the
//! configuration and state types exchanged with the runtime.

pub mod error;
pub mod prelude;
