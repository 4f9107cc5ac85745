//! Backend layer: backend kinds, errors, selection, and the decision logic
//! of the inference loop.

pub mod types;
pub mod error;
pub mod backend;
pub mod traits;
pub mod runner_rknn3;
pub mod runner;
pub mod factory;
pub mod cpu;
pub mod cuda;
pub mod manager;
