//! Infrastructure: configuration values and health reporting.

pub mod config;
pub mod health;
