//! The llama.cpp runner's decision logic: token selection and the token
//! generation loop.

pub mod sample;
pub mod generation;
