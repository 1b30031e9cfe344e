//! The sender role.
pub mod buffer;
pub mod engine;
pub mod error;
pub mod laws;
pub mod replay;
pub mod states;
