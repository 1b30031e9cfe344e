//! The receiver role.
pub mod agreement;
pub mod buffer;
pub mod builder;
pub mod callbacks;
pub mod engine;
pub mod error;
pub mod laws;
pub mod references;
pub mod replay;
pub mod states;
pub mod values;
