//! Sans-IO payjoin sessions.
#![allow(unused_imports)]

pub mod chain;
mod collect;
pub mod error;
pub mod persist;
pub mod receive;
pub mod runtime;
pub mod send;
pub mod session;
pub mod staging;
pub mod text;
pub mod validation;
