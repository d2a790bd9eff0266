//! Authentication core of a bookmark service: credential registration,
//! password verification and signed, time-bound session tokens.

pub mod error;
pub mod hasher;
pub mod model;
pub mod token;
pub mod store;
pub mod auth;
