//! The host's cache.

pub mod direct;
pub mod simple;
