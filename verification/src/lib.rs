//! Guest-side building blocks for programs that run inside an edge-compute host.

pub mod abi;
pub mod backend;
pub mod byte_buf;
pub mod cache;
pub mod cache_override;
pub mod config_store;
pub mod convert;
pub mod dictionary;
pub mod digest;
pub mod error;
pub mod experimental;
pub mod geo;
pub mod http;
pub mod kv_store;
pub mod limits;
pub mod log;
pub mod models;
pub mod secret_store;
pub mod shared;
pub mod sys;
pub mod text;
pub mod time;
