//! The records that are handed to the host, as plain values.

use vstd::prelude::*;

verus! {

/// The options of a cache lookup, as the host takes them.
#[derive(Clone, Copy, Debug, PartialEq, Eq, Structural)]
pub struct CacheLookupOptions {
    /// The handle of the request whose headers the lookup varies on.
    pub request_headers: u32,
}

/// The options of a cache write, as the host takes them.
#[derive(Clone, Debug, PartialEq, Eq)]
pub struct CacheWriteOptions {
    pub max_age_ns: u64,
    pub request_headers: u32,
    pub vary_rule: Option<String>,
    pub initial_age_ns: u64,
    pub stale_while_revalidate_ns: u64,
    pub surrogate_keys: Option<String>,
    pub length: u64,
    pub user_metadata: Option<Vec<u8>>,
}

/// The options of reading a cached body, as the host takes them.
#[derive(Clone, Copy, Debug, PartialEq, Eq, Structural)]
pub struct CacheGetBodyOptions {
    pub from: u64,
    pub to: u64,
}

/// What the host knows of the health of a backend.
#[derive(Clone, Copy, Debug, PartialEq, Eq, Structural)]
pub enum BackendHealth {
    Unknown,
    Healthy,
    Unhealthy,
}

/// The options of a purge, as the host takes them.
#[derive(Clone, Copy, Debug, PartialEq, Eq, Structural)]
pub struct PurgeOptions {
    /// The size of the buffer that is offered for the host's answer.
    pub ret_buf_len: usize,
}

/// Purge option bit: the purge is soft.
pub const PURGE_SOFT_PURGE: u32 = 1;

/// Purge option bit: a buffer for the host's answer is offered.
pub const PURGE_RET_BUF: u32 = 2;

/// Lookup option bit: request headers are given.
pub const LOOKUP_REQUEST_HEADERS: u32 = 2;

/// Write option bit: request headers are given.
pub const WRITE_REQUEST_HEADERS: u32 = 2;

/// Write option bit: a vary rule is given.
pub const WRITE_VARY_RULE: u32 = 4;

/// Write option bit: an initial age is given.
pub const WRITE_INITIAL_AGE_NS: u32 = 8;

/// Write option bit: a time of serving stale is given.
pub const WRITE_STALE_WHILE_REVALIDATE_NS: u32 = 16;

/// Write option bit: surrogate keys are given.
pub const WRITE_SURROGATE_KEYS: u32 = 32;

/// Write option bit: a length is given.
pub const WRITE_LENGTH: u32 = 64;

/// Write option bit: user metadata is given.
pub const WRITE_USER_METADATA: u32 = 128;

/// Write option bit: the data is sensitive.
pub const WRITE_SENSITIVE_DATA: u32 = 256;

/// Body option bit: a start is given.
pub const GET_BODY_FROM: u32 = 2;

/// Body option bit: an end is given.
pub const GET_BODY_TO: u32 = 4;

/// Lookup state bit: an object was found.
pub const STATE_FOUND: u32 = 1;

/// Lookup state bit: the object is usable.
pub const STATE_USABLE: u32 = 2;

/// Lookup state bit: the object is stale.
pub const STATE_STALE: u32 = 4;

/// Lookup state bit: the caller is to insert or update the object.
pub const STATE_MUST_INSERT_OR_UPDATE: u32 = 8;

} // verus!
