//! The cache as a store of values under keys.

use crate::cache::direct;
use crate::digest::{hex_upper, hex_upper_string, sha256, sha256_digest};
use crate::http::body::Body;
use crate::shared::FastlyStatus;
use crate::text::{ascii_text, copy_bytes};
use crate::time::Duration;
use vstd::prelude::*;

verus! {

/// Why an operation on the simple cache failed.
#[derive(Clone, Debug, PartialEq, Eq)]
pub enum CacheError {
    /// A limit was exceeded.
    LimitExceeded,
    /// The operation is not valid in the state of the cache.
    InvalidOperation,
    /// The operation is not supported.
    Unsupported,
    /// Reading or writing a body failed, in words.
    Io(String),
    /// Purging failed, in words.
    Purge(String),
    /// Making the entry failed, in words.
    GetOrSet(String),
    /// The host failed with a status that has no meaning of its own here.
    Other(FastlyStatus),
}

impl CacheError {
    /// The error of the simple cache that stands for one of the cache.
    pub fn from(value: direct::CacheError) -> (e: Self)
        ensures
            match value {
                direct::CacheError::LimitExceeded => e == CacheError::LimitExceeded,
                direct::CacheError::InvalidOperation => e == CacheError::InvalidOperation,
                direct::CacheError::Unsupported => e == CacheError::Unsupported,
                direct::CacheError::Other(st) => e == CacheError::Other(st),
            },
    {
        match value {
            direct::CacheError::LimitExceeded => CacheError::LimitExceeded,
            direct::CacheError::InvalidOperation => CacheError::InvalidOperation,
            direct::CacheError::Unsupported => CacheError::Unsupported,
            direct::CacheError::Other(st) => CacheError::Other(st),
        }
    }
}

/// A value and the time that it is to stay in the cache.
#[derive(Debug)]
pub struct CacheEntry {
    pub value: Body,
    pub ttl: Duration,
}

/// How far a purge reaches.
#[derive(Copy, Clone, Debug, PartialEq, Eq, Structural)]
pub enum PurgeScope {
    /// The point of presence that the program runs in.
    Pop,
    /// Every point of presence.
    Global,
}

/// The options of a purge.
#[derive(Copy, Clone, Debug, PartialEq, Eq, Structural)]
pub struct PurgeOptions {
    pub scope: PurgeScope,
}

impl PurgeOptions {
    /// A purge within the point of presence.
    pub fn pop_scope() -> (r: Self)
        ensures
            r.scope == PurgeScope::Pop,
    {
        PurgeOptions { scope: PurgeScope::Pop }
    }

    /// A purge everywhere.
    pub fn global_scope() -> (r: Self)
        ensures
            r.scope == PurgeScope::Global,
    {
        PurgeOptions { scope: PurgeScope::Global }
    }
}

impl Default for PurgeOptions {
    fn default() -> (r: Self)
        ensures
            r.scope == PurgeScope::Pop,
    {
        PurgeOptions { scope: PurgeScope::Pop }
    }
}

/// The bytes that are digested for the surrogate key of a cache key: the key, and for
/// a purge within the point of presence the name of that point, if it is known.
pub open spec fn surrogate_key_input(key: Seq<u8>, scope: PurgeScope, pop: Option<Seq<u8>>) -> Seq<
    u8,
> {
    match (scope, pop) {
        (PurgeScope::Pop, Some(name)) => key + name,
        _ => key,
    }
}

/// The name of an optional point of presence.
pub open spec fn pop_bytes(pop: Option<&[u8]>) -> Option<Seq<u8>> {
    match pop {
        Some(name) => Some(name@),
        None => None,
    }
}

/// The surrogate key under which the entry of a cache key is purged: the SHA-256
/// digest of [`surrogate_key_input`] in upper-case hexadecimal. `pop` is the name of
/// the point of presence that the program runs in, if it is known.
pub fn surrogate_key_for_cache_key(key: &[u8], scope: PurgeScope, pop: Option<&[u8]>) -> (r: String)
    ensures
        r@ == ascii_text(hex_upper(sha256(surrogate_key_input(key@, scope, pop_bytes(pop))))),
{
    let mut input = copy_bytes(key);
    match (scope, pop) {
        (PurgeScope::Pop, Some(name)) => {
            input.extend_from_slice(name);
        },
        _ => {},
    }
    assert(input@ =~= surrogate_key_input(key@, scope, pop_bytes(pop)));
    let digest = sha256_digest(input.as_slice());
    hex_upper_string(digest.as_slice())
}

} // verus!
