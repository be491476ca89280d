//! The options of cache operations, and their form for the host.

use crate::abi::single::{
    read_sized, sized_exchange, sized_result, sized_served, ValueOutcome,
};
use crate::backend::builder::{text_of, with_option};
use crate::http::body::handle::BodyHandle;
use crate::shared::{FastlyStatus, INVALID_CACHE_HANDLE, STATUS_NONE, STATUS_OK};
use crate::http::request::handle::RequestHandle;
use crate::shared::INVALID_REQUEST_HANDLE;
use crate::sys::{
    CacheGetBodyOptions, CacheLookupOptions, CacheWriteOptions, GET_BODY_FROM, GET_BODY_TO,
    LOOKUP_REQUEST_HEADERS, WRITE_INITIAL_AGE_NS, WRITE_LENGTH, WRITE_REQUEST_HEADERS,
    WRITE_SENSITIVE_DATA, WRITE_STALE_WHILE_REVALIDATE_NS, WRITE_SURROGATE_KEYS,
    WRITE_USER_METADATA, WRITE_VARY_RULE,
};
use crate::text::copy_bytes;
use vstd::prelude::*;

verus! {

/// The number of an optional request handle, that of the invalid handle where there
/// is none.
pub open spec fn request_number(h: Option<RequestHandle>) -> u32 {
    match h {
        Some(handle) => handle@,
        None => INVALID_REQUEST_HANDLE,
    }
}

/// An optional number, zero where there is none.
pub open spec fn or_zero(v: Option<u64>) -> u64 {
    match v {
        Some(n) => n,
        None => 0,
    }
}

/// The bytes of optional bytes.
pub open spec fn bytes_of(v: Option<Vec<u8>>) -> Option<Seq<u8>> {
    match v {
        Some(b) => Some(b@),
        None => None,
    }
}

/// The options of a cache lookup.
#[derive(Debug)]
pub struct LookupOptions {
    /// The request whose headers the lookup varies on.
    pub request_headers: Option<RequestHandle>,
}

impl LookupOptions {
    /// The options as the host takes them: the bits that say which are given, and
    /// their values.
    pub fn as_abi(&self) -> (r: (u32, CacheLookupOptions))
        ensures
            r.0 == with_option(0, self.request_headers is Some, LOOKUP_REQUEST_HEADERS),
            r.1.request_headers == request_number(self.request_headers),
    {
        let mut mask: u32 = 0;
        let request_headers = match &self.request_headers {
            Some(v) => {
                mask = mask | LOOKUP_REQUEST_HEADERS;
                v.as_u32()
            },
            None => INVALID_REQUEST_HANDLE,
        };
        (mask, CacheLookupOptions { request_headers })
    }
}

/// The options of a cache write.
#[derive(Debug)]
pub struct WriteOptions {
    pub max_age_ns: u64,
    pub request_headers: Option<RequestHandle>,
    pub vary_rule: Option<String>,
    pub initial_age_ns: Option<u64>,
    pub stale_while_revalidate_ns: Option<u64>,
    pub surrogate_keys: Option<String>,
    pub length: Option<u64>,
    pub user_metadata: Option<Vec<u8>>,
    pub sensitive_data: bool,
}

impl WriteOptions {
    /// The bits that say which options are given.
    pub open spec fn mask(&self) -> u32 {
        let m0 = with_option(0, self.request_headers is Some, WRITE_REQUEST_HEADERS);
        let m1 = with_option(m0, self.vary_rule is Some, WRITE_VARY_RULE);
        let m2 = with_option(m1, self.initial_age_ns is Some, WRITE_INITIAL_AGE_NS);
        let m3 = with_option(
            m2,
            self.stale_while_revalidate_ns is Some,
            WRITE_STALE_WHILE_REVALIDATE_NS,
        );
        let m4 = with_option(m3, self.surrogate_keys is Some, WRITE_SURROGATE_KEYS);
        let m5 = with_option(m4, self.length is Some, WRITE_LENGTH);
        let m6 = with_option(m5, self.user_metadata is Some, WRITE_USER_METADATA);
        with_option(m6, self.sensitive_data, WRITE_SENSITIVE_DATA)
    }

    /// The options as the host takes them: the bits that say which are given, and
    /// their values, zero for a number that is not given.
    pub fn as_abi(&self) -> (r: (u32, CacheWriteOptions))
        ensures
            r.0 == self.mask(),
            r.1.max_age_ns == self.max_age_ns,
            r.1.request_headers == request_number(self.request_headers),
            text_of(r.1.vary_rule) == text_of(self.vary_rule),
            r.1.initial_age_ns == or_zero(self.initial_age_ns),
            r.1.stale_while_revalidate_ns == or_zero(self.stale_while_revalidate_ns),
            text_of(r.1.surrogate_keys) == text_of(self.surrogate_keys),
            r.1.length == or_zero(self.length),
            bytes_of(r.1.user_metadata) == bytes_of(self.user_metadata),
    {
        let mut mask: u32 = 0;
        let request_headers = match &self.request_headers {
            Some(v) => {
                mask = mask | WRITE_REQUEST_HEADERS;
                v.as_u32()
            },
            None => INVALID_REQUEST_HANDLE,
        };
        let vary_rule = match &self.vary_rule {
            Some(v) => {
                mask = mask | WRITE_VARY_RULE;
                Some(v.clone())
            },
            None => None,
        };
        let initial_age_ns = match self.initial_age_ns {
            Some(v) => {
                mask = mask | WRITE_INITIAL_AGE_NS;
                v
            },
            None => 0,
        };
        let stale_while_revalidate_ns = match self.stale_while_revalidate_ns {
            Some(v) => {
                mask = mask | WRITE_STALE_WHILE_REVALIDATE_NS;
                v
            },
            None => 0,
        };
        let surrogate_keys = match &self.surrogate_keys {
            Some(v) => {
                mask = mask | WRITE_SURROGATE_KEYS;
                Some(v.clone())
            },
            None => None,
        };
        let length = match self.length {
            Some(v) => {
                mask = mask | WRITE_LENGTH;
                v
            },
            None => 0,
        };
        let user_metadata = match &self.user_metadata {
            Some(v) => {
                mask = mask | WRITE_USER_METADATA;
                Some(copy_bytes(v.as_slice()))
            },
            None => None,
        };
        if self.sensitive_data {
            mask = mask | WRITE_SENSITIVE_DATA;
        }
        (
            mask,
            CacheWriteOptions {
                max_age_ns: self.max_age_ns,
                request_headers,
                vary_rule,
                initial_age_ns,
                stale_while_revalidate_ns,
                surrogate_keys,
                length,
                user_metadata,
            },
        )
    }
}

/// The part of a cached body that is to be read.
#[derive(Debug)]
pub struct GetBodyOptions {
    pub from: Option<u64>,
    pub to: Option<u64>,
}

impl GetBodyOptions {
    /// The options as the host takes them: the bits that say which are given, and
    /// their values, zero for one that is not given.
    pub fn as_abi(&self) -> (r: (u32, CacheGetBodyOptions))
        ensures
            r.0 == with_option(
                with_option(0, self.from is Some, GET_BODY_FROM),
                self.to is Some,
                GET_BODY_TO,
            ),
            r.1 == (CacheGetBodyOptions { from: or_zero(self.from), to: or_zero(self.to) }),
    {
        let mut mask: u32 = 0;
        let from = match self.from {
            Some(v) => {
                mask = mask | GET_BODY_FROM;
                v
            },
            None => 0,
        };
        let to = match self.to {
            Some(v) => {
                mask = mask | GET_BODY_TO;
                v
            },
            None => 0,
        };
        (mask, CacheGetBodyOptions { from, to })
    }
}

/// The size of the buffer that is first offered for the metadata of a cached object.
pub const INITIAL_USER_METADATA_CAPACITY: usize = 16384;

/// The handle of a cache entry that the host holds.
#[derive(Debug, PartialEq, Eq, Hash)]
pub struct CacheHandle {
    handle: u32,
}

impl View for CacheHandle {
    type V = u32;

    closed spec fn view(&self) -> u32 {
        self.handle
    }
}

impl CacheHandle {
    /// The handle that stands for no cache entry.
    pub fn invalid() -> (h: Self)
        ensures
            h@ == INVALID_CACHE_HANDLE,
    {
        CacheHandle { handle: INVALID_CACHE_HANDLE }
    }

    /// The handle of the given number.
    pub fn from_u32(handle: u32) -> (h: Self)
        ensures
            h@ == handle,
    {
        CacheHandle { handle }
    }

    /// The number of the handle.
    pub fn as_u32(&self) -> (r: u32)
        ensures
            r == self@,
    {
        self.handle
    }

    /// The metadata that the program stored with the cached object, if there is an
    /// object. `fill` asks the host with a buffer of the given size: first one of 16
    /// KiB and, where the host asks for more, one of the size asked for.
    pub fn get_user_metadata<F: Fn(usize) -> ValueOutcome>(&self, fill: F) -> (r: Option<Vec<u8>>)
        requires
            sized_served::<Vec<u8>, F>(fill),
        ensures
            exists|first: ValueOutcome, second: ValueOutcome|
                {
                    &&& #[trigger] sized_exchange(
                        fill,
                        INITIAL_USER_METADATA_CAPACITY,
                        first,
                        second,
                    )
                    &&& sized_result::<Vec<u8>>(r, second)
                },
    {
        read_sized::<Vec<u8>, F>(INITIAL_USER_METADATA_CAPACITY, fill)
    }

    /// What the host's answer to asking for the body of the cached object means: the
    /// handle that it wrote on success, no body for the status "none", else the status
    /// as an error.
    pub fn get_body(&self, status: FastlyStatus, body_handle_out: BodyHandle) -> (r: Result<
        Option<BodyHandle>,
        FastlyStatus,
    >)
        ensures
            match r {
                Ok(Some(h)) => status.code == STATUS_OK && h@ == body_handle_out@,
                Ok(None) => status.code == STATUS_NONE,
                Err(e) => status.code != STATUS_OK && status.code != STATUS_NONE && e == status,
            },
    {
        if status.code == STATUS_OK {
            Ok(Some(body_handle_out))
        } else if status.code == STATUS_NONE {
            Ok(None)
        } else {
            Err(status)
        }
    }

    /// What the host's answer to asking for a number of the cached object (its time to
    /// live, its age, its time of serving stale, its hits) means: the number on
    /// success, none for the status "none". The host has to answer with one of the two.
    pub fn get_number(&self, status: FastlyStatus, number_out: u64) -> (r: Option<u64>)
        requires
            status.code == STATUS_OK || status.code == STATUS_NONE,
        ensures
            r == if status.code == STATUS_OK {
                Some(number_out)
            } else {
                None
            },
    {
        self.get_length(status, number_out)
    }

    /// What the host's answer to asking for the length of the cached object means: the
    /// length on success, none for the status "none". The host has to answer with one
    /// of the two.
    pub fn get_length(&self, status: FastlyStatus, length_out: u64) -> (r: Option<u64>)
        requires
            status.code == STATUS_OK || status.code == STATUS_NONE,
        ensures
            r == if status.code == STATUS_OK {
                Some(length_out)
            } else {
                None
            },
    {
        if status.code == STATUS_OK {
            Some(length_out)
        } else {
            None
        }
    }
}

} // verus!
