//! Key-value stores that the host holds.

use crate::http::body::Body;
use crate::kv_store::handle::{KVStoreError, StoreHandle};
use vstd::prelude::*;
use vstd::utf8::{decode_utf8, valid_utf8};

pub mod handle;

verus! {

/// A key-value store.
#[derive(Debug, PartialEq, Eq)]
pub struct KVStore {
    handle: StoreHandle,
}

impl View for KVStore {
    type V = u32;

    closed spec fn view(&self) -> u32 {
        self.handle@
    }
}

impl KVStore {
    /// The handle of the store.
    pub fn as_handle(&self) -> (r: &StoreHandle)
        ensures
            r@ == self@,
    {
        &self.handle
    }

    /// The store of a handle that was opened, no store where there is no handle, or
    /// the error of opening.
    pub fn open(opened: Result<Option<StoreHandle>, KVStoreError>) -> (r: Result<
        Option<Self>,
        KVStoreError,
    >)
        ensures
            match (opened, r) {
                (Ok(Some(h)), Ok(Some(store))) => store@ == h@,
                (Ok(None), Ok(None)) => true,
                (Err(e), Err(got)) => got == e,
                _ => false,
            },
    {
        match opened {
            Ok(Some(handle)) => Ok(Some(KVStore { handle })),
            Ok(None) => Ok(None),
            Err(e) => Err(e),
        }
    }

    /// The bytes of the item that a lookup found.
    pub fn lookup_bytes(&self, found: Result<Option<Body>, KVStoreError>) -> (r: Result<
        Option<Vec<u8>>,
        KVStoreError,
    >)
        ensures
            match (found, r) {
                (Ok(Some(body)), Ok(Some(bytes))) => bytes@ == body@,
                (Ok(None), Ok(None)) => true,
                (Err(e), Err(got)) => got == e,
                _ => false,
            },
    {
        match found {
            Ok(Some(body)) => Ok(Some(body.into_bytes())),
            Ok(None) => Ok(None),
            Err(e) => Err(e),
        }
    }

    /// The text of the item that a lookup found. The item has to be UTF-8.
    pub fn lookup_str(&self, found: Result<Option<Body>, KVStoreError>) -> (r: Result<
        Option<String>,
        KVStoreError,
    >)
        requires
            found matches Ok(Some(body)) ==> valid_utf8(body@),
        ensures
            match (found, r) {
                (Ok(Some(body)), Ok(Some(text))) => text@ == decode_utf8(body@),
                (Ok(None), Ok(None)) => true,
                (Err(e), Err(got)) => got == e,
                _ => false,
            },
    {
        match found {
            Ok(Some(body)) => Ok(Some(body.into_string())),
            Ok(None) => Ok(None),
            Err(e) => Err(e),
        }
    }
}

} // verus!
