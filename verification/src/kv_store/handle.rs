//! The handle of a key-value store that the host holds, and what the host's answers
//! mean.

use crate::http::body::handle::BodyHandle;
use crate::shared::{
    FastlyStatus, INVALID_BODY_HANDLE, INVALID_KV_STORE_HANDLE, STATUS_BADF, STATUS_INVAL,
    STATUS_OK,
};
use vstd::prelude::*;

verus! {

/// Why an operation on a key-value store failed.
#[derive(Clone, Debug, PartialEq, Eq)]
pub enum KVStoreError {
    /// The key is not one that an item can have.
    InvalidKey,
    /// The older name of [`KVStoreError::InvalidKVStoreHandle`].
    InvalidObjectStoreHandle,
    /// The handle stands for no store.
    InvalidKVStoreHandle,
    /// The older name of [`KVStoreError::KVStoreNotFound`].
    ObjectStoreNotFound(String),
    /// There is no store of this name.
    KVStoreNotFound(String),
    /// The host failed with a status that has no meaning of its own here.
    Unexpected(FastlyStatus),
}

/// A [`KVStoreError`] as plain values.
pub enum KVStoreErrorView {
    InvalidKey,
    InvalidObjectStoreHandle,
    InvalidKVStoreHandle,
    ObjectStoreNotFound(Seq<char>),
    KVStoreNotFound(Seq<char>),
    Unexpected(FastlyStatus),
}

impl View for KVStoreError {
    type V = KVStoreErrorView;

    open spec fn view(&self) -> KVStoreErrorView {
        match self {
            KVStoreError::InvalidKey => KVStoreErrorView::InvalidKey,
            KVStoreError::InvalidObjectStoreHandle => KVStoreErrorView::InvalidObjectStoreHandle,
            KVStoreError::InvalidKVStoreHandle => KVStoreErrorView::InvalidKVStoreHandle,
            KVStoreError::ObjectStoreNotFound(name) => KVStoreErrorView::ObjectStoreNotFound(
                name@,
            ),
            KVStoreError::KVStoreNotFound(name) => KVStoreErrorView::KVStoreNotFound(name@),
            KVStoreError::Unexpected(status) => KVStoreErrorView::Unexpected(*status),
        }
    }
}

impl KVStoreError {
    /// The error of a status that has no meaning of its own.
    pub fn from(st: FastlyStatus) -> (e: Self)
        ensures
            e@ == KVStoreErrorView::Unexpected(st),
    {
        KVStoreError::Unexpected(st)
    }
}

/// The error that a failure status of a lookup or an insert stands for.
pub open spec fn item_error(status: FastlyStatus) -> KVStoreErrorView {
    if status.code == STATUS_BADF {
        KVStoreErrorView::InvalidKVStoreHandle
    } else if status.code == STATUS_INVAL {
        KVStoreErrorView::InvalidKey
    } else {
        KVStoreErrorView::Unexpected(status)
    }
}

fn item_error_of(status: FastlyStatus) -> (e: KVStoreError)
    ensures
        e@ == item_error(status),
{
    if status.code == STATUS_BADF {
        KVStoreError::InvalidKVStoreHandle
    } else if status.code == STATUS_INVAL {
        KVStoreError::InvalidKey
    } else {
        KVStoreError::from(status)
    }
}

/// The handle of a key-value store that the host holds.
#[derive(Debug, PartialEq, Eq, Hash)]
pub struct StoreHandle {
    handle: u32,
}

impl View for StoreHandle {
    type V = u32;

    closed spec fn view(&self) -> u32 {
        self.handle
    }
}

/// The number of an optional handle of a store.
pub open spec fn store_number(h: Option<StoreHandle>) -> Option<u32> {
    match h {
        Some(handle) => Some(handle@),
        None => None,
    }
}

/// The number of an optional handle of a body.
pub open spec fn body_number(h: Option<BodyHandle>) -> Option<u32> {
    match h {
        Some(handle) => Some(handle@),
        None => None,
    }
}

impl StoreHandle {
    /// The number of the handle.
    pub fn as_u32(&self) -> (r: u32)
        ensures
            r == self@,
    {
        self.handle
    }

    /// The handle of the given number.
    pub fn from_u32(handle: u32) -> (h: Self)
        ensures
            h@ == handle,
    {
        StoreHandle { handle }
    }

    /// What the host's answer to opening the store `name` means: the handle that it
    /// wrote, no store where the handle is the invalid one, or the error that a
    /// failure status stands for ("invalid" means that there is no such store).
    pub fn open(name: &str, status: FastlyStatus, handle_out: u32) -> (r: Result<
        Option<StoreHandle>,
        KVStoreError,
    >)
        ensures
            match r {
                Ok(h) => status.code == STATUS_OK && store_number(h) == if handle_out
                    == INVALID_KV_STORE_HANDLE {
                    None::<u32>
                } else {
                    Some(handle_out)
                },
                Err(e) => status.code != STATUS_OK && e@ == if status.code == STATUS_INVAL {
                    KVStoreErrorView::KVStoreNotFound(name@)
                } else {
                    KVStoreErrorView::Unexpected(status)
                },
            },
    {
        if status.code != STATUS_OK {
            if status.code == STATUS_INVAL {
                return Err(KVStoreError::KVStoreNotFound(name.to_owned()));
            }
            return Err(KVStoreError::from(status));
        }
        if handle_out == INVALID_KV_STORE_HANDLE {
            Ok(None)
        } else {
            Ok(Some(StoreHandle { handle: handle_out }))
        }
    }

    /// What the host's answer to a lookup means: the handle of the body that it
    /// wrote, no item where the handle is the invalid one, or the error that a failure
    /// status stands for.
    pub fn lookup(&self, status: FastlyStatus, body_handle_out: u32) -> (r: Result<
        Option<BodyHandle>,
        KVStoreError,
    >)
        ensures
            match r {
                Ok(h) => status.code == STATUS_OK && body_number(h) == if body_handle_out
                    == INVALID_BODY_HANDLE {
                    None::<u32>
                } else {
                    Some(body_handle_out)
                },
                Err(e) => status.code != STATUS_OK && e@ == item_error(status),
            },
    {
        if status.code != STATUS_OK {
            return Err(item_error_of(status));
        }
        if body_handle_out == INVALID_BODY_HANDLE {
            Ok(None)
        } else {
            Ok(Some(BodyHandle::from_u32(body_handle_out)))
        }
    }

    /// What the host's answer to an insert means: success, or the error that a failure
    /// status stands for.
    pub fn insert(&mut self, status: FastlyStatus) -> (r: Result<(), KVStoreError>)
        ensures
            final(self)@ == old(self)@,
            match r {
                Ok(_) => status.code == STATUS_OK,
                Err(e) => status.code != STATUS_OK && e@ == item_error(status),
            },
    {
        if status.code != STATUS_OK {
            return Err(item_error_of(status));
        }
        Ok(())
    }
}

} // verus!
