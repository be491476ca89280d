//! Dictionaries: read-only maps from keys to values that the host holds.

use crate::dictionary::handle::{DictionaryHandle, LookupError, OpenError};
use crate::shared::INVALID_DICTIONARY_HANDLE;
use vstd::prelude::*;

pub mod handle;

verus! {

/// The size of the buffer that is offered for a value.
pub const MAX_LEN: usize = 8000;

/// A dictionary.
#[derive(Debug, PartialEq, Eq)]
pub struct Dictionary {
    handle: DictionaryHandle,
}

impl View for Dictionary {
    type V = u32;

    closed spec fn view(&self) -> u32 {
        self.handle@
    }
}

impl Dictionary {
    /// The dictionary of a handle that was opened. Opening has to have succeeded
    /// with a valid handle.
    pub fn open(opened: Result<DictionaryHandle, OpenError>) -> (r: Self)
        requires
            opened matches Ok(h) && h@ != INVALID_DICTIONARY_HANDLE,
        ensures
            opened matches Ok(h) && r@ == h@,
    {
        match opened {
            Ok(handle) => Dictionary { handle },
            Err(_) => vstd::pervasive::unreached(),
        }
    }

    /// The dictionary of a handle that was opened, or the error of opening.
    pub fn try_open(opened: Result<DictionaryHandle, OpenError>) -> (r: Result<Self, OpenError>)
        ensures
            match (opened, r) {
                (Ok(h), Ok(store)) => store@ == h@,
                (Err(e), Err(got)) => got == e,
                _ => false,
            },
    {
        match opened {
            Ok(handle) => Ok(Dictionary { handle }),
            Err(e) => Err(e),
        }
    }

    /// The handle of the store.
    pub fn as_handle(&self) -> (r: &DictionaryHandle)
        ensures
            r@ == self@,
    {
        &self.handle
    }

    /// The value that a lookup found. The lookup has to have succeeded.
    pub fn get(&self, found: Result<Option<String>, LookupError>) -> (r: Option<String>)
        requires
            found is Ok,
        ensures
            found == Ok::<Option<String>, LookupError>(r),
    {
        match found {
            Ok(value) => value,
            Err(_) => vstd::pervasive::unreached(),
        }
    }

    /// The value that a lookup found, or its error.
    pub fn try_get(&self, found: Result<Option<String>, LookupError>) -> (r: Result<
        Option<String>,
        LookupError,
    >)
        ensures
            r == found,
    {
        found
    }

    /// Whether the store has the key, from what a lookup with an empty buffer gave;
    /// see [`DictionaryHandle::contains`]. The lookup has to have failed for no other
    /// reason than the size of the buffer.
    pub fn contains(&self, found: Result<Option<String>, LookupError>) -> (r: bool)
        requires
            found is Ok || found == Err::<Option<String>, LookupError>(LookupError::ValueTooLong),
        ensures
            r == !(found matches Ok(None)),
    {
        match self.handle.contains(found) {
            Ok(b) => b,
            Err(_) => vstd::pervasive::unreached(),
        }
    }
}

} // verus!
