//! Secret stores that the host holds.

use crate::secret_store::handle::{LookupError, OpenError, SecretHandle, SecretStoreHandle};
use vstd::prelude::*;

pub mod handle;

verus! {

/// A secret store.
#[derive(Debug, PartialEq, Eq)]
pub struct SecretStore {
    handle: SecretStoreHandle,
}

impl View for SecretStore {
    type V = u32;

    closed spec fn view(&self) -> u32 {
        self.handle@
    }
}

impl SecretStore {
    /// The secret store of a handle that was opened, or the error of opening.
    pub fn open(opened: Result<SecretStoreHandle, OpenError>) -> (r: Result<Self, OpenError>)
        ensures
            match (opened, r) {
                (Ok(h), Ok(store)) => store@ == h@,
                (Err(e), Err(got)) => got == e,
                _ => false,
            },
    {
        match opened {
            Ok(handle) => Ok(SecretStore { handle }),
            Err(e) => Err(e),
        }
    }

    /// The handle of the store.
    pub fn as_handle(&self) -> (r: &SecretStoreHandle)
        ensures
            r@ == self@,
    {
        &self.handle
    }

    /// Whether the store has the secret, from what a lookup gave.
    pub fn contains(&self, found: Result<Option<SecretHandle>, LookupError>) -> (r: Result<
        bool,
        LookupError,
    >)
        ensures
            match (found, r) {
                (Ok(h), Ok(b)) => b == h is Some,
                (Err(e), Err(got)) => got == e,
                _ => false,
            },
    {
        self.handle.contains(found)
    }
}

} // verus!
