//! The handles of a secret store and of a secret, and what the host's answers mean.

use crate::abi::single::ValueOutcome;
use crate::limits::INITIAL_SECRET_PLAINTEXT_BUF_SIZE;
use crate::shared::{
    FastlyStatus, INVALID_SECRET_HANDLE, INVALID_SECRET_STORE_HANDLE, STATUS_BADF,
    STATUS_BUFLEN, STATUS_INVAL, STATUS_NONE, STATUS_OK,
};
use vstd::prelude::*;

verus! {

/// The largest secret that can be made, in bytes.
pub const MAX_SECRET_LEN: usize = 65536;

/// Why a secret store could not be opened.
#[derive(Clone, Debug, PartialEq, Eq)]
pub enum OpenError {
    /// There is no secret store of this name.
    SecretStoreDoesNotExist(String),
    /// The name is not one that a secret store can have.
    InvalidSecretStoreName(String),
    /// The host failed with a status that has no meaning of its own here.
    Unexpected(FastlyStatus),
}

/// Why a secret could not be looked up.
#[derive(Clone, Debug, PartialEq, Eq)]
pub enum LookupError {
    /// The handle stands for no secret store.
    InvalidSecretStoreHandle,
    /// The name is not one that a secret can have.
    InvalidSecretName(String),
    /// The handle stands for no secret.
    InvalidSecretHandle,
    /// The host failed with a status that has no meaning of its own here.
    Unexpected(FastlyStatus),
}

/// An [`OpenError`] as plain values.
pub enum OpenErrorView {
    SecretStoreDoesNotExist(Seq<char>),
    InvalidSecretStoreName(Seq<char>),
    Unexpected(FastlyStatus),
}

/// A [`LookupError`] as plain values.
pub enum LookupErrorView {
    InvalidSecretStoreHandle,
    InvalidSecretName(Seq<char>),
    InvalidSecretHandle,
    Unexpected(FastlyStatus),
}

impl View for OpenError {
    type V = OpenErrorView;

    open spec fn view(&self) -> OpenErrorView {
        match self {
            OpenError::SecretStoreDoesNotExist(name) => OpenErrorView::SecretStoreDoesNotExist(
                name@,
            ),
            OpenError::InvalidSecretStoreName(name) => OpenErrorView::InvalidSecretStoreName(
                name@,
            ),
            OpenError::Unexpected(status) => OpenErrorView::Unexpected(*status),
        }
    }
}

impl View for LookupError {
    type V = LookupErrorView;

    open spec fn view(&self) -> LookupErrorView {
        match self {
            LookupError::InvalidSecretStoreHandle => LookupErrorView::InvalidSecretStoreHandle,
            LookupError::InvalidSecretName(name) => LookupErrorView::InvalidSecretName(name@),
            LookupError::InvalidSecretHandle => LookupErrorView::InvalidSecretHandle,
            LookupError::Unexpected(status) => LookupErrorView::Unexpected(*status),
        }
    }
}

/// The handle of a secret store that the host holds.
#[derive(Debug, PartialEq, Eq, Hash)]
pub struct SecretStoreHandle {
    handle: u32,
}

impl View for SecretStoreHandle {
    type V = u32;

    closed spec fn view(&self) -> u32 {
        self.handle
    }
}

/// The handle of a secret that the host holds.
#[derive(Debug, PartialEq, Eq, Hash)]
pub struct SecretHandle {
    handle: u32,
}

impl View for SecretHandle {
    type V = u32;

    closed spec fn view(&self) -> u32 {
        self.handle
    }
}

/// The number of an optional handle of a secret.
pub open spec fn secret_number(h: Option<SecretHandle>) -> Option<u32> {
    match h {
        Some(handle) => Some(handle@),
        None => None,
    }
}

impl SecretStoreHandle {
    /// The handle that stands for no secret store.
    pub fn invalid() -> (h: Self)
        ensures
            h@ == INVALID_SECRET_STORE_HANDLE,
    {
        SecretStoreHandle { handle: INVALID_SECRET_STORE_HANDLE }
    }

    /// The number of the handle.
    pub fn as_u32(&self) -> (r: u32)
        ensures
            r == self@,
    {
        self.handle
    }

    /// What the host's answer to opening the secret store `name` means: the handle
    /// that it wrote on success, else the error that its status stands for.
    pub fn open(secret_store_name: &str, status: FastlyStatus, handle: u32) -> (r: Result<
        Self,
        OpenError,
    >)
        ensures
            match r {
                Ok(h) => status.code == STATUS_OK && h@ == handle,
                Err(e) => status.code != STATUS_OK && e@ == if status.code == STATUS_NONE {
                    OpenErrorView::SecretStoreDoesNotExist(secret_store_name@)
                } else if status.code == STATUS_INVAL {
                    OpenErrorView::InvalidSecretStoreName(secret_store_name@)
                } else {
                    OpenErrorView::Unexpected(status)
                },
            },
    {
        let code = status.code;
        if code == STATUS_OK {
            Ok(SecretStoreHandle { handle })
        } else if code == STATUS_NONE {
            Err(OpenError::SecretStoreDoesNotExist(secret_store_name.to_owned()))
        } else if code == STATUS_INVAL {
            Err(OpenError::InvalidSecretStoreName(secret_store_name.to_owned()))
        } else {
            Err(OpenError::Unexpected(status))
        }
    }

    /// What the host's answer to looking up the secret `name` means: the handle that
    /// it wrote on success, no secret for the status "none", else the error that its
    /// status stands for.
    pub fn get(&self, secret_name: &str, status: FastlyStatus, handle: u32) -> (r: Result<
        Option<SecretHandle>,
        LookupError,
    >)
        ensures
            match r {
                Ok(h) => secret_number(h) == if status.code == STATUS_OK {
                    Some(handle)
                } else {
                    None::<u32>
                } && (status.code == STATUS_OK || status.code == STATUS_NONE),
                Err(e) => status.code != STATUS_OK && status.code != STATUS_NONE && e@
                    == if status.code == STATUS_BADF {
                    LookupErrorView::InvalidSecretStoreHandle
                } else if status.code == STATUS_INVAL {
                    LookupErrorView::InvalidSecretName(secret_name@)
                } else {
                    LookupErrorView::Unexpected(status)
                },
            },
    {
        let code = status.code;
        if code == STATUS_OK {
            Ok(Some(SecretHandle { handle }))
        } else if code == STATUS_NONE {
            Ok(None)
        } else if code == STATUS_BADF {
            Err(LookupError::InvalidSecretStoreHandle)
        } else if code == STATUS_INVAL {
            Err(LookupError::InvalidSecretName(secret_name.to_owned()))
        } else {
            Err(LookupError::Unexpected(status))
        }
    }

    /// Whether the store has the secret, from what a lookup gave.
    pub fn contains(&self, found: Result<Option<SecretHandle>, LookupError>) -> (r: Result<
        bool,
        LookupError,
    >)
        ensures
            match (found, r) {
                (Ok(h), Ok(b)) => b == h is Some,
                (Err(e), Err(got)) => got == e,
                _ => false,
            },
    {
        match found {
            Ok(Some(_)) => Ok(true),
            Ok(None) => Ok(false),
            Err(e) => Err(e),
        }
    }
}

/// Whether a second call for the plaintext is made after the outcome `first` of the
/// first: where the buffer was too small and the host said how large one it needs.
pub open spec fn plaintext_asks_again(first: ValueOutcome) -> bool {
    first.status.code == STATUS_BUFLEN && first.nwritten != 0
}

/// Whether `first` is what `fill` brought back to the first call for a plaintext and
/// `second` what it brought back to the second, where one was made.
pub open spec fn plaintext_exchange<F: Fn(usize) -> ValueOutcome>(
    fill: F,
    first: ValueOutcome,
    second: ValueOutcome,
) -> bool {
    &&& call_ensures(fill, (INITIAL_SECRET_PLAINTEXT_BUF_SIZE,), first)
    &&& if plaintext_asks_again(first) {
        call_ensures(fill, (first.nwritten,), second)
    } else {
        second == first
    }
}

/// Whether `r` is what the outcome `o` of the last call for a plaintext means: the
/// bytes that the host wrote on success, else the error that its status stands for.
pub open spec fn plaintext_result(r: Result<Vec<u8>, LookupError>, o: ValueOutcome) -> bool {
    match r {
        Ok(bytes) => o.status.code == STATUS_OK && bytes@ == o.data@,
        Err(e) => o.status.code != STATUS_OK && e@ == if o.status.code == STATUS_BADF {
            LookupErrorView::InvalidSecretHandle
        } else {
            LookupErrorView::Unexpected(o.status)
        },
    }
}

impl SecretHandle {
    /// The handle that stands for no secret.
    pub fn invalid() -> (h: Self)
        ensures
            h@ == INVALID_SECRET_HANDLE,
    {
        SecretHandle { handle: INVALID_SECRET_HANDLE }
    }

    /// The handle of the given number.
    pub fn from_u32(handle: u32) -> (h: Self)
        ensures
            h@ == handle,
    {
        SecretHandle { handle }
    }

    /// The number of the handle.
    pub fn as_u32(&self) -> (r: u32)
        ensures
            r == self@,
    {
        self.handle
    }

    /// Whether the handle stands for no secret.
    pub fn is_invalid(&self) -> (r: bool)
        ensures
            r == (self@ == INVALID_SECRET_HANDLE),
    {
        self.handle == INVALID_SECRET_HANDLE
    }

    /// The plaintext of the secret. `fill` asks the host with a buffer of the given
    /// size: first one of 1024 bytes and, where the host asks for more, once more one
    /// of the size asked for. The handle has to be valid.
    pub fn plaintext<F: Fn(usize) -> ValueOutcome>(&self, fill: F) -> (r: Result<
        Vec<u8>,
        LookupError,
    >)
        requires
            self@ != INVALID_SECRET_HANDLE,
            forall|capacity: usize| call_requires(fill, (capacity,)),
        ensures
            exists|first: ValueOutcome, second: ValueOutcome|
                {
                    &&& #[trigger] plaintext_exchange(fill, first, second)
                    &&& plaintext_result(r, second)
                },
    {
        let first = fill(INITIAL_SECRET_PLAINTEXT_BUF_SIZE);
        let ghost first_seen = first;
        let last = if first.status.code == STATUS_BUFLEN && first.nwritten != 0 {
            fill(first.nwritten)
        } else {
            first
        };
        let ghost last_seen = last;
        let r = if last.status.code == STATUS_OK {
            Ok(last.data)
        } else if last.status.code == STATUS_BADF {
            Err(LookupError::InvalidSecretHandle)
        } else {
            Err(LookupError::Unexpected(last.status))
        };
        assert(plaintext_exchange(fill, first_seen, last_seen));
        r
    }

    /// What the host's answer to making a secret of `secret` means; `make` asks the
    /// host. A secret of more than 64 KiB is refused as invalid without asking.
    pub fn new<F: FnOnce() -> (FastlyStatus, u32)>(secret: &[u8], make: F) -> (r: Result<
        SecretHandle,
        FastlyStatus,
    >)
        requires
            call_requires(make, ()),
        ensures
            secret@.len() > MAX_SECRET_LEN ==> r == Err::<SecretHandle, FastlyStatus>(
                FastlyStatus { code: STATUS_INVAL },
            ),
            secret@.len() <= MAX_SECRET_LEN ==> exists|o: (FastlyStatus, u32)| #[trigger]
                call_ensures(make, (), o) && match r {
                    Ok(h) => o.0.code == STATUS_OK && h@ == o.1,
                    Err(status) => o.0.code != STATUS_OK && status == o.0,
                },
    {
        if secret.len() > MAX_SECRET_LEN {
            return Err(FastlyStatus { code: STATUS_INVAL });
        }
        let answer = make();
        assert(call_ensures(make, (), answer));
        if answer.0.code == STATUS_OK {
            Ok(SecretHandle { handle: answer.1 })
        } else {
            Err(answer.0)
        }
    }
}

} // verus!
