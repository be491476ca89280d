//! The handle of a dictionary that the host holds, and what the host's answers mean.

use crate::shared::{
    FastlyStatus, INVALID_DICTIONARY_HANDLE, STATUS_BADF, STATUS_BUFLEN, STATUS_ERROR,
    STATUS_INVAL, STATUS_LIMITEXCEEDED, STATUS_NONE, STATUS_OK, STATUS_UNSUPPORTED,
};
use crate::text::str_from_utf8;
use vstd::prelude::*;
use vstd::utf8::{decode_utf8, valid_utf8};

verus! {

/// Why a dictionary could not be opened.
#[derive(Copy, Clone, Debug, PartialEq, Eq, Structural)]
pub enum OpenError {
    /// There is no dictionary of the name.
    DictionaryDoesNotExist,
    /// The name is empty.
    NameEmpty,
    /// The name is too long.
    NameTooLong,
    /// The name is not one that a dictionary can have.
    NameInvalid,
}

/// Why a key could not be looked up.
#[derive(Copy, Clone, Debug, PartialEq, Eq, Structural)]
pub enum LookupError {
    /// The handle stands for no dictionary.
    DictionaryInvalid,
    /// The key is not one that an item can have.
    KeyInvalid,
    /// The key is too long.
    KeyTooLong,
    /// The value did not fit the buffer.
    ValueTooLong,
    /// The program has made too many lookups.
    TooManyLookups,
    /// The lookup failed for another reason.
    Other,
}

/// The error that a failure status of opening stands for, if it stands for one.
pub open spec fn open_error(code: i32) -> Option<OpenError> {
    if code == STATUS_NONE {
        Some(OpenError::NameEmpty)
    } else if code == STATUS_UNSUPPORTED {
        Some(OpenError::NameTooLong)
    } else if code == STATUS_INVAL {
        Some(OpenError::NameInvalid)
    } else if code == STATUS_BADF {
        Some(OpenError::DictionaryDoesNotExist)
    } else {
        None
    }
}

/// The error that a failure status of a lookup stands for, if it stands for one.
pub open spec fn lookup_error(code: i32) -> Option<LookupError> {
    if code == STATUS_ERROR {
        Some(LookupError::Other)
    } else if code == STATUS_BADF {
        Some(LookupError::DictionaryInvalid)
    } else if code == STATUS_INVAL {
        Some(LookupError::KeyInvalid)
    } else if code == STATUS_UNSUPPORTED {
        Some(LookupError::KeyTooLong)
    } else if code == STATUS_BUFLEN {
        Some(LookupError::ValueTooLong)
    } else if code == STATUS_LIMITEXCEEDED {
        Some(LookupError::TooManyLookups)
    } else {
        None
    }
}

/// The handle of a dictionary that the host holds.
#[derive(Debug, PartialEq, Eq, Hash)]
pub struct DictionaryHandle {
    handle: u32,
}

impl View for DictionaryHandle {
    type V = u32;

    closed spec fn view(&self) -> u32 {
        self.handle
    }
}

impl DictionaryHandle {
    /// The handle that stands for no dictionary.
    pub fn invalid() -> (h: Self)
        ensures
            h@ == INVALID_DICTIONARY_HANDLE,
    {
        DictionaryHandle { handle: INVALID_DICTIONARY_HANDLE }
    }

    /// The handle of the given number.
    pub fn from_u32(handle: u32) -> (h: Self)
        ensures
            h@ == handle,
    {
        DictionaryHandle { handle }
    }

    /// The number of the handle.
    pub fn as_u32(&self) -> (r: u32)
        ensures
            r == self@,
    {
        self.handle
    }

    /// What the host's answer to opening a dictionary means: the handle that it
    /// wrote on success, else the error that its status stands for. The status has to
    /// be one that the host gives for opening.
    pub fn open(status: FastlyStatus, handle: u32) -> (r: Result<Self, OpenError>)
        requires
            status.code == STATUS_OK || open_error(status.code) is Some,
        ensures
            match r {
                Ok(h) => status.code == STATUS_OK && h@ == handle,
                Err(e) => status.code != STATUS_OK && open_error(status.code) == Some(e),
            },
    {
        let code = status.code;
        if code == STATUS_OK {
            Ok(DictionaryHandle { handle })
        } else if code == STATUS_NONE {
            Err(OpenError::NameEmpty)
        } else if code == STATUS_UNSUPPORTED {
            Err(OpenError::NameTooLong)
        } else if code == STATUS_INVAL {
            Err(OpenError::NameInvalid)
        } else {
            Err(OpenError::DictionaryDoesNotExist)
        }
    }

    /// What the host's answer to a lookup means: the value that it wrote on success,
    /// no value for the status "none", else the error that its status stands for. The
    /// handle has to be valid, the status one that the host gives for a lookup, and
    /// the value UTF-8.
    pub fn get(&self, status: FastlyStatus, value: &[u8]) -> (r: Result<
        Option<String>,
        LookupError,
    >)
        requires
            self@ != INVALID_DICTIONARY_HANDLE,
            status.code == STATUS_OK || status.code == STATUS_NONE || lookup_error(status.code)
                is Some,
            status.code == STATUS_OK ==> valid_utf8(value@),
        ensures
            match r {
                Ok(Some(s)) => status.code == STATUS_OK && s@ == decode_utf8(value@),
                Ok(None) => status.code == STATUS_NONE,
                Err(e) => status.code != STATUS_OK && status.code != STATUS_NONE && lookup_error(
                    status.code,
                ) == Some(e),
            },
    {
        let code = status.code;
        if code == STATUS_OK {
            match str_from_utf8(value) {
                Some(s) => Ok(Some(s.to_owned())),
                None => vstd::pervasive::unreached(),
            }
        } else if code == STATUS_NONE {
            Ok(None)
        } else if code == STATUS_ERROR {
            Err(LookupError::Other)
        } else if code == STATUS_BADF {
            Err(LookupError::DictionaryInvalid)
        } else if code == STATUS_INVAL {
            Err(LookupError::KeyInvalid)
        } else if code == STATUS_UNSUPPORTED {
            Err(LookupError::KeyTooLong)
        } else if code == STATUS_BUFLEN {
            Err(LookupError::ValueTooLong)
        } else {
            Err(LookupError::TooManyLookups)
        }
    }

    /// Whether the store has the key, from what a lookup with an empty buffer gave: a
    /// value, or the complaint that the value did not fit, shows that the key is there.
    pub fn contains(&self, found: Result<Option<String>, LookupError>) -> (r: Result<
        bool,
        LookupError,
    >)
        ensures
            r == match found {
                Ok(Some(_)) => Ok::<bool, LookupError>(true),
                Err(LookupError::ValueTooLong) => Ok::<bool, LookupError>(true),
                Ok(None) => Ok::<bool, LookupError>(false),
                Err(e) => Err::<bool, LookupError>(e),
            },
    {
        match found {
            Ok(Some(_)) => Ok(true),
            Err(LookupError::ValueTooLong) => Ok(true),
            Ok(None) => Ok(false),
            Err(e) => Err(e),
        }
    }

    /// Whether the handle stands for a dictionary.
    pub fn is_valid(&self) -> (r: bool)
        ensures
            r == (self@ != INVALID_DICTIONARY_HANDLE),
    {
        !self.is_invalid()
    }

    /// Whether the handle stands for no dictionary.
    pub fn is_invalid(&self) -> (r: bool)
        ensures
            r == (self@ == INVALID_DICTIONARY_HANDLE),
    {
        self.handle == INVALID_DICTIONARY_HANDLE
    }
}

} // verus!
