//! Backends: the origin servers that requests are sent to.

use crate::abi::single::{
    read_sized, sized_exchange, sized_result, sized_served, ValueOutcome,
};
use crate::http::header::HeaderValue;
use crate::shared::{FastlyStatus, SslVersion, STATUS_BUFLEN, STATUS_NONE, STATUS_OK};
use crate::text::byte_len;
use crate::time::Duration;
use vstd::prelude::*;
use vstd::string::{StrSliceExecFns, StringSliceAdditionalSpecFns};
use vstd::utf8::encode_utf8;

pub mod builder;

verus! {

/// The longest name that a backend may have, in bytes.
pub const MAX_BACKEND_NAME_LEN: usize = 255;

/// Why a text is not the name of a backend.
#[derive(Copy, Clone, Debug, PartialEq, Eq, Structural)]
pub enum BackendError {
    /// The name is empty.
    EmptyName,
    /// The name is longer than 255 bytes.
    TooLong,
    /// The name holds a character that is neither a space nor visible ASCII.
    InvalidName,
}

/// Whether a character may not stand in the name of a backend: anything but the
/// space and the visible ASCII characters.
pub open spec fn is_invalid_char(c: char) -> bool {
    c != ' ' && !('!' <= c <= '~')
}

/// What is wrong with `name` as the name of a backend, if anything. The tests are
/// made in this order: empty, too long, an invalid character.
pub open spec fn backend_name_error(name: Seq<char>) -> Option<BackendError> {
    if name.len() == 0 {
        Some(BackendError::EmptyName)
    } else if encode_utf8(name).len() > MAX_BACKEND_NAME_LEN {
        Some(BackendError::TooLong)
    } else if exists|i: int| 0 <= i < name.len() && is_invalid_char(#[trigger] name[i]) {
        Some(BackendError::InvalidName)
    } else {
        None
    }
}

fn char_is_invalid(c: char) -> (r: bool)
    ensures
        r == is_invalid_char(c),
{
    c != ' ' && !('!' <= c && c <= '~')
}

/// Tests whether a text can be the name of a backend: not empty, at most 255 bytes,
/// and made of spaces and visible ASCII characters only.
pub fn validate_backend(backend: &str) -> (r: Result<(), BackendError>)
    ensures
        match r {
            Ok(_) => backend_name_error(backend@) is None,
            Err(e) => backend_name_error(backend@) == Some(e),
        },
{
    if backend.is_empty() {
        return Err(BackendError::EmptyName);
    }
    if byte_len(backend) > MAX_BACKEND_NAME_LEN {
        return Err(BackendError::TooLong);
    }
    let n = backend.unicode_len();
    let mut i: usize = 0;
    while i < n
        invariant
            n == backend@.len(),
            n > 0,
            encode_utf8(backend@).len() <= MAX_BACKEND_NAME_LEN,
            0 <= i <= n,
            forall|j: int| 0 <= j < i ==> !is_invalid_char(#[trigger] backend@[j]),
        decreases n - i,
    {
        if char_is_invalid(backend.get_char(i)) {
            assert(is_invalid_char(backend@[i as int]));
            return Err(BackendError::InvalidName);
        }
        i = i + 1;
    }
    Ok(())
}

/// A backend, known by its name.
#[derive(Debug, PartialEq, Eq, Hash)]
pub struct Backend {
    name: String,
}

impl View for Backend {
    type V = Seq<char>;

    closed spec fn view(&self) -> Seq<char> {
        self.name@
    }
}

impl Clone for Backend {
    fn clone(&self) -> (r: Self)
        ensures
            r@ == self@,
    {
        Backend { name: self.name.clone() }
    }
}

impl Backend {
    /// The backend of the given name, if the text can be one.
    pub fn from_name(s: &str) -> (r: Result<Backend, BackendError>)
        ensures
            match r {
                Ok(b) => backend_name_error(s@) is None && b@ == s@,
                Err(e) => backend_name_error(s@) == Some(e),
            },
    {
        match validate_backend(s) {
            Ok(_) => Ok(Backend { name: s.to_owned() }),
            Err(e) => Err(e),
        }
    }

    /// A backend of a name that was not tested; the host decides whether it exists.
    pub fn from_unchecked_name(name: String) -> (b: Backend)
        ensures
            b@ == name@,
    {
        Backend { name }
    }

    /// Starts the description of a backend that is to be registered while the
    /// program runs.
    pub fn builder(name: &str, target: &str) -> (b: builder::BackendBuilder)
        ensures
            b@ == builder::BackendBuilderView::initial(name@, target@),
    {
        builder::BackendBuilder::new(name, target)
    }

    /// The name of the backend.
    pub fn name(&self) -> (r: &str)
        ensures
            r@ == self@,
    {
        self.name.as_str()
    }

    /// The name of the backend, the backend given up.
    pub fn into_string(self) -> (r: String)
        ensures
            r@ == self@,
    {
        self.name
    }
}

impl Backend {
    /// What the host's answer to asking whether it knows the backend means. The call has
    /// to have succeeded.
    pub fn is_known(&self, status: FastlyStatus, known: u32) -> (r: bool)
        requires
            status.code == STATUS_OK,
        ensures
            r == (known == 1),
    {
        known == 1
    }

    /// What the host's answer to asking whether the backend was registered while the
    /// program ran means. The call has to have succeeded.
    pub fn is_dynamic(&self, status: FastlyStatus, is: u32) -> (r: bool)
        requires
            status.code == STATUS_OK,
        ensures
            r == (is == 1),
    {
        is == 1
    }

    /// What the host's answer to asking whether the backend uses TLS means. The call
    /// has to have succeeded.
    pub fn is_ssl(&self, status: FastlyStatus, is: u32) -> (r: bool)
        requires
            status.code == STATUS_OK,
        ensures
            r == (is == 1),
    {
        is == 1
    }

    /// The host of the backend. `fill` asks the host with a buffer of the given size:
    /// the first call offers none and learns the size, the second offers that size. The
    /// host has to answer the first with "buffer too small", and with text.
    pub fn get_host<F: Fn(usize) -> ValueOutcome>(&self, fill: F) -> (r: String)
        requires
            sized_served::<String, F>(fill),
            forall|o: ValueOutcome| call_ensures(fill, (0usize,), o) ==> o.status.code
                == STATUS_BUFLEN,
        ensures
            exists|first: ValueOutcome, second: ValueOutcome|
                {
                    &&& #[trigger] sized_exchange(fill, 0, first, second)
                    &&& first.status.code == STATUS_BUFLEN
                    &&& sized_result::<String>(Some(r), second)
                },
    {
        match read_sized::<String, F>(0, fill) {
            Some(host) => host,
            None => vstd::pervasive::unreached(),
        }
    }

    /// The `Host` header that requests to the backend carry in place of their own, if
    /// one is set. `fill` asks the host as for [`Backend::get_host`]; the host has to
    /// answer the first call with "none" or with "buffer too small".
    pub fn get_host_override<F: Fn(usize) -> ValueOutcome>(&self, fill: F) -> (r: Option<
        HeaderValue,
    >)
        requires
            sized_served::<HeaderValue, F>(fill),
            forall|o: ValueOutcome| call_ensures(fill, (0usize,), o) ==> o.status.code
                != STATUS_OK,
        ensures
            exists|first: ValueOutcome, second: ValueOutcome|
                {
                    &&& #[trigger] sized_exchange(fill, 0, first, second)
                    &&& first.status.code != STATUS_OK
                    &&& sized_result::<HeaderValue>(r, second)
                },
    {
        read_sized::<HeaderValue, F>(0, fill)
    }

    /// The timeout that the host gave in milliseconds. The call has to have succeeded.
    pub fn get_connect_timeout(&self, status: FastlyStatus, timeout_ms: u32) -> (r: Duration)
        requires
            status.code == STATUS_OK,
        ensures
            r.milliseconds() == timeout_ms,
    {
        Duration::from_millis(timeout_ms as u64)
    }

    /// The timeout that the host gave in milliseconds. The call has to have succeeded.
    pub fn get_first_byte_timeout(&self, status: FastlyStatus, timeout_ms: u32) -> (r: Duration)
        requires
            status.code == STATUS_OK,
        ensures
            r.milliseconds() == timeout_ms,
    {
        Duration::from_millis(timeout_ms as u64)
    }

    /// The timeout that the host gave in milliseconds. The call has to have succeeded.
    pub fn get_between_bytes_timeout(&self, status: FastlyStatus, timeout_ms: u32) -> (r:
        Duration)
        requires
            status.code == STATUS_OK,
        ensures
            r.milliseconds() == timeout_ms,
    {
        Duration::from_millis(timeout_ms as u64)
    }

    /// The lowest TLS version that the backend accepts, if one is set. The host has to
    /// answer with success and the number of a version, or with "none".
    pub fn get_ssl_min_version(&self, status: FastlyStatus, raw: u32) -> (r: Option<SslVersion>)
        requires
            status.code == STATUS_OK || status.code == STATUS_NONE,
            status.code == STATUS_OK ==> SslVersion::of_number(raw) is Some,
        ensures
            r == if status.code == STATUS_OK {
                SslVersion::of_number(raw)
            } else {
                None
            },
    {
        if status.code == STATUS_OK {
            match SslVersion::try_from(raw) {
                Ok(v) => Some(v),
                Err(_) => vstd::pervasive::unreached(),
            }
        } else {
            None
        }
    }

    /// The highest TLS version that the backend accepts, if one is set. The host has
    /// to answer with success and the number of a version, or with "none".
    pub fn get_ssl_max_version(&self, status: FastlyStatus, raw: u32) -> (r: Option<SslVersion>)
        requires
            status.code == STATUS_OK || status.code == STATUS_NONE,
            status.code == STATUS_OK ==> SslVersion::of_number(raw) is Some,
        ensures
            r == if status.code == STATUS_OK {
                SslVersion::of_number(raw)
            } else {
                None
            },
    {
        self.get_ssl_min_version(status, raw)
    }
}

} // verus!
