//! Reading one value out of the host through a buffer of bounded size.
//!
//! A call offers the host a capacity; the host answers with the bytes of the value, or
//! says how large a buffer it needs.

use crate::abi::values::HostValue;
use crate::error::{BufferKind, BufferSizeError};
use crate::http::method::{valid_method, Method};
use crate::http::url::{url_parsed, Url};
use crate::shared::{FastlyStatus, STATUS_BUFLEN, STATUS_NONE, STATUS_OK};
use crate::text::copy_bytes;
use crate::text::str_from_utf8;
use vstd::prelude::*;
use vstd::utf8::{decode_utf8, valid_utf8};

verus! {

/// What one call for a value brought back.
pub struct ValueOutcome {
    /// The status of the call.
    pub status: FastlyStatus,
    /// The bytes that the host wrote; read on success only.
    pub data: Vec<u8>,
    /// The number of bytes written or, with the status "buffer too small", the
    /// capacity that would have been enough.
    pub nwritten: usize,
}

impl HostValue for Method {
    open spec fn readable(bytes: Seq<u8>) -> bool {
        valid_method(bytes)
    }

    open spec fn reads_as(&self, bytes: Seq<u8>) -> bool {
        self@ == bytes
    }

    fn from_host_bytes(bytes: &[u8]) -> (v: Self) {
        match Method::from_bytes(bytes) {
            Ok(method) => method,
            Err(_) => vstd::pervasive::unreached(),
        }
    }
}

impl HostValue for Url {
    open spec fn readable(bytes: Seq<u8>) -> bool {
        valid_utf8(bytes) && url_parsed(decode_utf8(bytes)) is Some
    }

    open spec fn reads_as(&self, bytes: Seq<u8>) -> bool {
        url_parsed(decode_utf8(bytes)) == Some(self@)
    }

    fn from_host_bytes(bytes: &[u8]) -> (v: Self) {
        match str_from_utf8(bytes) {
            Some(text) => match Url::parse(text) {
                Ok(url) => url,
                Err(_) => vstd::pervasive::unreached(),
            },
            None => vstd::pervasive::unreached(),
        }
    }
}

/// Whether an outcome is one that a call for a `T` with the given capacity may bring:
/// success with a value that fits and can be read, or "buffer too small".
pub open spec fn outcome_serves<T: HostValue>(o: ValueOutcome, capacity: usize) -> bool {
    &&& o.status.code == STATUS_OK || o.status.code == STATUS_BUFLEN
    &&& o.status.code == STATUS_OK ==> o.nwritten <= capacity && o.data@.len() == o.nwritten
        && T::readable(o.data@)
}

/// Whether every outcome of `fill` is one that a call for a `T` may bring.
pub open spec fn value_served<T: HostValue, F: Fn(usize) -> ValueOutcome>(fill: F) -> bool {
    &&& forall|capacity: usize| call_requires(fill, (capacity,))
    &&& forall|capacity: usize, o: ValueOutcome| #[trigger]
        call_ensures(fill, (capacity,), o) ==> outcome_serves::<T>(o, capacity)
}

/// Whether `r` is what is made of the outcome `o` of a call that offered `capacity`:
/// the value on success, else a size error that names `reported` as the size offered.
pub open spec fn value_result<T: HostValue>(
    r: Result<T, BufferSizeError>,
    o: ValueOutcome,
    reported: usize,
    kind: BufferKind,
) -> bool {
    match r {
        Ok(v) => o.status.code == STATUS_OK && v.reads_as(o.data@),
        Err(e) => o.status.code == STATUS_BUFLEN && e == (BufferSizeError {
            buf_size: reported,
            needed_buf_size: o.nwritten,
            buffer_kind: kind,
        }),
    }
}

/// What is made of the outcome of a call that offered `capacity`.
pub fn settle_value<T: HostValue>(o: ValueOutcome, capacity: usize, kind: BufferKind) -> (r: Result<
    T,
    BufferSizeError,
>)
    requires
        outcome_serves::<T>(o, capacity),
    ensures
        value_result::<T>(r, o, capacity, kind),
{
    if o.status.code == STATUS_OK {
        Ok(T::from_host_bytes(o.data.as_slice()))
    } else {
        Err(BufferSizeError::new(capacity, o.nwritten, kind))
    }
}

/// Reads one value with a buffer of `max_length` bytes.
pub fn read_value<T: HostValue, F: Fn(usize) -> ValueOutcome>(
    max_length: usize,
    kind: BufferKind,
    fill: F,
) -> (r: Result<T, BufferSizeError>)
    requires
        value_served::<T, F>(fill),
    ensures
        exists|o: ValueOutcome| #[trigger]
            call_ensures(fill, (max_length,), o) && value_result::<T>(r, o, max_length, kind),
{
    let o = fill(max_length);
    let ghost seen = o;
    let r = settle_value::<T>(o, max_length, kind);
    assert(call_ensures(fill, (max_length,), seen));
    r
}

/// The capacity that a first call offers: `initial_buf_size`, or `max_buf_size` if
/// that is less.
pub open spec fn first_capacity(initial_buf_size: usize, max_buf_size: Option<usize>) -> usize {
    match max_buf_size {
        Some(max) => if initial_buf_size <= max {
            initial_buf_size
        } else {
            max
        },
        None => initial_buf_size,
    }
}

/// Whether a second call is made after the outcome `first` of the first.
pub open spec fn asks_again(first: ValueOutcome, max_buf_size: Option<usize>) -> bool {
    first.status.code != STATUS_OK && !(max_buf_size matches Some(max) && first.nwritten > max)
}

/// Whether `r` is what reading with growth makes of the outcome `first` of the first
/// call and, where a second call is made, of its outcome `second`. A second call is
/// made where the first buffer was too small and the size that the host asks for is
/// within the maximum; it offers exactly that size. Where the size is beyond the
/// maximum, the error names the maximum as the size offered.
pub open spec fn grown_result<T: HostValue>(
    r: Result<T, BufferSizeError>,
    first: ValueOutcome,
    second: ValueOutcome,
    initial_buf_size: usize,
    max_buf_size: Option<usize>,
    kind: BufferKind,
) -> bool {
    if first.status.code == STATUS_OK {
        value_result::<T>(r, first, first_capacity(initial_buf_size, max_buf_size), kind)
    } else if asks_again(first, max_buf_size) {
        value_result::<T>(r, second, first.nwritten, kind)
    } else {
        r == Err::<T, BufferSizeError>(
            BufferSizeError {
                buf_size: max_buf_size->0,
                needed_buf_size: first.nwritten,
                buffer_kind: kind,
            },
        )
    }
}

/// Whether `first` is what `fill` brought back to the first call and `second` what it
/// brought back to the second: that call is made where [`asks_again`] says so, and else
/// `second` stands for `first` again.
pub open spec fn value_exchange<F: Fn(usize) -> ValueOutcome>(
    fill: F,
    initial_buf_size: usize,
    max_buf_size: Option<usize>,
    first: ValueOutcome,
    second: ValueOutcome,
) -> bool {
    &&& call_ensures(fill, (first_capacity(initial_buf_size, max_buf_size),), first)
    &&& if asks_again(first, max_buf_size) {
        call_ensures(fill, (first.nwritten,), second)
    } else {
        second == first
    }
}

/// Reads one value, first with a buffer of `initial_buf_size` bytes (or `max_buf_size`,
/// if that is less) and, where the host asks for more and `max_buf_size` allows it,
/// once more with a buffer of the size asked for.
pub fn read_value_adaptive<T: HostValue, F: Fn(usize) -> ValueOutcome>(
    initial_buf_size: usize,
    max_buf_size: Option<usize>,
    kind: BufferKind,
    fill: F,
) -> (r: Result<T, BufferSizeError>)
    requires
        value_served::<T, F>(fill),
    ensures
        exists|first: ValueOutcome, second: ValueOutcome|
            {
                &&& #[trigger] value_exchange(fill, initial_buf_size, max_buf_size, first, second)
                &&& grown_result::<T>(r, first, second, initial_buf_size, max_buf_size, kind)
            },
{
    let capacity = match max_buf_size {
        Some(max) => if initial_buf_size <= max {
            initial_buf_size
        } else {
            max
        },
        None => initial_buf_size,
    };
    let first = fill(capacity);
    let ghost first_seen = first;
    if first.status.code == STATUS_OK {
        let r = settle_value::<T>(first, capacity, kind);
        assert(value_exchange(fill, initial_buf_size, max_buf_size, first_seen, first_seen));
        assert(grown_result::<T>(r, first_seen, first_seen, initial_buf_size, max_buf_size, kind));
        return r;
    }
    let needed = first.nwritten;
    match max_buf_size {
        Some(max) => {
            if needed > max {
                let r = Err(BufferSizeError::new(max, needed, kind));
                assert(value_exchange(
                    fill,
                    initial_buf_size,
                    max_buf_size,
                    first_seen,
                    first_seen,
                ));
                assert(grown_result::<T>(
                    r,
                    first_seen,
                    first_seen,
                    initial_buf_size,
                    max_buf_size,
                    kind,
                ));
                return r;
            }
        },
        None => {},
    }
    let second = fill(needed);
    let ghost second_seen = second;
    let r = settle_value::<T>(second, needed, kind);
    assert(value_exchange(fill, initial_buf_size, max_buf_size, first_seen, second_seen));
    assert(grown_result::<T>(r, first_seen, second_seen, initial_buf_size, max_buf_size, kind));
    r
}

impl HostValue for Vec<u8> {
    open spec fn readable(bytes: Seq<u8>) -> bool {
        true
    }

    open spec fn reads_as(&self, bytes: Seq<u8>) -> bool {
        self@ == bytes
    }

    fn from_host_bytes(bytes: &[u8]) -> (v: Self) {
        copy_bytes(bytes)
    }
}

/// Whether a second call for a value is made after the outcome `first` of the first:
/// where the buffer was too small.
pub open spec fn sized_asks_again(first: ValueOutcome) -> bool {
    first.status.code == STATUS_BUFLEN
}

/// Whether `fill` serves a `T` whose size is asked for first: a call succeeds with a
/// value that fits and can be read, says that there is no value, or says how large a
/// buffer is needed; and a call that offers the size asked for succeeds.
pub open spec fn sized_served<T: HostValue, F: Fn(usize) -> ValueOutcome>(fill: F) -> bool {
    &&& forall|capacity: usize| call_requires(fill, (capacity,))
    &&& forall|capacity: usize, o: ValueOutcome| #[trigger]
        call_ensures(fill, (capacity,), o) ==> {
            &&& o.status.code == STATUS_OK || o.status.code == STATUS_NONE || o.status.code
                == STATUS_BUFLEN
            &&& o.status.code == STATUS_OK ==> o.nwritten <= capacity && o.data@.len()
                == o.nwritten && T::readable(o.data@)
        }
    &&& forall|capacity: usize, first: ValueOutcome, second: ValueOutcome|
        (#[trigger] call_ensures(fill, (capacity,), first) && sized_asks_again(first)
            && #[trigger] call_ensures(fill, (first.nwritten,), second)) ==> second.status.code
            == STATUS_OK
}

/// Whether `first` is what `fill` brought back to a first call that offered `initial`
/// bytes and `second` what it brought back to the second, where one was made.
pub open spec fn sized_exchange<F: Fn(usize) -> ValueOutcome>(
    fill: F,
    initial: usize,
    first: ValueOutcome,
    second: ValueOutcome,
) -> bool {
    &&& call_ensures(fill, (initial,), first)
    &&& if sized_asks_again(first) {
        call_ensures(fill, (first.nwritten,), second)
    } else {
        second == first
    }
}

/// Whether `r` is what the outcome `last` of the last call means: the value on
/// success, none where the host has none.
pub open spec fn sized_result<T: HostValue>(r: Option<T>, last: ValueOutcome) -> bool {
    match r {
        Some(v) => last.status.code == STATUS_OK && v.reads_as(last.data@),
        None => last.status.code == STATUS_NONE,
    }
}

/// Reads a value whose size the host tells first: a call that offers `initial` bytes
/// brings the value, says that there is none, or says how large a buffer is needed;
/// then a second call offers exactly that.
pub fn read_sized<T: HostValue, F: Fn(usize) -> ValueOutcome>(initial: usize, fill: F) -> (r:
    Option<T>)
    requires
        sized_served::<T, F>(fill),
    ensures
        exists|first: ValueOutcome, second: ValueOutcome|
            {
                &&& #[trigger] sized_exchange(fill, initial, first, second)
                &&& sized_result::<T>(r, second)
            },
{
    let first = fill(initial);
    let ghost first_seen = first;
    let last = if first.status.code == STATUS_BUFLEN {
        fill(first.nwritten)
    } else {
        first
    };
    let ghost last_seen = last;
    let r = if last.status.code == STATUS_OK {
        Some(T::from_host_bytes(last.data.as_slice()))
    } else {
        None
    };
    assert(sized_exchange(fill, initial, first_seen, last_seen));
    r
}

} // verus!
