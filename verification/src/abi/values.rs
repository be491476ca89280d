//! Reading a whole list out of the host, each element as a typed value.

use crate::abi::{
    complete, fill_conforms, fill_exchange, first_terminator, follows, lemma_first_terminator,
    lemma_follows_extend,
    steps_to, FillOutcome, FillVerdict, MultiValueHostcall, MultiValueHostcallError, SessionView,
    Yield,
};
use crate::byte_buf::bytes_as_slice;
use crate::error::{BufferKind, BufferSizeError};
use crate::http::header::{
    lowercased, valid_header_name, valid_header_value, HeaderName, HeaderValue,
};
use crate::shared::{STATUS_BUFLEN, STATUS_OK};
use crate::text::str_from_utf8;
use vstd::prelude::*;
use vstd::utf8::{decode_utf8, valid_utf8};

verus! {

/// A value that is read from the bytes of one element of a list.
pub trait HostValue: Sized {
    /// Whether the bytes can be read as a value.
    spec fn readable(bytes: Seq<u8>) -> bool;

    /// Whether the value is what the bytes are read as.
    spec fn reads_as(&self, bytes: Seq<u8>) -> bool;

    /// Reads a value.
    fn from_host_bytes(bytes: &[u8]) -> (v: Self)
        requires
            Self::readable(bytes@),
        ensures
            v.reads_as(bytes@),
    ;
}

impl HostValue for HeaderName {
    open spec fn readable(bytes: Seq<u8>) -> bool {
        valid_header_name(bytes)
    }

    open spec fn reads_as(&self, bytes: Seq<u8>) -> bool {
        self@ == lowercased(bytes)
    }

    fn from_host_bytes(bytes: &[u8]) -> (v: Self) {
        match HeaderName::from_bytes(bytes) {
            Ok(name) => name,
            Err(_) => vstd::pervasive::unreached(),
        }
    }
}

impl HostValue for HeaderValue {
    open spec fn readable(bytes: Seq<u8>) -> bool {
        valid_header_value(bytes)
    }

    open spec fn reads_as(&self, bytes: Seq<u8>) -> bool {
        self@ == bytes
    }

    fn from_host_bytes(bytes: &[u8]) -> (v: Self) {
        match HeaderValue::from_bytes(bytes) {
            Ok(value) => value,
            Err(_) => vstd::pervasive::unreached(),
        }
    }
}

impl HostValue for String {
    open spec fn readable(bytes: Seq<u8>) -> bool {
        valid_utf8(bytes)
    }

    open spec fn reads_as(&self, bytes: Seq<u8>) -> bool {
        self@ == decode_utf8(bytes)
    }

    fn from_host_bytes(bytes: &[u8]) -> (v: Self) {
        match str_from_utf8(bytes) {
            Some(s) => s.to_owned(),
            None => vstd::pervasive::unreached(),
        }
    }
}

/// Whether every element of a batch can be read as a `T`: every run of bytes that
/// starts the batch or follows a terminator, holds none, and is followed by one.
pub open spec fn elements_readable<T: HostValue>(bytes: Seq<u8>, term: u8) -> bool {
    forall|i: int, j: int|
        #![trigger bytes.subrange(i, j)]
        0 <= i <= j < bytes.len() && (i == 0 || bytes[i - 1] == term) && bytes[j] == term && (
        forall|k: int| i <= k < j ==> bytes[k] != term) ==> T::readable(bytes.subrange(i, j))
}

/// Whether `fill` serves a list of `T`: it fails with no status but "buffer too
/// small", and every element of every batch that it brings can be read as a `T`.
pub open spec fn fill_serves<T: HostValue, F: Fn(usize, u32) -> FillOutcome>(
    fill: F,
    term: u8,
) -> bool {
    forall|capacity: usize, cursor: u32, o: FillOutcome| #[trigger]
        call_ensures(fill, (capacity, cursor), o) ==> {
            &&& o.status.code == STATUS_OK || o.status.code == STATUS_BUFLEN
            &&& o.status.code == STATUS_OK ==> elements_readable::<T>(o.data@, term)
        }
}

/// Whether `result` is the value that the element `y` is read as.
pub open spec fn value_read<T: HostValue>(result: Result<T, BufferSizeError>, y: Yield) -> bool {
    match (result, y) {
        (Ok(v), Yield::Element(e)) => v.reads_as(e),
        _ => false,
    }
}

/// Whether `results` is what reading makes of the yields `ys` of a session: a value
/// for each element, and for an error at the end the size error that names the
/// session's maximum as the size offered.
pub open spec fn read_result<T: HostValue>(
    results: Seq<Result<T, BufferSizeError>>,
    ys: Seq<Yield>,
    max_buf_size: Option<usize>,
    kind: BufferKind,
) -> bool {
    &&& forall|i: int|
        0 <= i < ys.len() - 1 ==> value_read(#[trigger] results[i], ys[i])
    &&& match ys.last() {
        Yield::End => results.len() == ys.len() - 1,
        Yield::Failure(MultiValueHostcallError::BufferTooSmall { needed_buf_size }) => {
            &&& results.len() == ys.len()
            &&& max_buf_size matches Some(max) && results.last() == Err::<T, BufferSizeError>(
                BufferSizeError { buf_size: max, needed_buf_size, buffer_kind: kind },
            )
        },
        _ => false,
    }
}

/// The first element of a batch whose elements are readable is readable, and so are
/// the elements behind it.
pub proof fn lemma_pop_readable<T: HostValue>(bytes: Seq<u8>, term: u8)
    requires
        elements_readable::<T>(bytes, term),
        bytes.len() > 0,
        bytes.last() == term,
    ensures
        T::readable(bytes.take(first_terminator(bytes, term))),
        elements_readable::<T>(bytes.skip(first_terminator(bytes, term) + 1), term),
{
    lemma_first_terminator(bytes, term);
    let k = first_terminator(bytes, term);
    assert(bytes.subrange(0, k) =~= bytes.take(k));
    let rest = bytes.skip(k + 1);
    assert forall|i: int, j: int|
        #![trigger rest.subrange(i, j)]
        0 <= i <= j < rest.len() && (i == 0 || rest[i - 1] == term) && rest[j] == term && (forall|
            m: int,
        |
            i <= m < j ==> rest[m] != term) implies T::readable(rest.subrange(i, j)) by {
        let a = i + k + 1;
        let b = j + k + 1;
        assert(rest.subrange(i, j) =~= bytes.subrange(a, b));
        assert(bytes[b] == rest[j]);
        if i > 0 {
            assert(bytes[a - 1] == rest[i - 1]);
        }
        assert forall|m: int| a <= m < b implies bytes[m] != term by {
            assert(bytes[m] == rest[m - k - 1]);
        }
    }
}

/// One step of a session against a fill function that serves a list of `T`: an element
/// that it yields is readable, what stays pending is readable, and an error that it
/// yields is a size error of a session with a maximum.
pub proof fn lemma_step_readable<T: HostValue, F: Fn(usize, u32) -> FillOutcome>(
    fill: F,
    before: SessionView,
    after: SessionView,
    y: Yield,
)
    requires
        before.wf(),
        fill_conforms(fill, before.term),
        fill_serves::<T, F>(fill, before.term),
        elements_readable::<T>(before.pending, before.term),
        steps_to(fill, before, after, y),
    ensures
        elements_readable::<T>(after.pending, before.term),
        y matches Yield::Element(e) ==> T::readable(e),
        y matches Yield::Failure(err) ==> err is BufferTooSmall && before.max_capacity is Some,
{
    let term = before.term;
    if before.needs_fill() {
        let (first, retry) = choose|first: FillOutcome, retry: FillOutcome|
            {
                &&& #[trigger] fill_exchange(fill, before, first, retry)
                &&& (after, y) == before.step_filled(first@, retry@)
            };
        let retried = before.verdict(first@, false) == FillVerdict::Retry;
        let mid = if retried {
            before.absorbed(first@, false)
        } else {
            before
        };
        let settled = if retried {
            retry
        } else {
            first
        };
        assert(call_ensures(fill, (mid.capacity, before.cursor), settled));
        assert(call_ensures(fill, (before.capacity, before.cursor), first));
        if mid.verdict(settled@, retried) == FillVerdict::Loaded {
            assert(settled@.conforms(term, mid.capacity, before.cursor));
            lemma_pop_readable::<T>(settled@.data, term);
        }
    } else if before.pending.len() > 0 {
        lemma_pop_readable::<T>(before.pending, term);
    }
}

/// Reads a whole list out of the host: drives a session with `fill` to its end and
/// reads every element as a `T`. Where the host needs a buffer larger than
/// `max_buf_size`, the list ends with a size error of the given kind.
pub fn read_values<T: HostValue, F: Fn(usize, u32) -> FillOutcome>(
    term: u8,
    initial_buf_size: usize,
    max_buf_size: Option<usize>,
    kind: BufferKind,
    fill: F,
) -> (results: Vec<Result<T, BufferSizeError>>)
    requires
        fill_conforms(fill, term),
        fill_serves::<T, F>(fill, term),
    ensures
        exists|states: Seq<SessionView>, ys: Seq<Yield>|
            {
                &&& #[trigger] follows(fill, states, ys)
                &&& states[0] == SessionView::fresh(term, initial_buf_size, max_buf_size)
                &&& complete(ys)
                &&& read_result::<T>(results@, ys, max_buf_size, kind)
            },
{
    let mut session = MultiValueHostcall::new(term, initial_buf_size, max_buf_size, fill);
    let mut results: Vec<Result<T, BufferSizeError>> = Vec::new();
    let ghost start = session@;
    let ghost mut trace: Seq<Yield> = Seq::empty();
    let ghost mut states: Seq<SessionView> = seq![start];
    loop
        invariant
            session.wf(),
            session.fill_fn() == fill,
            session@.term == term,
            session@.max_capacity == max_buf_size,
            fill_conforms(fill, term),
            fill_serves::<T, F>(fill, term),
            start == SessionView::fresh(term, initial_buf_size, max_buf_size),
            follows(fill, states, trace),
            states[0] == start,
            states.last() == session@,
            elements_readable::<T>(session@.pending, term),
            results.len() == trace.len(),
            forall|i: int|
                0 <= i < trace.len() ==> value_read(#[trigger] results[i], trace[i]),
        decreases session@.distance().0, session@.distance().1,
    {
        let ghost before = session@;
        let next = session.next();
        let ghost y = crate::abi::yield_of(next);
        let ghost longer = trace.push(y);
        let ghost further = states.push(session@);
        proof {
            lemma_step_readable::<T, F>(fill, before, session@, y);
            lemma_follows_extend(fill, states, trace, session@, y);
            assert forall|i: int| 0 <= i < longer.len() - 1 implies #[trigger] longer[i]
                is Element && value_read(results[i], longer[i]) by {
                assert(value_read(results[i], trace[i]));
            }
        }
        match next {
            None => {
                proof {
                    assert(complete(longer));
                    assert(read_result::<T>(results@, longer, max_buf_size, kind));
                    assert(follows(fill, further, longer));
                    assert(further[0] == start);
                }
                return results;
            },
            Some(Ok(elt)) => {
                let value = T::from_host_bytes(bytes_as_slice(&elt));
                results.push(Ok(value));
                proof {
                    trace = longer;
                    states = further;
                }
            },
            Some(Err(e)) => {
                match (e, max_buf_size) {
                    (MultiValueHostcallError::BufferTooSmall { needed_buf_size }, Some(max)) => {
                        results.push(Err(BufferSizeError::new(max, needed_buf_size, kind)));
                    },
                    _ => {
                        return vstd::pervasive::unreached();
                    },
                }
                proof {
                    assert(complete(longer));
                    assert(read_result::<T>(results@, longer, max_buf_size, kind));
                    assert(follows(fill, further, longer));
                    assert(further[0] == start);
                }
                return results;
            },
        }
    }
}

} // verus!
