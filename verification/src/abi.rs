//! Reading a list of values out of the host through a buffer of bounded size.
//!
//! The host hands out lists (header names, the values of one header) in batches. Each
//! batch is a run of elements, every one followed by a terminator byte. A call offers
//! the host a capacity and a cursor; the host answers with a batch and the cursor to
//! continue from, or says how large a buffer it needs. [`MultiValueHostcall`] drives
//! such calls and hands the elements out one at a time.

use crate::byte_buf::{
    bytes_contents, bytes_mut_advance, bytes_mut_as_slice, bytes_mut_contents,
    bytes_mut_from_slice,
};
use crate::shared::{FastlyStatus, STATUS_BUFLEN, STATUS_OK};
use bytes::{Bytes, BytesMut};
use vstd::prelude::*;

pub mod laws;
pub mod packing;
pub mod single;
pub mod values;

verus! {

/// What one call of a fill function brought back.
pub struct FillOutcome {
    /// The status of the call.
    pub status: FastlyStatus,
    /// The bytes that the host wrote; read on success only.
    pub data: Vec<u8>,
    /// Where the next call continues; negative when no further call is needed.
    pub ending_cursor: i64,
    /// The number of bytes written or, with the status "buffer too small", the
    /// capacity that would have been enough.
    pub nwritten: usize,
}

/// A [`FillOutcome`] as plain values.
pub struct FillView {
    pub status: i32,
    pub data: Seq<u8>,
    pub ending_cursor: i64,
    pub nwritten: usize,
}

impl View for FillOutcome {
    type V = FillView;

    open spec fn view(&self) -> FillView {
        FillView {
            status: self.status.code,
            data: self.data@,
            ending_cursor: self.ending_cursor,
            nwritten: self.nwritten,
        }
    }
}

impl FillView {
    /// Whether the outcome keeps to the rules of the exchange, for a call that offered
    /// `capacity` bytes at `cursor`: a successful call wrote no more than was offered,
    /// what it wrote ends with the terminator, and its cursor moved forward; a call
    /// that found the buffer too small asks for more than was offered, or reports the
    /// size zero, which stands for "no data at all".
    pub open spec fn conforms(self, term: u8, capacity: usize, cursor: u32) -> bool {
        &&& self.status == STATUS_OK ==> {
            &&& self.nwritten <= capacity
            &&& self.data.len() == self.nwritten
            &&& self.nwritten > 0 ==> self.data.last() == term
            &&& self.nwritten > 0 && self.ending_cursor >= 0 ==> cursor < self.ending_cursor
                <= u32::MAX
        }
        &&& self.status == STATUS_BUFLEN ==> self.nwritten == 0 || self.nwritten > capacity
    }
}

impl FillOutcome {
    /// Tests [`FillView::conforms`].
    pub fn conforms(&self, term: u8, capacity: usize, cursor: u32) -> (r: bool)
        ensures
            r == self@.conforms(term, capacity, cursor),
    {
        if self.status.code == STATUS_BUFLEN {
            return self.nwritten == 0 || self.nwritten > capacity;
        }
        if self.status.code != STATUS_OK {
            return true;
        }
        if self.nwritten > capacity || self.data.len() != self.nwritten {
            return false;
        }
        if self.nwritten == 0 {
            return true;
        }
        if self.data[self.nwritten - 1] != term {
            return false;
        }
        self.ending_cursor < 0 || (cursor as i64) < self.ending_cursor && self.ending_cursor
            <= 0xffff_ffff
    }
}

/// Why a [`MultiValueHostcall`] stopped.
#[derive(Clone, Copy, Debug, PartialEq, Eq, Structural)]
pub enum MultiValueHostcallError {
    /// The host needs a buffer larger than the session may offer.
    BufferTooSmall { needed_buf_size: usize },
    /// The fill function failed with this status.
    ClosureError(FastlyStatus),
}

/// What a session makes of one fill outcome.
#[derive(Clone, Copy, Debug, PartialEq, Eq, Structural)]
pub enum FillVerdict {
    /// A batch was taken into the buffer.
    Loaded,
    /// The capacity was raised; the call is to be made once more.
    Retry,
    /// The session is over, with or without an error.
    Stop(Option<MultiValueHostcallError>),
}

/// What one step of a session yields.
pub enum Yield {
    /// The next element, without its terminator.
    Element(Seq<u8>),
    /// An error; the session is over.
    Failure(MultiValueHostcallError),
    /// Nothing more.
    End,
}

/// The state of a session as plain values.
pub struct SessionView {
    /// The byte that ends every element.
    pub term: u8,
    /// The bytes of the current batch that were not handed out yet.
    pub pending: Seq<u8>,
    /// The capacity that the next call offers.
    pub capacity: usize,
    /// The capacity that no call may exceed, if there is one.
    pub max_capacity: Option<usize>,
    /// Where the next call continues.
    pub cursor: u32,
    /// Whether the host has nothing more to say.
    pub finished: bool,
}

/// The position of the first `term` in `bytes`, or the length of `bytes` if there is none.
pub open spec fn first_terminator(bytes: Seq<u8>, term: u8) -> int
    decreases bytes.len(),
{
    if bytes.len() == 0 || bytes[0] == term {
        0
    } else {
        1 + first_terminator(bytes.skip(1), term)
    }
}

impl SessionView {
    /// The state of a new session.
    pub open spec fn fresh(term: u8, initial_capacity: usize, max_capacity: Option<usize>) -> Self {
        SessionView {
            term,
            pending: Seq::empty(),
            capacity: match max_capacity {
                Some(max) => if initial_capacity <= max {
                    initial_capacity
                } else {
                    max
                },
                None => initial_capacity,
            },
            max_capacity,
            cursor: 0,
            finished: false,
        }
    }

    /// What holds of every session: pending bytes end with the terminator, and the
    /// capacity keeps below the maximum.
    pub open spec fn wf(self) -> bool {
        &&& self.pending.len() > 0 ==> self.pending.last() == self.term
        &&& self.max_capacity matches Some(max) ==> self.capacity <= max
    }

    /// Whether the next step has to ask the host.
    pub open spec fn needs_fill(self) -> bool {
        self.pending.len() == 0 && !self.finished
    }

    /// Whether the capacity may be raised to `needed`.
    pub open spec fn can_grow_to(self, needed: usize) -> bool {
        match self.max_capacity {
            Some(max) => needed <= max,
            None => true,
        }
    }

    /// The first pending element.
    pub open spec fn head(self) -> Seq<u8> {
        self.pending.take(first_terminator(self.pending, self.term))
    }

    /// The state after the first pending element and its terminator are gone.
    pub open spec fn popped(self) -> Self {
        SessionView {
            pending: self.pending.skip(first_terminator(self.pending, self.term) + 1),
            ..self
        }
    }

    /// What the session makes of an outcome; `retried` says that the call was the
    /// second one, made after the capacity was raised.
    pub open spec fn verdict(self, o: FillView, retried: bool) -> FillVerdict {
        if o.status == STATUS_BUFLEN && !retried {
            if o.nwritten == 0 {
                FillVerdict::Stop(None)
            } else if self.can_grow_to(o.nwritten) {
                FillVerdict::Retry
            } else {
                FillVerdict::Stop(
                    Some(MultiValueHostcallError::BufferTooSmall { needed_buf_size: o.nwritten }),
                )
            }
        } else if o.status != STATUS_OK {
            FillVerdict::Stop(
                Some(MultiValueHostcallError::ClosureError(FastlyStatus { code: o.status })),
            )
        } else if o.nwritten == 0 {
            FillVerdict::Stop(None)
        } else {
            FillVerdict::Loaded
        }
    }

    /// The state after an outcome was taken in.
    pub open spec fn absorbed(self, o: FillView, retried: bool) -> Self {
        match self.verdict(o, retried) {
            FillVerdict::Loaded => SessionView {
                pending: o.data,
                cursor: if o.ending_cursor < 0 {
                    self.cursor
                } else {
                    o.ending_cursor as u32
                },
                finished: o.ending_cursor < 0,
                ..self
            },
            FillVerdict::Retry => SessionView { capacity: o.nwritten, ..self },
            FillVerdict::Stop(_) => SessionView { finished: true, ..self },
        }
    }

    /// State and yield of a step that made do with the outcome `o`.
    pub open spec fn concluded(self, o: FillView, retried: bool) -> (Self, Yield) {
        let next = self.absorbed(o, retried);
        match self.verdict(o, retried) {
            FillVerdict::Loaded => (next.popped(), Yield::Element(next.head())),
            FillVerdict::Retry => (next, Yield::End),
            FillVerdict::Stop(None) => (next, Yield::End),
            FillVerdict::Stop(Some(e)) => (next, Yield::Failure(e)),
        }
    }

    /// How far the session is from its end: a step that yields an element lowers this
    /// pair in the lexicographic order.
    pub open spec fn distance(self) -> (int, int) {
        (
            if self.finished {
                0
            } else {
                u32::MAX - self.cursor + 1
            },
            self.pending.len() as int,
        )
    }

    /// Whether the session is nearer to its end than `before` was.
    pub open spec fn nearer_than(self, before: Self) -> bool {
        let d = before.distance();
        let e = self.distance();
        e.0 < d.0 || (e.0 == d.0 && e.1 < d.1)
    }

    /// State and yield of a step that needs no call: the next pending element, or the
    /// end once the session is finished.
    pub open spec fn step_local(self) -> (Self, Yield) {
        if self.pending.len() > 0 {
            (self.popped(), Yield::Element(self.head()))
        } else {
            (self, Yield::End)
        }
    }

    /// State and yield of a step that asked the host: `first` is what the call brought,
    /// `retry` what the second call brought, where one was made.
    pub open spec fn step_filled(self, first: FillView, retry: FillView) -> (Self, Yield) {
        if self.verdict(first, false) == FillVerdict::Retry {
            self.absorbed(first, false).concluded(retry, true)
        } else {
            self.concluded(first, false)
        }
    }
}

/// The yield that a result of [`MultiValueHostcall::next`] stands for.
pub open spec fn yield_of(r: Option<Result<Bytes, MultiValueHostcallError>>) -> Yield {
    match r {
        None => Yield::End,
        Some(Ok(elt)) => Yield::Element(bytes_contents(elt)),
        Some(Err(e)) => Yield::Failure(e),
    }
}

/// Whether every outcome of `fill` keeps to the rules of the exchange: each conforms to
/// the call that brought it, and a call that offers exactly the capacity that an
/// earlier one asked for is not again answered with "buffer too small". An earlier
/// answer with the size zero asked for nothing.
pub open spec fn fill_conforms<F: Fn(usize, u32) -> FillOutcome>(fill: F, term: u8) -> bool {
    &&& forall|capacity: usize, cursor: u32| call_requires(fill, (capacity, cursor))
    &&& forall|capacity: usize, cursor: u32, o: FillOutcome| #[trigger]
        call_ensures(fill, (capacity, cursor), o) ==> o@.conforms(term, capacity, cursor)
    &&& forall|capacity: usize, cursor: u32, first: FillOutcome, retry: FillOutcome|
        (#[trigger] call_ensures(fill, (capacity, cursor), first) && first.status.code
            == STATUS_BUFLEN && first.nwritten > 0 && #[trigger] call_ensures(
            fill,
            (first.nwritten, cursor),
            retry,
        )) ==> retry.status.code != STATUS_BUFLEN
}

/// Whether `first` is what `fill` brought back when the session in state `s` called it,
/// and `retry` what the second call brought: that call is made where the session
/// raises its capacity, and else `retry` stands for `first` again.
pub open spec fn fill_exchange<F: Fn(usize, u32) -> FillOutcome>(
    fill: F,
    s: SessionView,
    first: FillOutcome,
    retry: FillOutcome,
) -> bool {
    &&& call_ensures(fill, (s.capacity, s.cursor), first)
    &&& if s.verdict(first@, false) == FillVerdict::Retry {
        call_ensures(fill, (first.nwritten, s.cursor), retry)
    } else {
        retry == first
    }
}

/// Whether one step can take a session from the state `s` to the state `next` and
/// yield `y`, given what `fill` may bring back.
pub open spec fn steps_to<F: Fn(usize, u32) -> FillOutcome>(
    fill: F,
    s: SessionView,
    next: SessionView,
    y: Yield,
) -> bool {
    if s.needs_fill() {
        exists|first: FillOutcome, retry: FillOutcome|
            {
                &&& #[trigger] fill_exchange(fill, s, first, retry)
                &&& (next, y) == s.step_filled(first@, retry@)
            }
    } else {
        (next, y) == s.step_local()
    }
}

/// Whether a session can go through the states `states` and yield `ys` on the way:
/// each step leads from one state to the next and yields one of `ys`.
pub open spec fn follows<F: Fn(usize, u32) -> FillOutcome>(
    fill: F,
    states: Seq<SessionView>,
    ys: Seq<Yield>,
) -> bool {
    &&& states.len() == ys.len() + 1
    &&& forall|i: int|
        #![trigger ys[i]]
        0 <= i < ys.len() ==> steps_to(fill, states[i], states[i + 1], ys[i])
}

/// A way that a session can go is extended by one step.
pub proof fn lemma_follows_extend<F: Fn(usize, u32) -> FillOutcome>(
    fill: F,
    states: Seq<SessionView>,
    ys: Seq<Yield>,
    end: SessionView,
    y: Yield,
)
    requires
        follows(fill, states, ys),
        steps_to(fill, states.last(), end, y),
    ensures
        follows(fill, states.push(end), ys.push(y)),
{
    let longer = ys.push(y);
    let further = states.push(end);
    assert forall|i: int| #![trigger longer[i]] 0 <= i < longer.len() implies steps_to(
        fill,
        further[i],
        further[i + 1],
        longer[i],
    ) by {
        if i < ys.len() {
            assert(steps_to(fill, states[i], states[i + 1], ys[i]));
        }
    }
}

/// Whether `ys` is all that a session yields: elements, and then once the end or an
/// error.
pub open spec fn complete(ys: Seq<Yield>) -> bool {
    &&& ys.len() > 0
    &&& !(ys.last() is Element)
    &&& forall|i: int| 0 <= i < ys.len() - 1 ==> #[trigger] ys[i] is Element
}

/// A session that reads one list out of the host.
pub struct MultiValueHostcall<F> {
    fill_buf: F,
    term: u8,
    buf: BytesMut,
    buf_size: usize,
    max_buf_size: Option<usize>,
    cursor: u32,
    is_done: bool,
}

impl<F> View for MultiValueHostcall<F> {
    type V = SessionView;

    closed spec fn view(&self) -> SessionView {
        SessionView {
            term: self.term,
            pending: bytes_mut_contents(self.buf),
            capacity: self.buf_size,
            max_capacity: self.max_buf_size,
            cursor: self.cursor,
            finished: self.is_done,
        }
    }
}

/// From the first terminator on, `bytes` is cut where [`first_terminator`] says.
pub proof fn lemma_first_terminator(bytes: Seq<u8>, term: u8)
    ensures
        0 <= first_terminator(bytes, term) <= bytes.len(),
        first_terminator(bytes, term) < bytes.len() ==> bytes[first_terminator(bytes, term)]
            == term,
        forall|i: int| 0 <= i < first_terminator(bytes, term) ==> bytes[i] != term,
        bytes.len() > 0 && bytes.last() == term ==> first_terminator(bytes, term) < bytes.len(),
    decreases bytes.len(),
{
    if bytes.len() == 0 || bytes[0] == term {
    } else {
        let rest = bytes.skip(1);
        lemma_first_terminator(rest, term);
        assert forall|i: int| 0 <= i < first_terminator(bytes, term) implies bytes[i] != term by {
            if i > 0 {
                assert(rest[i - 1] == bytes[i]);
            }
        }
        if first_terminator(rest, term) < rest.len() {
            assert(rest[first_terminator(rest, term)] == bytes[first_terminator(bytes, term)]);
        }
        if bytes.last() == term {
            assert(rest.len() > 0);
            assert(rest.last() == bytes.last());
        }
    }
}

/// The position of the first terminator is the one position that holds the terminator
/// and has none before it.
pub proof fn lemma_first_terminator_is(bytes: Seq<u8>, term: u8, at: int)
    requires
        0 <= at < bytes.len(),
        bytes[at] == term,
        forall|i: int| 0 <= i < at ==> bytes[i] != term,
    ensures
        first_terminator(bytes, term) == at,
{
    lemma_first_terminator(bytes, term);
}

impl<F: Fn(usize, u32) -> FillOutcome> MultiValueHostcall<F> {
    /// What holds of every session.
    pub open spec fn wf(&self) -> bool {
        self@.wf()
    }

    /// The function that the session calls to fill its buffer.
    pub closed spec fn fill_fn(&self) -> F {
        self.fill_buf
    }

    /// A new session that splits at `term`, first offers `initial_buf_size` bytes (or
    /// `max_buf_size`, if that is less) and never offers more than `max_buf_size`.
    pub fn new(term: u8, initial_buf_size: usize, max_buf_size: Option<usize>, fill_buf: F) -> (s:
        Self)
        ensures
            s@ == SessionView::fresh(term, initial_buf_size, max_buf_size),
            s.fill_fn() == fill_buf,
            s.wf(),
    {
        let buf_size = match max_buf_size {
            Some(max) => if initial_buf_size <= max {
                initial_buf_size
            } else {
                max
            },
            None => initial_buf_size,
        };
        MultiValueHostcall {
            fill_buf,
            term,
            buf: BytesMut::new(),
            buf_size,
            max_buf_size,
            cursor: 0,
            is_done: false,
        }
    }

    /// Whether the next step has to ask the host.
    pub fn needs_fill(&self) -> (r: bool)
        ensures
            r == self@.needs_fill(),
    {
        self.buf.len() == 0 && !self.is_done
    }

    /// The capacity that the next call offers.
    pub fn capacity(&self) -> (r: usize)
        ensures
            r == self@.capacity,
    {
        self.buf_size
    }

    /// The cursor that the next call continues from.
    pub fn cursor(&self) -> (r: u32)
        ensures
            r == self@.cursor,
    {
        self.cursor
    }

    /// Takes in what a fill call brought back. `retried` says that the call was the
    /// second one, made after the capacity was raised.
    pub fn absorb(&mut self, outcome: FillOutcome, retried: bool) -> (v: FillVerdict)
        requires
            old(self).wf(),
            old(self)@.needs_fill(),
            outcome@.conforms(
                old(self)@.term,
                old(self)@.capacity,
                old(self)@.cursor,
            ),
            retried ==> outcome.status.code != STATUS_BUFLEN,
        ensures
            v == old(self)@.verdict(outcome@, retried),
            final(self)@ == old(self)@.absorbed(outcome@, retried),
            final(self)@.capacity >= old(self)@.capacity,
            final(self).fill_fn() == old(self).fill_fn(),
            final(self).wf(),
            v == FillVerdict::Loaded ==> final(self)@.pending.len() > 0,
            v != FillVerdict::Loaded ==> final(self)@.pending.len() == 0,
    {
        if outcome.status.code == STATUS_BUFLEN && !retried {
            if outcome.nwritten == 0 {
                self.is_done = true;
                return FillVerdict::Stop(None);
            }
            let can_grow = match self.max_buf_size {
                Some(max) => outcome.nwritten <= max,
                None => true,
            };
            if can_grow {
                self.buf_size = outcome.nwritten;
                return FillVerdict::Retry;
            }
            self.is_done = true;
            return FillVerdict::Stop(
                Some(
                    MultiValueHostcallError::BufferTooSmall { needed_buf_size: outcome.nwritten },
                ),
            );
        }
        if outcome.status.code != STATUS_OK {
            self.is_done = true;
            return FillVerdict::Stop(Some(MultiValueHostcallError::ClosureError(outcome.status)));
        }
        if outcome.nwritten == 0 {
            self.is_done = true;
            return FillVerdict::Stop(None);
        }
        self.buf = bytes_mut_from_slice(outcome.data.as_slice());
        if outcome.ending_cursor < 0 {
            self.is_done = true;
        } else {
            self.cursor = outcome.ending_cursor as u32;
        }
        FillVerdict::Loaded
    }

    /// Hands out the first pending element and drops its terminator.
    pub fn take_element(&mut self) -> (elt: Bytes)
        requires
            old(self).wf(),
            old(self)@.pending.len() > 0,
        ensures
            bytes_contents(elt) == old(self)@.head(),
            final(self)@ == old(self)@.popped(),
            final(self).fill_fn() == old(self).fill_fn(),
            final(self).wf(),
            final(self)@.pending.len() < old(self)@.pending.len(),
    {
        let ghost pending = self@.pending;
        proof {
            lemma_first_terminator(pending, self.term);
        }
        let bytes = bytes_mut_as_slice(&self.buf);
        let mut ix: usize = 0;
        while bytes[ix] != self.term
            invariant
                bytes@ == pending,
                0 <= ix < pending.len(),
                pending.last() == self.term,
                forall|i: int| 0 <= i < ix ==> pending[i] != self.term,
            decreases pending.len() - ix,
        {
            ix = ix + 1;
        }
        proof {
            lemma_first_terminator_is(pending, self.term, ix as int);
        }
        let elt = self.buf.split_to(ix);
        bytes_mut_advance(&mut self.buf, 1);
        proof {
            assert(bytes_mut_contents(self.buf) =~= pending.skip(ix + 1));
            if pending.skip(ix + 1).len() > 0 {
                assert(pending.skip(ix + 1).last() == pending.last());
            }
        }
        elt.freeze()
    }

    /// The next element of the list, an error, or `None` at its end.
    ///
    /// A step that finds bytes pending hands out the first element. A step that finds
    /// none and the session unfinished calls the fill function with the session's
    /// capacity and cursor, once more with a raised capacity where the host asks for
    /// one that is allowed, and goes by what came back.
    ///
    /// The fill function has to keep to the rules of the exchange ([`fill_conforms`]).
    /// An answer that breaks them shows that host and guest disagree on the interface;
    /// no error value stands for that, so the caller of the host has to stop there.
    pub fn next(&mut self) -> (r: Option<Result<Bytes, MultiValueHostcallError>>)
        requires
            old(self).wf(),
            fill_conforms(old(self).fill_fn(), old(self)@.term),
        ensures
            final(self).wf(),
            final(self).fill_fn() == old(self).fill_fn(),
            old(self)@.term == final(self)@.term,
            old(self)@.max_capacity == final(self)@.max_capacity,
            steps_to(old(self).fill_fn(), old(self)@, final(self)@, yield_of(r)),
            final(self)@.capacity >= old(self)@.capacity,
            r matches Some(Ok(_)) ==> final(self)@.nearer_than(old(self)@),
            !(r matches Some(Ok(_))) ==> final(self)@.finished && final(self)@.pending.len() == 0,
    {
        if self.buf.len() > 0 {
            let elt = self.take_element();
            return Some(Ok(elt));
        }
        if self.is_done {
            return None;
        }
        let ghost before = self@;
        let first = (self.fill_buf)(self.buf_size, self.cursor);
        let ghost first_seen = first;
        let verdict = self.absorb(first, false);
        match verdict {
            FillVerdict::Loaded => {
                let elt = self.take_element();
                proof {
                    assert(fill_exchange(self.fill_fn(), before, first_seen, first_seen));
                }
                Some(Ok(elt))
            },
            FillVerdict::Stop(None) => {
                proof {
                    assert(fill_exchange(self.fill_fn(), before, first_seen, first_seen));
                }
                None
            },
            FillVerdict::Stop(Some(e)) => {
                proof {
                    assert(fill_exchange(self.fill_fn(), before, first_seen, first_seen));
                }
                Some(Err(e))
            },
            FillVerdict::Retry => {
                let retry = (self.fill_buf)(self.buf_size, self.cursor);
                let ghost retry_seen = retry;
                proof {
                    assert(fill_exchange(self.fill_fn(), before, first_seen, retry_seen));
                }
                match self.absorb(retry, true) {
                    FillVerdict::Loaded => {
                        let elt = self.take_element();
                        Some(Ok(elt))
                    },
                    FillVerdict::Stop(None) => None,
                    FillVerdict::Stop(Some(e)) => Some(Err(e)),
                    FillVerdict::Retry => None,
                }
            },
        }
    }
}

} // verus!
