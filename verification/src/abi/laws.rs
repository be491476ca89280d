//! What holds of a session over many steps.
//!
//! A source is modelled as a function from what a call offers (capacity and cursor) to
//! what it brings back. [`SessionView::step`] is one step of a session against such a
//! source, [`SessionView::run`] the yields of a number of steps.

use crate::abi::{
    complete, fill_exchange, first_terminator, follows, lemma_first_terminator_is, steps_to,
    FillOutcome, FillVerdict, FillView, MultiValueHostcallError, SessionView, Yield,
};
use crate::shared::{STATUS_BUFLEN, STATUS_OK};
use vstd::prelude::*;

verus! {

/// One fill of a session, as it shows in a log.
pub struct FillRecord {
    /// The cursor that the call offered.
    pub cursor: u32,
    /// Whether the call brought a batch.
    pub loaded: bool,
    /// The cursor that the call brought back.
    pub ending_cursor: i64,
}

impl SessionView {
    /// The outcome that settles a step which asks `source`: that of the second call
    /// where the capacity is raised, else that of the first.
    pub open spec fn settling(self, source: spec_fn(usize, u32) -> FillView) -> FillView {
        let first = source(self.capacity, self.cursor);
        if self.verdict(first, false) == FillVerdict::Retry {
            source(first.nwritten, self.cursor)
        } else {
            first
        }
    }

    /// State and yield of one step against `source`.
    pub open spec fn step(self, source: spec_fn(usize, u32) -> FillView) -> (Self, Yield) {
        if self.needs_fill() {
            self.step_filled(source(self.capacity, self.cursor), self.settling(source))
        } else {
            self.step_local()
        }
    }

    /// The yields of `n` steps against `source`.
    pub open spec fn run(self, source: spec_fn(usize, u32) -> FillView, n: nat) -> Seq<Yield>
        decreases n,
    {
        if n == 0 {
            Seq::empty()
        } else {
            seq![self.step(source).1] + self.step(source).0.run(source, (n - 1) as nat)
        }
    }

    /// The fills that `n` steps against `source` make, in order.
    pub open spec fn fill_log(self, source: spec_fn(usize, u32) -> FillView, n: nat) -> Seq<
        FillRecord,
    >
        decreases n,
    {
        if n == 0 {
            Seq::empty()
        } else if self.needs_fill() {
            let settled = self.settling(source);
            let was_retry = self.verdict(source(self.capacity, self.cursor), false)
                == FillVerdict::Retry;
            seq![
                FillRecord {
                    cursor: self.cursor,
                    loaded: self.verdict(settled, was_retry) == FillVerdict::Loaded,
                    ending_cursor: settled.ending_cursor,
                },
            ] + self.step(source).0.fill_log(source, (n - 1) as nat)
        } else {
            self.step(source).0.fill_log(source, (n - 1) as nat)
        }
    }

}

/// Whether every answer of `source` keeps to the rules of the exchange: each conforms
/// to the call that it answers, and a call that offers exactly the capacity that an
/// earlier answer asked for is not again answered with "buffer too small".
pub open spec fn source_conforms(source: spec_fn(usize, u32) -> FillView, term: u8) -> bool {
    &&& forall|capacity: usize, cursor: u32| #[trigger]
        source(capacity, cursor).conforms(term, capacity, cursor)
    &&& forall|capacity: usize, cursor: u32|
        (#[trigger] source(capacity, cursor)).status == STATUS_BUFLEN && source(
            capacity,
            cursor,
        ).nwritten > 0 ==> source(source(capacity, cursor).nwritten, cursor).status
            != STATUS_BUFLEN
}

/// The bytes of a batch: each element, followed by the terminator.
pub open spec fn encode(elements: Seq<Seq<u8>>, term: u8) -> Seq<u8>
    decreases elements.len(),
{
    if elements.len() == 0 {
        Seq::empty()
    } else {
        elements[0].push(term) + encode(elements.skip(1), term)
    }
}

/// Whether no element holds the terminator.
pub open spec fn term_free(elements: Seq<Seq<u8>>, term: u8) -> bool {
    forall|i: int, j: int|
        0 <= i < elements.len() && 0 <= j < elements[i].len() ==> elements[i][j] != term
}

/// The elements as yields.
pub open spec fn elements_yielded(elements: Seq<Seq<u8>>) -> Seq<Yield> {
    Seq::new(elements.len(), |i: int| Yield::Element(elements[i]))
}

/// The elements of the batches from `from` on, in order.
pub open spec fn elements_from(batches: Seq<Seq<Seq<u8>>>, from: int) -> Seq<Seq<u8>>
    decreases batches.len() - from,
{
    if from < 0 || from >= batches.len() {
        Seq::empty()
    } else {
        batches[from] + elements_from(batches, from + 1)
    }
}

/// Whether the batches are such as a host serves: at least one element in each, no
/// terminator inside an element, each batch of a size that a buffer can have, and no
/// more batches than cursors.
pub open spec fn servable(batches: Seq<Seq<Seq<u8>>>, term: u8) -> bool {
    &&& batches.len() < u32::MAX
    &&& forall|i: int|
        0 <= i < batches.len() ==> {
            &&& (#[trigger] batches[i]).len() > 0
            &&& term_free(batches[i], term)
            &&& encode(batches[i], term).len() <= usize::MAX
        }
}

/// A host that serves `batches`: batch `cursor` to a call that offers room for all of
/// it, the size of that batch to one that offers less, and nothing beyond the last.
pub open spec fn batch_source(batches: Seq<Seq<Seq<u8>>>, term: u8) -> spec_fn(usize, u32)
    -> FillView {
    |capacity: usize, cursor: u32|
        if cursor >= batches.len() {
            FillView { status: STATUS_OK, data: Seq::empty(), ending_cursor: -1i64, nwritten: 0 }
        } else if encode(batches[cursor as int], term).len() <= capacity {
            FillView {
                status: STATUS_OK,
                data: encode(batches[cursor as int], term),
                ending_cursor: if cursor + 1 < batches.len() {
                    (cursor + 1) as i64
                } else {
                    -1i64
                },
                nwritten: encode(batches[cursor as int], term).len() as usize,
            }
        } else {
            FillView {
                status: STATUS_BUFLEN,
                data: Seq::empty(),
                ending_cursor: 0,
                nwritten: encode(batches[cursor as int], term).len() as usize,
            }
        }
}

/// A batch is as long as its elements and their terminators, and ends with one.
pub proof fn lemma_encode_shape(elements: Seq<Seq<u8>>, term: u8)
    ensures
        encode(elements, term).len() >= elements.len(),
        elements.len() > 0 ==> encode(elements, term).last() == term,
    decreases elements.len(),
{
    if elements.len() > 0 {
        lemma_encode_shape(elements.skip(1), term);
        let head = elements[0].push(term);
        let rest = encode(elements.skip(1), term);
        if rest.len() == 0 {
            assert(head + rest =~= head);
        } else {
            assert((head + rest).last() == rest.last());
        }
    }
}

/// A batch starts with its first element and the terminator; the rest is the batch of
/// the other elements.
pub proof fn lemma_encode_head(elements: Seq<Seq<u8>>, term: u8)
    requires
        elements.len() > 0,
        term_free(elements, term),
    ensures
        first_terminator(encode(elements, term), term) == elements[0].len(),
        encode(elements, term).take(elements[0].len() as int) == elements[0],
        encode(elements, term).skip(elements[0].len() as int + 1) == encode(
            elements.skip(1),
            term,
        ),
        term_free(elements.skip(1), term),
{
    let bytes = encode(elements, term);
    let head = elements[0].push(term);
    let rest = encode(elements.skip(1), term);
    let k = elements[0].len() as int;
    assert(bytes == head + rest);
    assert(bytes[k] == head[k]);
    assert forall|i: int| 0 <= i < k implies bytes[i] != term by {
        assert(bytes[i] == elements[0][i]);
    }
    lemma_first_terminator_is(bytes, term, k);
    assert(bytes.take(k) =~= elements[0]);
    assert(bytes.skip(k + 1) =~= rest);
    assert forall|i: int, j: int|
        0 <= i < elements.skip(1).len() && 0 <= j < elements.skip(1)[i].len() implies elements.skip(
        1,
    )[i][j] != term by {
        assert(elements.skip(1)[i] == elements[i + 1]);
    }
}

/// A session that holds a batch yields its elements in order, one a step, without a
/// call, and is then left with nothing pending.
pub proof fn lemma_drain(
    s: SessionView,
    source: spec_fn(usize, u32) -> FillView,
    elements: Seq<Seq<u8>>,
    more: nat,
)
    requires
        s.pending == encode(elements, s.term),
        term_free(elements, s.term),
    ensures
        s.run(source, elements.len() + more) == elements_yielded(elements) + (SessionView {
            pending: Seq::empty(),
            ..s
        }).run(source, more),
    decreases elements.len(),
{
    let drained = SessionView { pending: Seq::empty(), ..s };
    if elements.len() == 0 {
        assert(s.pending =~= Seq::<u8>::empty());
        assert(s == drained);
        assert(elements_yielded(elements) + drained.run(source, more) =~= drained.run(
            source,
            more,
        ));
    } else {
        lemma_encode_head(elements, s.term);
        lemma_encode_shape(elements, s.term);
        let next = s.popped();
        assert(s.step(source) == (next, Yield::Element(elements[0])));
        lemma_drain(next, source, elements.skip(1), more);
        assert(SessionView { pending: Seq::empty(), ..next } == drained);
        let n = elements.len() + more;
        assert(s.run(source, n) == seq![Yield::Element(elements[0])] + next.run(
            source,
            (n - 1) as nat,
        ));
        assert((n - 1) as nat == elements.skip(1).len() + more);
        assert(seq![Yield::Element(elements[0])] + elements_yielded(elements.skip(1))
            =~= elements_yielded(elements));
        assert(s.run(source, n) =~= elements_yielded(elements) + drained.run(source, more));
    }
}

/// Once a session is finished and holds nothing, every step yields the end, and no
/// step calls the source.
pub proof fn lemma_finished_stays(s: SessionView, source: spec_fn(usize, u32) -> FillView, n: nat)
    requires
        s.finished,
        s.pending.len() == 0,
    ensures
        s.run(source, n).len() == n,
        forall|i: int| 0 <= i < n ==> s.run(source, n)[i] == Yield::End,
        s.fill_log(source, n) == Seq::<FillRecord>::empty(),
    decreases n,
{
    if n > 0 {
        assert(s.step(source) == (s, Yield::End));
        lemma_finished_stays(s, source, (n - 1) as nat);
    }
}

/// Round trip. A new session against a host that serves `batches`, none of them larger
/// than the session's maximum, yields every element of every batch, in the host's
/// order and as the host holds it, and then the end.
pub proof fn lemma_round_trip(
    term: u8,
    initial_capacity: usize,
    max_capacity: Option<usize>,
    batches: Seq<Seq<Seq<u8>>>,
)
    requires
        servable(batches, term),
        max_capacity matches Some(max) ==> forall|i: int|
            0 <= i < batches.len() ==> encode(#[trigger] batches[i], term).len() <= max,
    ensures
        SessionView::fresh(term, initial_capacity, max_capacity).run(
            batch_source(batches, term),
            elements_from(batches, 0).len() + 1,
        ) == elements_yielded(elements_from(batches, 0)).push(Yield::End),
{
    let s = SessionView::fresh(term, initial_capacity, max_capacity);
    let source = batch_source(batches, term);
    if batches.len() == 0 {
        assert(elements_from(batches, 0) =~= Seq::<Seq<u8>>::empty());
        let done = SessionView { finished: true, ..s };
        assert(s.step(source) == (done, Yield::End));
        assert(done.run(source, 0) =~= Seq::<Yield>::empty());
        assert(s.run(source, 1) =~= elements_yielded(elements_from(batches, 0)).push(Yield::End));
    } else {
        lemma_round_trip_from(s, batches, 0);
    }
}

/// The round trip from batch `from` on, for a session that is about to ask for it.
proof fn lemma_round_trip_from(s: SessionView, batches: Seq<Seq<Seq<u8>>>, from: int)
    requires
        servable(batches, s.term),
        s.max_capacity matches Some(max) ==> forall|i: int|
            0 <= i < batches.len() ==> encode(#[trigger] batches[i], s.term).len() <= max,
        s.wf(),
        s.needs_fill(),
        0 <= from < batches.len(),
        s.cursor == from,
    ensures
        s.run(batch_source(batches, s.term), elements_from(batches, from).len() + 1)
            == elements_yielded(elements_from(batches, from)).push(Yield::End),
    decreases batches.len() - from,
{
    let term = s.term;
    let source = batch_source(batches, term);
    let batch = batches[from];
    let data = encode(batch, term);
    let later = elements_from(batches, from + 1);
    lemma_encode_shape(batch, term);
    lemma_encode_head(batch, term);
    let first = source(s.capacity, s.cursor);
    let settled = s.settling(source);
    let grown = if data.len() <= s.capacity {
        s
    } else {
        SessionView { capacity: data.len() as usize, ..s }
    };
    assert(settled == source(grown.capacity, s.cursor));
    assert(settled.status == STATUS_OK && settled.data == data);
    let loaded = SessionView {
        pending: data,
        cursor: if from + 1 < batches.len() {
            (from + 1) as u32
        } else {
            s.cursor
        },
        finished: !(from + 1 < batches.len()),
        ..grown
    };
    assert(s.step(source) == (loaded.popped(), Yield::Element(batch[0])));
    let next = loaded.popped();
    let drained = SessionView { pending: Seq::empty(), ..next };
    assert(next.pending == encode(batch.skip(1), term));
    lemma_drain(next, source, batch.skip(1), later.len() + 1);
    if from + 1 < batches.len() {
        lemma_round_trip_from(drained, batches, from + 1);
    } else {
        assert(later =~= Seq::<Seq<u8>>::empty());
        lemma_finished_stays(drained, source, 1);
        assert(drained.run(source, 1) =~= elements_yielded(later).push(Yield::End));
    }
    let n = elements_from(batches, from).len() + 1;
    assert(elements_from(batches, from) == batch + later);
    assert((n - 1) as nat == batch.skip(1).len() + (later.len() + 1));
    assert(s.run(source, n) == seq![Yield::Element(batch[0])] + next.run(source, (n - 1) as nat));
    assert(s.run(source, n) =~= elements_yielded(batch + later).push(Yield::End));
}

/// Growth. Where the first batch is larger than the capacity that a session starts
/// with and the capacity may be raised to its size, the first step still yields the
/// first element of the batch, and the session goes on with that capacity.
pub proof fn lemma_growth(
    s: SessionView,
    source: spec_fn(usize, u32) -> FillView,
    needed: usize,
)
    requires
        s.wf(),
        s.needs_fill(),
        needed > s.capacity,
        s.can_grow_to(needed),
        source(s.capacity, s.cursor).status == STATUS_BUFLEN,
        source(s.capacity, s.cursor).nwritten == needed,
        source(needed, s.cursor).status == STATUS_OK,
        source(needed, s.cursor).nwritten > 0,
        source(needed, s.cursor).conforms(s.term, needed, s.cursor),
    ensures
        s.step(source).1 == Yield::Element(
            source(needed, s.cursor).data.take(
                first_terminator(source(needed, s.cursor).data, s.term),
            ),
        ),
        s.step(source).0.capacity == needed,
        s.step(source).0.wf(),
{
    let batch = source(needed, s.cursor).data;
    crate::abi::lemma_first_terminator(batch, s.term);
    let rest = batch.skip(first_terminator(batch, s.term) + 1);
    if rest.len() > 0 {
        assert(rest.last() == batch.last());
    }
}

/// Capacity exceeded. Where the host asks for more than the session's maximum, the
/// step yields one error that names the size asked for, and every later step yields
/// the end without a call.
pub proof fn lemma_capacity_exceeded(
    s: SessionView,
    source: spec_fn(usize, u32) -> FillView,
    max: usize,
    n: nat,
)
    requires
        s.needs_fill(),
        s.max_capacity == Some(max),
        source(s.capacity, s.cursor).status == STATUS_BUFLEN,
        source(s.capacity, s.cursor).nwritten > max,
    ensures
        s.step(source).1 == Yield::Failure(
            MultiValueHostcallError::BufferTooSmall {
                needed_buf_size: source(s.capacity, s.cursor).nwritten,
            },
        ),
        forall|i: int| 0 <= i < n ==> s.step(source).0.run(source, n)[i] == Yield::End,
        s.step(source).0.fill_log(source, n) == Seq::<FillRecord>::empty(),
{
    lemma_finished_stays(s.step(source).0, source, n);
}

/// Empty source. Where the first call succeeds and brings nothing, the session yields
/// the end at once and at every later step, and no error.
pub proof fn lemma_empty_source(s: SessionView, source: spec_fn(usize, u32) -> FillView, n: nat)
    requires
        s.needs_fill(),
        source(s.capacity, s.cursor).status == STATUS_OK,
        source(s.capacity, s.cursor).nwritten == 0,
    ensures
        s.run(source, n).len() == n,
        forall|i: int| 0 <= i < n ==> s.run(source, n)[i] == Yield::End,
{
    if n > 0 {
        lemma_finished_stays(s.step(source).0, source, (n - 1) as nat);
        assert forall|i: int| 0 <= i < n implies s.run(source, n)[i] == Yield::End by {
            if i > 0 {
                assert(s.run(source, n)[i] == s.step(source).0.run(source, (n - 1) as nat)[i - 1]);
            }
        }
    }
}

/// One step keeps a session well formed, never lowers its capacity and, where it
/// yields an element, brings it nearer to its end.
pub proof fn lemma_step_progress(s: SessionView, source: spec_fn(usize, u32) -> FillView)
    requires
        s.wf(),
        source_conforms(source, s.term),
    ensures
        s.step(source).0.wf(),
        s.step(source).0.term == s.term,
        s.step(source).0.max_capacity == s.max_capacity,
        s.step(source).0.capacity >= s.capacity,
        s.step(source).1 is Element ==> s.step(source).0.nearer_than(s),
        !(s.step(source).1 is Element) ==> s.step(source).0.finished && s.step(
            source,
        ).0.pending.len() == 0,
        !s.needs_fill() ==> s.step(source).0.cursor == s.cursor && s.step(source).0.finished
            == s.finished,
{
    let (next, y) = s.step(source);
    if s.needs_fill() {
        let first = source(s.capacity, s.cursor);
        let settled = s.settling(source);
        let mid = if s.verdict(first, false) == FillVerdict::Retry {
            s.absorbed(first, false)
        } else {
            s
        };
        assert(first.conforms(s.term, s.capacity, s.cursor));
        assert(settled.conforms(s.term, mid.capacity, s.cursor));
        if y is Element {
            let loaded = mid.absorbed(settled, mid != s);
            crate::abi::lemma_first_terminator(loaded.pending, s.term);
            let rest = loaded.pending.skip(first_terminator(loaded.pending, s.term) + 1);
            if rest.len() > 0 {
                assert(rest.last() == loaded.pending.last());
            }
        }
    } else if s.pending.len() > 0 {
        crate::abi::lemma_first_terminator(s.pending, s.term);
        let rest = s.pending.skip(first_terminator(s.pending, s.term) + 1);
        if rest.len() > 0 {
            assert(rest.last() == s.pending.last());
        }
    }
}

/// Cursor chain. Against a source that keeps to the rules, every fill but the last
/// brought a batch and a cursor that is not negative, and the fill after it offers
/// exactly that cursor. So a batch with a negative cursor is the last one asked for.
pub proof fn lemma_cursor_chain(s: SessionView, source: spec_fn(usize, u32) -> FillView, n: nat)
    requires
        s.wf(),
        source_conforms(source, s.term),
    ensures
        s.fill_log(source, n).len() > 0 ==> s.fill_log(source, n)[0].cursor == s.cursor
            && !s.finished,
        forall|k: int|
            0 <= k && k + 1 < s.fill_log(source, n).len() ==> {
                &&& (#[trigger] s.fill_log(source, n)[k]).loaded
                &&& s.fill_log(source, n)[k].ending_cursor >= 0
                &&& s.fill_log(source, n)[k + 1].cursor == s.fill_log(source, n)[k].ending_cursor
                &&& s.fill_log(source, n)[k + 1].cursor > s.fill_log(source, n)[k].cursor
            },
    decreases n,
{
    if n > 0 {
        let next = s.step(source).0;
        let rest = next.fill_log(source, (n - 1) as nat);
        lemma_step_progress(s, source);
        lemma_cursor_chain(next, source, (n - 1) as nat);
        if s.needs_fill() {
            let log = s.fill_log(source, n);
            assert(log.len() == rest.len() + 1);
            assert forall|k: int| 0 <= k && k + 1 < log.len() implies {
                &&& (#[trigger] log[k]).loaded
                &&& log[k].ending_cursor >= 0
                &&& log[k + 1].cursor == log[k].ending_cursor
                &&& log[k + 1].cursor > log[k].cursor
            } by {
                if k == 0 {
                    assert(log[1] == rest[0]);
                    let first = source(s.capacity, s.cursor);
                    let settled = s.settling(source);
                    let mid = if s.verdict(first, false) == FillVerdict::Retry {
                        s.absorbed(first, false)
                    } else {
                        s
                    };
                    assert(settled.conforms(s.term, mid.capacity, s.cursor));
                } else {
                    assert(log[k] == rest[k - 1]);
                    assert(log[k + 1] == rest[k]);
                }
            }
        }
    }
}

/// Whether `source` says what `fill` brings back: every outcome of a call of `fill` is
/// the answer of `source` to what the call offered.
pub open spec fn fill_models<F: Fn(usize, u32) -> FillOutcome>(
    fill: F,
    source: spec_fn(usize, u32) -> FillView,
) -> bool {
    forall|capacity: usize, cursor: u32, o: FillOutcome| #[trigger]
        call_ensures(fill, (capacity, cursor), o) ==> o@ == source(capacity, cursor)
}

/// A number of steps yields as many times.
pub proof fn lemma_run_len(s: SessionView, source: spec_fn(usize, u32) -> FillView, n: nat)
    ensures
        s.run(source, n).len() == n,
    decreases n,
{
    if n > 0 {
        lemma_run_len(s.step(source).0, source, (n - 1) as nat);
    }
}

/// The yields of more steps begin with the yields of fewer.
pub proof fn lemma_run_prefix(
    s: SessionView,
    source: spec_fn(usize, u32) -> FillView,
    n: nat,
    m: nat,
)
    requires
        n <= m,
    ensures
        s.run(source, n).len() == n,
        s.run(source, m).len() == m,
        forall|i: int| 0 <= i < n ==> s.run(source, n)[i] == s.run(source, m)[i],
    decreases n,
{
    lemma_run_len(s, source, n);
    lemma_run_len(s, source, m);
    if n > 0 {
        lemma_run_prefix(s.step(source).0, source, (n - 1) as nat, (m - 1) as nat);
        assert forall|i: int| 0 <= i < n implies s.run(source, n)[i] == s.run(source, m)[i] by {
            if i > 0 {
                assert(s.run(source, n)[i] == s.step(source).0.run(source, (n - 1) as nat)[i - 1]);
                assert(s.run(source, m)[i] == s.step(source).0.run(source, (m - 1) as nat)[i - 1]);
            }
        }
    }
}

/// Where `source` says what `fill` brings back, a session that calls `fill` yields what
/// the steps against `source` yield.
pub proof fn lemma_follows_is_run<F: Fn(usize, u32) -> FillOutcome>(
    fill: F,
    source: spec_fn(usize, u32) -> FillView,
    states: Seq<SessionView>,
    ys: Seq<Yield>,
)
    requires
        fill_models(fill, source),
        follows(fill, states, ys),
    ensures
        ys == states[0].run(source, ys.len()),
    decreases ys.len(),
{
    let s = states[0];
    if ys.len() == 0 {
        assert(ys =~= s.run(source, 0));
    } else {
        assert(steps_to(fill, states[0], states[0int + 1], ys[0]));
        if s.needs_fill() {
            let (first, retry) = choose|first: FillOutcome, retry: FillOutcome|
                {
                    &&& #[trigger] fill_exchange(fill, s, first, retry)
                    &&& (states[1], ys[0]) == s.step_filled(first@, retry@)
                };
            assert(first@ == source(s.capacity, s.cursor));
            assert(retry@ == s.settling(source));
        }
        assert((states[1], ys[0]) == s.step(source));
        let later = states.skip(1);
        let rest = ys.skip(1);
        assert forall|i: int| #![trigger rest[i]] 0 <= i < rest.len() implies steps_to(
            fill,
            later[i],
            later[i + 1],
            rest[i],
        ) by {
            assert(steps_to(fill, states[i + 1], states[i + 1 + 1], ys[i + 1]));
        }
        lemma_follows_is_run(fill, source, later, rest);
        assert(ys =~= seq![ys[0]] + rest);
        assert(s.run(source, ys.len()) == seq![ys[0]] + states[1].run(
            source,
            (ys.len() - 1) as nat,
        ));
    }
}

/// Round trip of a session that runs. Where `fill` brings back what a host that serves
/// `batches` answers, none of the batches larger than the session's maximum, all that a
/// new session yields is every element of every batch, in the host's order and as the
/// host holds it, and then the end.
pub proof fn lemma_session_round_trip<F: Fn(usize, u32) -> FillOutcome>(
    fill: F,
    term: u8,
    initial_capacity: usize,
    max_capacity: Option<usize>,
    batches: Seq<Seq<Seq<u8>>>,
    states: Seq<SessionView>,
    ys: Seq<Yield>,
)
    requires
        servable(batches, term),
        max_capacity matches Some(max) ==> forall|i: int|
            0 <= i < batches.len() ==> encode(#[trigger] batches[i], term).len() <= max,
        fill_models(fill, batch_source(batches, term)),
        follows(fill, states, ys),
        states[0] == SessionView::fresh(term, initial_capacity, max_capacity),
        complete(ys),
    ensures
        ys == elements_yielded(elements_from(batches, 0)).push(Yield::End),
{
    let source = batch_source(batches, term);
    let s = states[0];
    let all = elements_from(batches, 0);
    let n = all.len();
    let expected = elements_yielded(all).push(Yield::End);
    lemma_follows_is_run(fill, source, states, ys);
    lemma_round_trip(term, initial_capacity, max_capacity, batches);
    if ys.len() <= n + 1 {
        lemma_run_prefix(s, source, ys.len(), n + 1);
        assert(ys.last() == expected[ys.len() - 1]);
        if ys.len() < n + 1 {
            assert(expected[ys.len() - 1] == Yield::Element(all[ys.len() - 1]));
        }
    } else {
        lemma_run_prefix(s, source, n + 1, ys.len());
        assert(ys[n as int] == expected[n as int]);
        assert(ys[n as int] is Element);
    }
}

/// The batch of a list with one more element is the batch of the list, the element and
/// the terminator.
pub proof fn lemma_encode_push(elements: Seq<Seq<u8>>, last: Seq<u8>, term: u8)
    ensures
        encode(elements.push(last), term) == encode(elements, term) + last.push(term),
    decreases elements.len(),
{
    let longer = elements.push(last);
    if elements.len() == 0 {
        assert(longer.skip(1) =~= Seq::<Seq<u8>>::empty());
        assert(encode(longer.skip(1), term) =~= Seq::<u8>::empty());
        assert(encode(longer, term) =~= last.push(term));
        assert(encode(elements, term) + last.push(term) =~= last.push(term));
    } else {
        lemma_encode_push(elements.skip(1), last, term);
        assert(longer.skip(1) =~= elements.skip(1).push(last));
        assert(encode(longer, term) =~= encode(elements, term) + last.push(term));
    }
}

} // verus!
