//! The round trip against a host that packs as many elements as fit.
//!
//! Such a host holds one list. A call with a cursor gets the elements from that place
//! on, as many whole ones as the offered capacity holds, and the place to go on from;
//! where not even one fits, it gets the size of the first.

use crate::abi::laws::{
    elements_yielded, encode, fill_models, lemma_drain, lemma_encode_head, lemma_encode_shape,
    lemma_finished_stays, lemma_follows_is_run, lemma_run_prefix, term_free,
};
use crate::abi::{complete, follows, FillOutcome, FillView, SessionView, Yield};
use crate::shared::{STATUS_BUFLEN, STATUS_OK};
use vstd::prelude::*;

verus! {

/// The number of elements from `from` on that fit into `room` bytes, each with its
/// terminator.
pub open spec fn count_fit(elements: Seq<Seq<u8>>, from: int, room: int) -> int
    decreases elements.len() - from,
{
    if from < 0 || from >= elements.len() || elements[from].len() + 1 > room {
        0
    } else {
        1 + count_fit(elements, from + 1, room - elements[from].len() - 1)
    }
}

/// Whether the list is such as a host serves: no terminator inside an element, each
/// element with its terminator of a size that a buffer can have, and no more elements
/// than cursors.
pub open spec fn servable_list(elements: Seq<Seq<u8>>, term: u8) -> bool {
    &&& elements.len() < u32::MAX
    &&& term_free(elements, term)
    &&& forall|i: int| 0 <= i < elements.len() ==> (#[trigger] elements[i]).len() < usize::MAX
}

/// A host that packs: to a call at `cursor` it serves the elements from there on that
/// fit the capacity, the size of the first where not even that one fits, and nothing
/// beyond the last.
pub open spec fn packing_source(elements: Seq<Seq<u8>>, term: u8) -> spec_fn(usize, u32)
    -> FillView {
    |capacity: usize, cursor: u32|
        if cursor >= elements.len() {
            FillView { status: STATUS_OK, data: Seq::empty(), ending_cursor: -1i64, nwritten: 0 }
        } else if count_fit(elements, cursor as int, capacity as int) == 0 {
            FillView {
                status: STATUS_BUFLEN,
                data: Seq::empty(),
                ending_cursor: 0,
                nwritten: (elements[cursor as int].len() + 1) as usize,
            }
        } else {
            FillView {
                status: STATUS_OK,
                data: encode(served(elements, cursor as int, capacity as int), term),
                ending_cursor: if cursor + count_fit(elements, cursor as int, capacity as int)
                    < elements.len() {
                    (cursor + count_fit(elements, cursor as int, capacity as int)) as i64
                } else {
                    -1i64
                },
                nwritten: encode(
                    served(elements, cursor as int, capacity as int),
                    term,
                ).len() as usize,
            }
        }
}

/// The elements that a packing host serves to a call at `from` with `room` bytes.
pub open spec fn served(elements: Seq<Seq<u8>>, from: int, room: int) -> Seq<Seq<u8>> {
    elements.subrange(from, from + count_fit(elements, from, room))
}

/// What a packing host serves fits the room: it serves no more elements than are left,
/// at least one where the first fits, and their bytes are within the room.
pub proof fn lemma_count_fit(elements: Seq<Seq<u8>>, from: int, room: int, term: u8)
    requires
        0 <= from <= elements.len(),
    ensures
        0 <= count_fit(elements, from, room) <= elements.len() - from,
        count_fit(elements, from, room) > 0 <==> from < elements.len() && elements[from].len() + 1
            <= room,
        count_fit(elements, from, room) > 0 ==> encode(served(elements, from, room), term).len()
            <= room,
    decreases elements.len() - from,
{
    if from < elements.len() && elements[from].len() + 1 <= room {
        let left = room - elements[from].len() - 1;
        lemma_count_fit(elements, from + 1, left, term);
        let batch = served(elements, from, room);
        let rest = served(elements, from + 1, left);
        assert(batch[0] == elements[from]);
        assert(batch.skip(1) =~= rest);
        if rest.len() == 0 {
            assert(encode(rest, term) =~= Seq::<u8>::empty());
        }
        assert(encode(batch, term).len() == elements[from].len() + 1 + encode(rest, term).len());
    }
}

/// The round trip from element `from` on, for a session that is about to ask for it.
proof fn lemma_packing_from(s: SessionView, elements: Seq<Seq<u8>>, from: int)
    requires
        servable_list(elements, s.term),
        s.max_capacity matches Some(max) ==> forall|i: int|
            0 <= i < elements.len() ==> (#[trigger] elements[i]).len() + 1 <= max,
        s.wf(),
        s.needs_fill(),
        0 <= from < elements.len(),
        s.cursor == from,
    ensures
        s.run(packing_source(elements, s.term), (elements.len() - from + 1) as nat)
            == elements_yielded(elements.skip(from)).push(Yield::End),
    decreases elements.len() - from,
{
    let term = s.term;
    let source = packing_source(elements, term);
    let size = elements[from].len() + 1;
    assert(elements[from].len() < usize::MAX);
    lemma_count_fit(elements, from, s.capacity as int, term);
    let fits = count_fit(elements, from, s.capacity as int) > 0;
    let grown = if fits {
        s
    } else {
        SessionView { capacity: size as usize, ..s }
    };
    lemma_count_fit(elements, from, grown.capacity as int, term);
    let k = count_fit(elements, from, grown.capacity as int);
    assert(k > 0);
    let batch = served(elements, from, grown.capacity as int);
    let data = encode(batch, term);
    assert(batch.len() == k);
    assert forall|i: int, j: int|
        0 <= i < batch.len() && 0 <= j < batch[i].len() implies batch[i][j] != term by {
        assert(batch[i] == elements[from + i]);
    }
    lemma_encode_shape(batch, term);
    lemma_encode_head(batch, term);
    let first = source(s.capacity, s.cursor);
    let settled = s.settling(source);
    assert(settled == source(grown.capacity, s.cursor));
    assert(settled.status == STATUS_OK && settled.data == data);
    let more = from + k < elements.len();
    let loaded = SessionView {
        pending: data,
        cursor: if more {
            (from + k) as u32
        } else {
            s.cursor
        },
        finished: !more,
        ..grown
    };
    assert(s.step(source) == (loaded.popped(), Yield::Element(batch[0])));
    let next = loaded.popped();
    let drained = SessionView { pending: Seq::empty(), ..next };
    let later = elements.skip(from + k);
    assert(next.pending == encode(batch.skip(1), term));
    lemma_drain(next, source, batch.skip(1), later.len() + 1);
    if more {
        lemma_packing_from(drained, elements, from + k);
    } else {
        assert(later =~= Seq::<Seq<u8>>::empty());
        lemma_finished_stays(drained, source, 1);
        assert(drained.run(source, 1) =~= elements_yielded(later).push(Yield::End));
    }
    let n = (elements.len() - from + 1) as nat;
    assert(elements.skip(from) =~= batch + later);
    assert((n - 1) as nat == batch.skip(1).len() + (later.len() + 1));
    assert(s.run(source, n) == seq![Yield::Element(batch[0])] + next.run(source, (n - 1) as nat));
    assert(s.run(source, n) =~= elements_yielded(batch + later).push(Yield::End));
}

/// Round trip against a packing host. A new session against a host that holds
/// `elements` and packs as many as fit into each answer, no element with its
/// terminator larger than the session's maximum, yields every element, in the host's
/// order and as the host holds it, and then the end.
pub proof fn lemma_packing_round_trip(
    term: u8,
    initial_capacity: usize,
    max_capacity: Option<usize>,
    elements: Seq<Seq<u8>>,
)
    requires
        servable_list(elements, term),
        max_capacity matches Some(max) ==> forall|i: int|
            0 <= i < elements.len() ==> (#[trigger] elements[i]).len() + 1 <= max,
    ensures
        SessionView::fresh(term, initial_capacity, max_capacity).run(
            packing_source(elements, term),
            elements.len() + 1,
        ) == elements_yielded(elements).push(Yield::End),
{
    let s = SessionView::fresh(term, initial_capacity, max_capacity);
    let source = packing_source(elements, term);
    if elements.len() == 0 {
        let done = SessionView { finished: true, ..s };
        assert(s.step(source) == (done, Yield::End));
        assert(done.run(source, 0) =~= Seq::<Yield>::empty());
        assert(s.run(source, 1) =~= elements_yielded(elements).push(Yield::End));
    } else {
        lemma_packing_from(s, elements, 0);
        assert(elements.skip(0) =~= elements);
    }
}

/// Round trip of a session that runs against a packing host. Where `fill` brings back
/// what a host that holds `elements` and packs as many as fit answers, no element with
/// its terminator larger than the session's maximum, all that a new session yields is
/// every element, in the host's order and as the host holds it, and then the end.
pub proof fn lemma_packing_session_round_trip<F: Fn(usize, u32) -> FillOutcome>(
    fill: F,
    term: u8,
    initial_capacity: usize,
    max_capacity: Option<usize>,
    elements: Seq<Seq<u8>>,
    states: Seq<SessionView>,
    ys: Seq<Yield>,
)
    requires
        servable_list(elements, term),
        max_capacity matches Some(max) ==> forall|i: int|
            0 <= i < elements.len() ==> (#[trigger] elements[i]).len() + 1 <= max,
        fill_models(fill, packing_source(elements, term)),
        follows(fill, states, ys),
        states[0] == SessionView::fresh(term, initial_capacity, max_capacity),
        complete(ys),
    ensures
        ys == elements_yielded(elements).push(Yield::End),
{
    let source = packing_source(elements, term);
    let s = states[0];
    let n = elements.len();
    let expected = elements_yielded(elements).push(Yield::End);
    lemma_follows_is_run(fill, source, states, ys);
    lemma_packing_round_trip(term, initial_capacity, max_capacity, elements);
    if ys.len() <= n + 1 {
        lemma_run_prefix(s, source, ys.len(), n + 1);
        assert(ys.last() == expected[ys.len() - 1]);
        if ys.len() < n + 1 {
            assert(expected[ys.len() - 1] == Yield::Element(elements[ys.len() - 1]));
        }
    } else {
        lemma_run_prefix(s, source, n + 1, ys.len());
        assert(ys[n as int] == expected[n as int]);
        assert(ys[n as int] is Element);
    }
}

} // verus!
