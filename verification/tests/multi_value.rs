use fastly::abi::values::read_values;
use fastly::abi::{FillOutcome, FillVerdict, MultiValueHostcall, MultiValueHostcallError};
use fastly::error::{BufferKind, BufferSizeError};
use fastly::http::header::{HeaderName, HeaderValue};
use fastly::http::request::handle::{client_original_header_names, RequestHandle};
use fastly::http::response::handle::ResponseHandle;
use fastly::shared::{FastlyStatus, STATUS_BUFLEN, STATUS_ERROR, STATUS_OK};
use std::cell::{Cell, RefCell};

fn encode(elements: &[&[u8]], term: u8) -> Vec<u8> {
    let mut out = Vec::new();
    for e in elements {
        out.extend_from_slice(e);
        out.push(term);
    }
    out
}

fn ok(data: Vec<u8>, ending_cursor: i64) -> FillOutcome {
    let nwritten = data.len();
    FillOutcome { status: FastlyStatus::from_code(STATUS_OK), data, ending_cursor, nwritten }
}

fn too_small(needed: usize) -> FillOutcome {
    FillOutcome {
        status: FastlyStatus::from_code(STATUS_BUFLEN),
        data: Vec::new(),
        ending_cursor: 0,
        nwritten: needed,
    }
}

/// A host that serves its batches whole: batch `cursor` to a call that offers room for
/// it, else the size that it needs.
fn serve(batches: &[Vec<u8>], capacity: usize, cursor: u32) -> FillOutcome {
    let at = cursor as usize;
    if at >= batches.len() {
        return ok(Vec::new(), -1);
    }
    if batches[at].len() > capacity {
        return too_small(batches[at].len());
    }
    let next = if at + 1 < batches.len() { (at + 1) as i64 } else { -1 };
    ok(batches[at].clone(), next)
}

fn element(r: Option<Result<bytes::Bytes, MultiValueHostcallError>>) -> Vec<u8> {
    r.expect("an element").expect("no error").to_vec()
}

#[test]
fn scenario_three_headers_grow_once() {
    let batches = vec![encode(&[b"a", b"bb", b"ccc"], 0)];
    assert_eq!(batches[0].len(), 9);
    let calls = Cell::new(0u32);
    let offered = RefCell::new(Vec::new());
    let mut session = MultiValueHostcall::new(0, 4, None, |capacity: usize, cursor: u32| {
        calls.set(calls.get() + 1);
        offered.borrow_mut().push((capacity, cursor));
        serve(&batches, capacity, cursor)
    });
    assert_eq!(element(session.next()), b"a".to_vec());
    assert_eq!(element(session.next()), b"bb".to_vec());
    assert_eq!(element(session.next()), b"ccc".to_vec());
    assert!(session.next().is_none());
    assert!(session.next().is_none());
    assert_eq!(calls.get(), 2);
    assert_eq!(*offered.borrow(), vec![(4usize, 0u32), (9usize, 0u32)]);
}

#[test]
fn scenario_ceiling_exceeded() {
    let batches = vec![encode(&[b"a", b"bb", b"ccc"], 0)];
    let calls = Cell::new(0u32);
    let mut session = MultiValueHostcall::new(0, 4, Some(5), |capacity: usize, cursor: u32| {
        calls.set(calls.get() + 1);
        serve(&batches, capacity, cursor)
    });
    assert_eq!(
        session.next(),
        Some(Err(MultiValueHostcallError::BufferTooSmall { needed_buf_size: 9 }))
    );
    assert!(session.next().is_none());
    assert!(session.next().is_none());
    assert_eq!(calls.get(), 1);
}

#[test]
fn round_trip_within_initial_capacity() {
    let elements: Vec<&[u8]> = vec![b"accept", b"", b"x-long-header-name", b"h"];
    let batches = vec![encode(&elements, 0)];
    let calls = Cell::new(0u32);
    let mut session = MultiValueHostcall::new(0, 128, Some(128), |capacity: usize, cursor: u32| {
        calls.set(calls.get() + 1);
        serve(&batches, capacity, cursor)
    });
    for e in &elements {
        assert_eq!(element(session.next()), e.to_vec());
    }
    assert!(session.next().is_none());
    assert_eq!(calls.get(), 1);
}

#[test]
fn round_trip_with_another_terminator() {
    let batches = vec![encode(&[b"a\0b", b"c"], b'\n')];
    let mut session =
        MultiValueHostcall::new(b'\n', 64, None, |capacity: usize, cursor: u32| {
            serve(&batches, capacity, cursor)
        });
    assert_eq!(element(session.next()), b"a\0b".to_vec());
    assert_eq!(element(session.next()), b"c".to_vec());
    assert!(session.next().is_none());
}

#[test]
fn growth_up_to_the_maximum_is_allowed() {
    let batches = vec![encode(&[b"0123456789"], 0)];
    let mut session = MultiValueHostcall::new(0, 4, Some(11), |capacity: usize, cursor: u32| {
        serve(&batches, capacity, cursor)
    });
    assert_eq!(session.capacity(), 4);
    assert_eq!(element(session.next()), b"0123456789".to_vec());
    assert_eq!(session.capacity(), 11);
    assert!(session.next().is_none());
}

#[test]
fn initial_capacity_is_clamped_to_the_maximum() {
    let session = MultiValueHostcall::new(0, 100, Some(7), |_: usize, _: u32| ok(Vec::new(), -1));
    assert_eq!(session.capacity(), 7);
    assert_eq!(session.cursor(), 0);
    assert!(session.needs_fill());
}

#[test]
fn empty_source_yields_nothing() {
    let calls = Cell::new(0u32);
    let mut session = MultiValueHostcall::new(0, 16, None, |_: usize, _: u32| {
        calls.set(calls.get() + 1);
        ok(Vec::new(), 0)
    });
    assert!(session.next().is_none());
    assert!(session.next().is_none());
    assert_eq!(calls.get(), 1);
}

#[test]
fn too_small_with_size_zero_means_no_data() {
    let mut session = MultiValueHostcall::new(0, 16, Some(16), |_: usize, _: u32| too_small(0));
    assert!(session.next().is_none());
    assert!(session.next().is_none());
}

#[test]
fn cursors_follow_the_host() {
    let batches = vec![
        encode(&[b"a", b"b"], 0),
        encode(&[b"cc"], 0),
        encode(&[b"d", b"e", b"f"], 0),
    ];
    let cursors = RefCell::new(Vec::new());
    let mut session = MultiValueHostcall::new(0, 6, Some(6), |capacity: usize, cursor: u32| {
        cursors.borrow_mut().push(cursor);
        let at = cursor as usize / 10;
        let mut o = serve(&batches, capacity, at as u32);
        if o.ending_cursor >= 0 {
            o.ending_cursor *= 10;
        }
        o
    });
    let mut got = Vec::new();
    while let Some(r) = session.next() {
        got.push(r.unwrap().to_vec());
    }
    let expected: Vec<Vec<u8>> =
        vec![b"a".to_vec(), b"b".to_vec(), b"cc".to_vec(), b"d".to_vec(), b"e".to_vec(), b"f".to_vec()];
    assert_eq!(got, expected);
    assert_eq!(*cursors.borrow(), vec![0u32, 10, 20]);
    assert!(session.next().is_none());
    assert_eq!(cursors.borrow().len(), 3);
}

#[test]
fn closure_error_ends_the_session() {
    let mut session = MultiValueHostcall::new(0, 16, None, |_: usize, _: u32| FillOutcome {
        status: FastlyStatus::from_code(STATUS_ERROR),
        data: Vec::new(),
        ending_cursor: 0,
        nwritten: 0,
    });
    assert_eq!(
        session.next(),
        Some(Err(MultiValueHostcallError::ClosureError(FastlyStatus { code: STATUS_ERROR })))
    );
    assert!(session.next().is_none());
}

#[test]
fn steps_by_hand() {
    let mut session = MultiValueHostcall::new(0, 2, Some(8), |_: usize, _: u32| ok(Vec::new(), -1));
    assert!(session.needs_fill());
    assert_eq!(session.absorb(too_small(6), false), FillVerdict::Retry);
    assert_eq!(session.capacity(), 6);
    assert_eq!(session.absorb(ok(b"ab\0cd\0".to_vec(), 3), true), FillVerdict::Loaded);
    assert_eq!(session.cursor(), 3);
    assert!(!session.needs_fill());
    assert_eq!(session.take_element().to_vec(), b"ab".to_vec());
    assert_eq!(session.take_element().to_vec(), b"cd".to_vec());
    assert!(session.needs_fill());
    assert_eq!(
        session.absorb(too_small(9), false),
        FillVerdict::Stop(Some(MultiValueHostcallError::BufferTooSmall { needed_buf_size: 9 }))
    );
    assert!(!session.needs_fill());
}

#[test]
fn outcome_conformance() {
    assert!(ok(b"a\0".to_vec(), -1).conforms(0, 2, 0));
    assert!(ok(b"a\0".to_vec(), 1).conforms(0, 2, 0));
    assert!(!ok(b"a\0".to_vec(), 1).conforms(0, 2, 1));
    assert!(!ok(b"a\0".to_vec(), 0).conforms(0, 2, 0));
    assert!(!ok(b"a\0".to_vec(), 1).conforms(0, 1, 0));
    assert!(!ok(b"ab".to_vec(), -1).conforms(0, 2, 0));
    assert!(!ok(b"a\0".to_vec(), 4294967296).conforms(0, 2, 0));
    assert!(ok(b"a\0".to_vec(), 4294967295).conforms(0, 2, 0));
    assert!(ok(Vec::new(), 0).conforms(0, 2, 7));
    assert!(too_small(5).conforms(0, 2, 0));
    assert!(too_small(0).conforms(0, 2, 0));
    assert!(too_small(0).conforms(0, 0, 0));
    assert!(!too_small(2).conforms(0, 2, 0));
    assert!(!too_small(1).conforms(0, 2, 0));
    let mut o = ok(b"a\0".to_vec(), -1);
    o.nwritten = 1;
    assert!(!o.conforms(0, 2, 0));
}

#[test]
fn header_names_are_read_in_lower_case() {
    let batches = vec![encode(&[b"Content-Type", b"X-A"], 0), encode(&[b"host"], 0)];
    let handle = RequestHandle::from_u32(7);
    let names = handle.get_header_names(64, |capacity: usize, cursor: u32| {
        serve(&batches, capacity, cursor)
    });
    let expected: Vec<Result<HeaderName, BufferSizeError>> = vec![
        Ok(HeaderName::from_bytes(b"content-type").unwrap()),
        Ok(HeaderName::from_bytes(b"x-a").unwrap()),
        Ok(HeaderName::from_bytes(b"host").unwrap()),
    ];
    assert_eq!(names, expected);
}

#[test]
fn header_name_too_long_is_a_typed_error() {
    let batches = vec![encode(&[b"a"], 0), encode(&[b"a-very-long-header-name"], 0)];
    let handle = RequestHandle::from_u32(7);
    let names = handle.get_header_names(8, |capacity: usize, cursor: u32| {
        serve(&batches, capacity, cursor)
    });
    assert_eq!(names.len(), 2);
    assert_eq!(names[0], Ok(HeaderName::from_bytes(b"a").unwrap()));
    assert_eq!(
        names[1],
        Err(BufferSizeError { buf_size: 8, needed_buf_size: 24, buffer_kind: BufferKind::HeaderName })
    );
}

#[test]
fn header_values_grow_within_the_limit() {
    let batches = vec![encode(&[b"text/html", b"application/json"], 0)];
    let handle = ResponseHandle::from_u32(3);
    let name = HeaderName::from_bytes(b"accept").unwrap();
    let values = handle.get_header_values_impl(&name, 4, Some(64), |capacity: usize, cursor: u32| {
        serve(&batches, capacity, cursor)
    });
    let expected: Vec<Result<HeaderValue, BufferSizeError>> = vec![
        Ok(HeaderValue::from_bytes(b"text/html").unwrap()),
        Ok(HeaderValue::from_bytes(b"application/json").unwrap()),
    ];
    assert_eq!(values, expected);
    let values = handle.get_header_values(&name, 4, |capacity: usize, cursor: u32| {
        serve(&batches, capacity, cursor)
    });
    assert_eq!(
        values,
        vec![Err(BufferSizeError {
            buf_size: 4,
            needed_buf_size: 27,
            buffer_kind: BufferKind::HeaderValue
        })]
    );
}

#[test]
fn original_header_names_keep_their_case() {
    let batches = vec![encode(&[b"Content-Type", "X-\u{e9}".as_bytes()], 0)];
    let names = client_original_header_names(64, |capacity: usize, cursor: u32| {
        serve(&batches, capacity, cursor)
    });
    assert_eq!(names, vec![Ok("Content-Type".to_string()), Ok("X-\u{e9}".to_string())]);
    let names = client_original_header_names(3, |capacity: usize, cursor: u32| {
        serve(&batches, capacity, cursor)
    });
    assert_eq!(
        names,
        vec![Err(BufferSizeError {
            buf_size: 3,
            needed_buf_size: 18,
            buffer_kind: BufferKind::HeaderName
        })]
    );
}

#[test]
fn read_values_of_an_empty_list() {
    let values: Vec<Result<String, BufferSizeError>> =
        read_values(0, 16, None, BufferKind::Geo, |_: usize, _: u32| ok(Vec::new(), 0));
    assert!(values.is_empty());
}

#[test]
fn capacity_never_goes_down() {
    let batches = vec![encode(&[b"0123456789"], 0), encode(&[b"ab"], 0), encode(&[b"0123456"], 0)];
    let mut session = MultiValueHostcall::new(0, 4, Some(64), |capacity: usize, cursor: u32| {
        serve(&batches, capacity, cursor)
    });
    let mut last = session.capacity();
    assert_eq!(last, 4);
    let mut seen = Vec::new();
    while let Some(r) = session.next() {
        r.unwrap();
        assert!(session.capacity() >= last);
        last = session.capacity();
        seen.push(last);
    }
    assert_eq!(seen, vec![11, 11, 11]);
}

#[test]
fn no_data_at_capacity_zero() {
    let calls = Cell::new(0u32);
    let mut session = MultiValueHostcall::new(0, 0, None, |_: usize, _: u32| {
        calls.set(calls.get() + 1);
        too_small(0)
    });
    assert_eq!(session.capacity(), 0);
    assert!(session.next().is_none());
    assert!(session.next().is_none());
    assert_eq!(calls.get(), 1);
}

/// A host that packs: from element `cursor` on, as many whole elements as the capacity
/// holds, or the size of the first where not even that one fits.
fn pack(elements: &[&[u8]], term: u8, capacity: usize, cursor: u32) -> FillOutcome {
    let from = cursor as usize;
    if from >= elements.len() {
        return ok(Vec::new(), -1);
    }
    let mut data = Vec::new();
    let mut at = from;
    while at < elements.len() && data.len() + elements[at].len() + 1 <= capacity {
        data.extend_from_slice(elements[at]);
        data.push(term);
        at += 1;
    }
    if at == from {
        return too_small(elements[from].len() + 1);
    }
    ok(data, if at < elements.len() { at as i64 } else { -1 })
}

#[test]
fn round_trip_against_a_packing_host() {
    let elements: Vec<&[u8]> = vec![b"a", b"bb", b"", b"ccccc", b"d", b"ee"];
    let offered = RefCell::new(Vec::new());
    let mut session = MultiValueHostcall::new(0, 4, Some(6), |capacity: usize, cursor: u32| {
        offered.borrow_mut().push((capacity, cursor));
        pack(&elements, 0, capacity, cursor)
    });
    for e in &elements {
        assert_eq!(element(session.next()), e.to_vec());
    }
    assert!(session.next().is_none());
    assert!(session.next().is_none());
    assert_eq!(
        *offered.borrow(),
        vec![(4usize, 0u32), (4, 1), (4, 3), (6, 3), (6, 4)]
    );
}

#[test]
fn packing_host_with_an_element_over_the_maximum() {
    let elements: Vec<&[u8]> = vec![b"a", b"bbbbbb", b"c"];
    let mut session = MultiValueHostcall::new(0, 4, Some(6), |capacity: usize, cursor: u32| {
        pack(&elements, 0, capacity, cursor)
    });
    assert_eq!(element(session.next()), b"a".to_vec());
    assert_eq!(
        session.next(),
        Some(Err(MultiValueHostcallError::BufferTooSmall { needed_buf_size: 7 }))
    );
    assert!(session.next().is_none());
}
