//! The handle of a request that the host holds, and reading the request's head out of
//! the host.
//!
//! The functions that read take the call into the host as a function: `fill` offers
//! the host a capacity (and, for a list, a cursor) and brings back what it answered.

use crate::abi::single::{
    grown_result, read_value, read_value_adaptive, value_exchange, value_result, value_served,
    ValueOutcome,
};
use crate::abi::values::{fill_serves, read_result, read_values};
use crate::abi::laws::{encode, lemma_encode_push};
use crate::abi::{complete, fill_conforms, follows, FillOutcome, SessionView, Yield};
use crate::http::header::valid_header_value;
use crate::http::header_map::views;
use crate::http::version::Version;
use crate::shared::{
    FastlyStatus, HttpVersion, STATUS_BUFLEN, STATUS_INVAL, STATUS_OK,
};
use crate::error::{BufferKind, BufferSizeError};
use crate::http::header::{HeaderName, HeaderValue};
use crate::http::method::Method;
use crate::http::url::Url;
use crate::shared::INVALID_REQUEST_HANDLE;
use vstd::prelude::*;

verus! {

/// The byte that ends every element of a list that the host hands out.
pub const LIST_TERMINATOR: u8 = 0;

/// Whether `r` is what the host's answer to asking for the first value of a header
/// means: the value on success, no value for the status "invalid", and a size error
/// where the buffer of `max_len` bytes was too small.
pub open spec fn header_value_result(
    r: Result<Option<HeaderValue>, BufferSizeError>,
    max_len: usize,
    outcome: ValueOutcome,
) -> bool {
    match r {
        Ok(Some(v)) => outcome.status.code == STATUS_OK && v@ == outcome.data@,
        Ok(None) => outcome.status.code == STATUS_INVAL,
        Err(e) => outcome.status.code == STATUS_BUFLEN && e == (BufferSizeError {
            buf_size: max_len,
            needed_buf_size: outcome.nwritten,
            buffer_kind: BufferKind::HeaderValue,
        }),
    }
}

/// The values of a header as the host takes them: each followed by the terminator.
pub fn header_values_block(values: &Vec<HeaderValue>) -> (block: Vec<u8>)
    ensures
        block@ == encode(views(values@), LIST_TERMINATOR),
{
    let mut block: Vec<u8> = Vec::new();
    let mut i: usize = 0;
    proof {
        assert(views(values@).take(0) =~= Seq::<Seq<u8>>::empty());
    }
    while i < values.len()
        invariant
            0 <= i <= values.len(),
            block@ == encode(views(values@).take(i as int), LIST_TERMINATOR),
        decreases values.len() - i,
    {
        let ghost before = block@;
        block.extend_from_slice(values[i].as_bytes());
        block.push(LIST_TERMINATOR);
        proof {
            let all = views(values@);
            lemma_encode_push(all.take(i as int), all[i as int], LIST_TERMINATOR);
            assert(all.take(i + 1) =~= all.take(i as int).push(all[i as int]));
            assert(block@ =~= before + values[i as int]@.push(LIST_TERMINATOR));
        }
        i = i + 1;
    }
    proof {
        assert(views(values@).take(values.len() as int) =~= views(values@));
    }
    block
}

/// The handle of a request that the host holds.
#[derive(Debug, PartialEq, Eq, Hash)]
pub struct RequestHandle {
    handle: u32,
}

impl View for RequestHandle {
    type V = u32;

    closed spec fn view(&self) -> u32 {
        self.handle
    }
}

impl RequestHandle {
    /// The handle that stands for no request.
    pub fn invalid() -> (h: RequestHandle)
        ensures
            h@ == INVALID_REQUEST_HANDLE,
    {
        RequestHandle { handle: INVALID_REQUEST_HANDLE }
    }

    /// The handle of the given number.
    pub fn from_u32(handle: u32) -> (h: RequestHandle)
        ensures
            h@ == handle,
    {
        RequestHandle { handle }
    }

    /// Whether the handle stands for a request.
    pub fn is_valid(&self) -> (r: bool)
        ensures
            r == (self@ != INVALID_REQUEST_HANDLE),
    {
        !self.is_invalid()
    }

    /// Whether the handle stands for no request.
    pub fn is_invalid(&self) -> (r: bool)
        ensures
            r == (self@ == INVALID_REQUEST_HANDLE),
    {
        self.handle == INVALID_REQUEST_HANDLE
    }

    /// The number of the handle.
    pub fn as_u32(&self) -> (r: u32)
        ensures
            r == self@,
    {
        self.handle
    }

    /// The place of the number of the handle, for the host to write it.
    pub fn as_u32_mut(&mut self) -> (r: &mut u32)
        ensures
            *r == old(self)@,
            final(self)@ == *final(r),
    {
        &mut self.handle
    }

    /// The number of the handle, the handle given up.
    pub fn into_u32(self) -> (r: u32)
        ensures
            r == self@,
    {
        self.handle
    }

    /// What the host's answer to asking for the first value of a header means. The
    /// host has to answer with success and a valid value that fits, with "invalid", or
    /// with "buffer too small".
    pub fn get_header_value(&self, max_len: usize, outcome: ValueOutcome) -> (r: Result<
        Option<HeaderValue>,
        BufferSizeError,
    >)
        requires
            outcome.status.code == STATUS_OK || outcome.status.code == STATUS_INVAL
                || outcome.status.code == STATUS_BUFLEN,
            outcome.status.code == STATUS_OK ==> valid_header_value(outcome.data@),
        ensures
            header_value_result(r, max_len, outcome),
    {
        let code = outcome.status.code;
        if code == STATUS_OK {
            match HeaderValue::from_bytes(outcome.data.as_slice()) {
                Ok(value) => Ok(Some(value)),
                Err(_) => vstd::pervasive::unreached(),
            }
        } else if code == STATUS_INVAL {
            Ok(None)
        } else {
            Err(BufferSizeError::header_value(max_len, outcome.nwritten))
        }
    }

    /// The values of a header as the host takes them, to set them all at once: each
    /// followed by the terminator.
    pub fn set_header_values(&mut self, values: &Vec<HeaderValue>) -> (block: Vec<u8>)
        ensures
            final(self)@ == old(self)@,
            block@ == encode(views(values@), LIST_TERMINATOR),
    {
        header_values_block(values)
    }

    /// What the host's answer to removing a header means: whether there was one. The
    /// host has to answer with success or with "invalid".
    pub fn remove_header(&mut self, status: FastlyStatus) -> (r: bool)
        requires
            status.code == STATUS_OK || status.code == STATUS_INVAL,
        ensures
            final(self)@ == old(self)@,
            r == (status.code == STATUS_OK),
    {
        status.code == STATUS_OK
    }

    /// What the host's answer to asking for the version means. The host has to answer
    /// with success and the number of a version.
    pub fn get_version(&self, status: FastlyStatus, version: u32) -> (r: Version)
        requires
            status.code == STATUS_OK,
            HttpVersion::of_number(version) is Some,
        ensures
            Some(r.host_version()) == HttpVersion::of_number(version),
    {
        match HttpVersion::try_from(version) {
            Ok(v) => Version::from_host(v),
            Err(_) => vstd::pervasive::unreached(),
        }
    }

    /// The names of the request's headers, read with buffers of at most `buf_size`
    /// bytes. A name that needs more ends the list with a size error.
    pub fn get_header_names<F: Fn(usize, u32) -> FillOutcome>(&self, buf_size: usize, fill: F) -> (r:
        Vec<Result<HeaderName, BufferSizeError>>)
        requires
            fill_conforms(fill, LIST_TERMINATOR),
            fill_serves::<HeaderName, F>(fill, LIST_TERMINATOR),
        ensures
            exists|states: Seq<SessionView>, ys: Seq<Yield>|
                {
                    &&& #[trigger] follows(fill, states, ys)
                    &&& states[0] == SessionView::fresh(LIST_TERMINATOR, buf_size, Some(buf_size))
                    &&& complete(ys)
                    &&& read_result::<HeaderName>(r@, ys, Some(buf_size), BufferKind::HeaderName)
                },
    {
        self.get_header_names_impl(buf_size, Some(buf_size), fill)
    }

    /// The names of the request's headers, read with a buffer of `initial_buf_size`
    /// bytes that grows up to `max_buf_size` where the host asks for more.
    pub fn get_header_names_impl<F: Fn(usize, u32) -> FillOutcome>(
        &self,
        initial_buf_size: usize,
        max_buf_size: Option<usize>,
        fill: F,
    ) -> (r: Vec<Result<HeaderName, BufferSizeError>>)
        requires
            fill_conforms(fill, LIST_TERMINATOR),
            fill_serves::<HeaderName, F>(fill, LIST_TERMINATOR),
        ensures
            exists|states: Seq<SessionView>, ys: Seq<Yield>|
                {
                    &&& #[trigger] follows(fill, states, ys)
                    &&& states[0] == SessionView::fresh(
                        LIST_TERMINATOR,
                        initial_buf_size,
                        max_buf_size,
                    )
                    &&& complete(ys)
                    &&& read_result::<HeaderName>(r@, ys, max_buf_size, BufferKind::HeaderName)
                },
    {
        read_values::<HeaderName, F>(
            LIST_TERMINATOR,
            initial_buf_size,
            max_buf_size,
            BufferKind::HeaderName,
            fill,
        )
    }

    /// The values of one header of the request, read with buffers of at most
    /// `buf_size` bytes. A value that needs more ends the list with a size error.
    pub fn get_header_values<F: Fn(usize, u32) -> FillOutcome>(
        &self,
        name: &HeaderName,
        buf_size: usize,
        fill: F,
    ) -> (r: Vec<Result<HeaderValue, BufferSizeError>>)
        requires
            fill_conforms(fill, LIST_TERMINATOR),
            fill_serves::<HeaderValue, F>(fill, LIST_TERMINATOR),
        ensures
            exists|states: Seq<SessionView>, ys: Seq<Yield>|
                {
                    &&& #[trigger] follows(fill, states, ys)
                    &&& states[0] == SessionView::fresh(LIST_TERMINATOR, buf_size, Some(buf_size))
                    &&& complete(ys)
                    &&& read_result::<HeaderValue>(r@, ys, Some(buf_size), BufferKind::HeaderValue)
                },
    {
        self.get_header_values_impl(name, buf_size, Some(buf_size), fill)
    }

    /// The values of one header of the request, read with a buffer of
    /// `initial_buf_size` bytes that grows up to `max_buf_size` where the host asks for
    /// more.
    pub fn get_header_values_impl<F: Fn(usize, u32) -> FillOutcome>(
        &self,
        name: &HeaderName,
        initial_buf_size: usize,
        max_buf_size: Option<usize>,
        fill: F,
    ) -> (r: Vec<Result<HeaderValue, BufferSizeError>>)
        requires
            fill_conforms(fill, LIST_TERMINATOR),
            fill_serves::<HeaderValue, F>(fill, LIST_TERMINATOR),
        ensures
            exists|states: Seq<SessionView>, ys: Seq<Yield>|
                {
                    &&& #[trigger] follows(fill, states, ys)
                    &&& states[0] == SessionView::fresh(
                        LIST_TERMINATOR,
                        initial_buf_size,
                        max_buf_size,
                    )
                    &&& complete(ys)
                    &&& read_result::<HeaderValue>(r@, ys, max_buf_size, BufferKind::HeaderValue)
                },
    {
        read_values::<HeaderValue, F>(
            LIST_TERMINATOR,
            initial_buf_size,
            max_buf_size,
            BufferKind::HeaderValue,
            fill,
        )
    }

    /// The method of the request, read with a buffer of `max_length` bytes.
    pub fn get_method<F: Fn(usize) -> ValueOutcome>(&self, max_length: usize, fill: F) -> (r:
        Result<Method, BufferSizeError>)
        requires
            value_served::<Method, F>(fill),
        ensures
            exists|o: ValueOutcome| #[trigger]
                call_ensures(fill, (max_length,), o) && value_result::<Method>(
                    r,
                    o,
                    max_length,
                    BufferKind::HttpMethod,
                ),
    {
        read_value::<Method, F>(max_length, BufferKind::HttpMethod, fill)
    }

    /// The method of the request, read with a buffer that grows once where the host
    /// asks for more and `max_buf_size` allows it.
    pub fn get_method_impl<F: Fn(usize) -> ValueOutcome>(
        &self,
        initial_buf_size: usize,
        max_buf_size: Option<usize>,
        fill: F,
    ) -> (r: Result<Method, BufferSizeError>)
        requires
            value_served::<Method, F>(fill),
        ensures
            exists|first: ValueOutcome, second: ValueOutcome|
                {
                    &&& #[trigger] value_exchange(
                        fill,
                        initial_buf_size,
                        max_buf_size,
                        first,
                        second,
                    )
                    &&& grown_result::<Method>(
                        r,
                        first,
                        second,
                        initial_buf_size,
                        max_buf_size,
                        BufferKind::HttpMethod,
                    )
                },
    {
        read_value_adaptive::<Method, F>(
            initial_buf_size,
            max_buf_size,
            BufferKind::HttpMethod,
            fill,
        )
    }

    /// The URL of the request, read with a buffer of `max_length` bytes.
    pub fn get_url<F: Fn(usize) -> ValueOutcome>(&self, max_length: usize, fill: F) -> (r: Result<
        Url,
        BufferSizeError,
    >)
        requires
            value_served::<Url, F>(fill),
        ensures
            exists|o: ValueOutcome| #[trigger]
                call_ensures(fill, (max_length,), o) && value_result::<Url>(
                    r,
                    o,
                    max_length,
                    BufferKind::Url,
                ),
    {
        read_value::<Url, F>(max_length, BufferKind::Url, fill)
    }

    /// The URL of the request, read with a buffer that grows once where the host asks
    /// for more and `max_buf_size` allows it.
    pub fn get_url_impl<F: Fn(usize) -> ValueOutcome>(
        &self,
        initial_buf_size: usize,
        max_buf_size: Option<usize>,
        fill: F,
    ) -> (r: Result<Url, BufferSizeError>)
        requires
            value_served::<Url, F>(fill),
        ensures
            exists|first: ValueOutcome, second: ValueOutcome|
                {
                    &&& #[trigger] value_exchange(
                        fill,
                        initial_buf_size,
                        max_buf_size,
                        first,
                        second,
                    )
                    &&& grown_result::<Url>(
                        r,
                        first,
                        second,
                        initial_buf_size,
                        max_buf_size,
                        BufferKind::Url,
                    )
                },
    {
        read_value_adaptive::<Url, F>(initial_buf_size, max_buf_size, BufferKind::Url, fill)
    }
}

/// The names of the client request's headers as the client wrote them, read with
/// buffers of at most `buf_size` bytes. A name that needs more ends the list with a
/// size error of a header name.
pub fn client_original_header_names<F: Fn(usize, u32) -> FillOutcome>(buf_size: usize, fill: F) -> (r:
    Vec<Result<String, BufferSizeError>>)
    requires
        fill_conforms(fill, LIST_TERMINATOR),
        fill_serves::<String, F>(fill, LIST_TERMINATOR),
    ensures
        exists|states: Seq<SessionView>, ys: Seq<Yield>|
            {
                &&& #[trigger] follows(fill, states, ys)
                &&& states[0] == SessionView::fresh(LIST_TERMINATOR, buf_size, Some(buf_size))
                &&& complete(ys)
                &&& read_result::<String>(r@, ys, Some(buf_size), BufferKind::HeaderName)
            },
{
    client_original_header_names_impl(buf_size, Some(buf_size), fill)
}

/// The names of the client request's headers as the client wrote them, read with a
/// buffer of `initial_buf_size` bytes that grows up to `max_buf_size` where the host
/// asks for more.
pub fn client_original_header_names_impl<F: Fn(usize, u32) -> FillOutcome>(
    initial_buf_size: usize,
    max_buf_size: Option<usize>,
    fill: F,
) -> (r: Vec<Result<String, BufferSizeError>>)
    requires
        fill_conforms(fill, LIST_TERMINATOR),
        fill_serves::<String, F>(fill, LIST_TERMINATOR),
    ensures
        exists|states: Seq<SessionView>, ys: Seq<Yield>|
            {
                &&& #[trigger] follows(fill, states, ys)
                &&& states[0] == SessionView::fresh(LIST_TERMINATOR, initial_buf_size, max_buf_size)
                &&& complete(ys)
                &&& read_result::<String>(r@, ys, max_buf_size, BufferKind::HeaderName)
            },
{
    read_values::<String, F>(
        LIST_TERMINATOR,
        initial_buf_size,
        max_buf_size,
        BufferKind::HeaderName,
        fill,
    )
}

} // verus!
