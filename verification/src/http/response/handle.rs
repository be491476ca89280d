//! The handle of a response that the host holds, and reading the response's head out
//! of the host.

use crate::abi::values::{fill_serves, read_result, read_values};
use crate::abi::laws::encode;
use crate::abi::single::ValueOutcome;
use crate::abi::{complete, fill_conforms, follows, FillOutcome, SessionView, Yield};
use crate::http::header::valid_header_value;
use crate::http::header_map::views;
use crate::http::request::handle::{header_value_result, header_values_block};
use crate::http::status::{valid_status, StatusCode};
use crate::http::version::Version;
use crate::shared::{
    FastlyStatus, HttpVersion, STATUS_BUFLEN, STATUS_INVAL, STATUS_OK,
};
use crate::error::{BufferKind, BufferSizeError};
use crate::http::header::{HeaderName, HeaderValue};
use crate::http::request::handle::LIST_TERMINATOR;
use crate::shared::INVALID_RESPONSE_HANDLE;
use vstd::prelude::*;

verus! {

/// The handle of a response that the host holds.
#[derive(Debug, PartialEq, Eq, Hash)]
pub struct ResponseHandle {
    handle: u32,
}

impl View for ResponseHandle {
    type V = u32;

    closed spec fn view(&self) -> u32 {
        self.handle
    }
}

impl ResponseHandle {
    /// The handle that stands for no response.
    pub fn invalid() -> (h: ResponseHandle)
        ensures
            h@ == INVALID_RESPONSE_HANDLE,
    {
        ResponseHandle { handle: INVALID_RESPONSE_HANDLE }
    }

    /// The handle of the given number.
    pub fn from_u32(handle: u32) -> (h: ResponseHandle)
        ensures
            h@ == handle,
    {
        ResponseHandle { handle }
    }

    /// Whether the handle stands for a response.
    pub fn is_valid(&self) -> (r: bool)
        ensures
            r == (self@ != INVALID_RESPONSE_HANDLE),
    {
        !self.is_invalid()
    }

    /// Whether the handle stands for no response.
    pub fn is_invalid(&self) -> (r: bool)
        ensures
            r == (self@ == INVALID_RESPONSE_HANDLE),
    {
        self.handle == INVALID_RESPONSE_HANDLE
    }

    /// The number of the handle.
    pub fn as_u32(&self) -> (r: u32)
        ensures
            r == self@,
    {
        self.handle
    }

    /// The place of the number of the handle, for the host to write it.
    pub fn as_u32_mut(&mut self) -> (r: &mut u32)
        ensures
            *r == old(self)@,
            final(self)@ == *final(r),
    {
        &mut self.handle
    }

    /// The number of the handle, the handle given up.
    pub fn into_u32(self) -> (r: u32)
        ensures
            r == self@,
    {
        self.handle
    }

    /// What the host's answer to asking for the first value of a header means. The
    /// host has to answer with success and a valid value that fits, with "invalid", or
    /// with "buffer too small".
    pub fn get_header_value(&self, max_len: usize, outcome: ValueOutcome) -> (r: Result<
        Option<HeaderValue>,
        BufferSizeError,
    >)
        requires
            outcome.status.code == STATUS_OK || outcome.status.code == STATUS_INVAL
                || outcome.status.code == STATUS_BUFLEN,
            outcome.status.code == STATUS_OK ==> valid_header_value(outcome.data@),
        ensures
            header_value_result(r, max_len, outcome),
    {
        let code = outcome.status.code;
        if code == STATUS_OK {
            match HeaderValue::from_bytes(outcome.data.as_slice()) {
                Ok(value) => Ok(Some(value)),
                Err(_) => vstd::pervasive::unreached(),
            }
        } else if code == STATUS_INVAL {
            Ok(None)
        } else {
            Err(BufferSizeError::header_value(max_len, outcome.nwritten))
        }
    }

    /// The values of a header as the host takes them, to set them all at once: each
    /// followed by the terminator.
    pub fn set_header_values(&mut self, values: &Vec<HeaderValue>) -> (block: Vec<u8>)
        ensures
            final(self)@ == old(self)@,
            block@ == encode(views(values@), LIST_TERMINATOR),
    {
        header_values_block(values)
    }

    /// What the host's answer to removing a header means: whether there was one. The
    /// host has to answer with success or with "invalid".
    pub fn remove_header(&mut self, status: FastlyStatus) -> (r: bool)
        requires
            status.code == STATUS_OK || status.code == STATUS_INVAL,
        ensures
            final(self)@ == old(self)@,
            r == (status.code == STATUS_OK),
    {
        status.code == STATUS_OK
    }

    /// What the host's answer to asking for the version means. The host has to answer
    /// with success and the number of a version.
    pub fn get_version(&self, status: FastlyStatus, version: u32) -> (r: Version)
        requires
            status.code == STATUS_OK,
            HttpVersion::of_number(version) is Some,
        ensures
            Some(r.host_version()) == HttpVersion::of_number(version),
    {
        match HttpVersion::try_from(version) {
            Ok(v) => Version::from_host(v),
            Err(_) => vstd::pervasive::unreached(),
        }
    }

    /// What the host's answer to asking for the status means. The host has to answer
    /// with success and a number from 100 to 999.
    pub fn get_status(&self, status: FastlyStatus, code: u16) -> (r: StatusCode)
        requires
            status.code == STATUS_OK,
            valid_status(code),
        ensures
            r@ == code,
    {
        match StatusCode::from_u16(code) {
            Ok(s) => s,
            Err(_) => vstd::pervasive::unreached(),
        }
    }

    /// The names of the response's headers, read with buffers of at most `buf_size`
    /// bytes. A name that needs more ends the list with a size error.
    pub fn get_header_names<F: Fn(usize, u32) -> FillOutcome>(&self, buf_size: usize, fill: F) -> (r:
        Vec<Result<HeaderName, BufferSizeError>>)
        requires
            fill_conforms(fill, LIST_TERMINATOR),
            fill_serves::<HeaderName, F>(fill, LIST_TERMINATOR),
        ensures
            exists|states: Seq<SessionView>, ys: Seq<Yield>|
                {
                    &&& #[trigger] follows(fill, states, ys)
                    &&& states[0] == SessionView::fresh(LIST_TERMINATOR, buf_size, Some(buf_size))
                    &&& complete(ys)
                    &&& read_result::<HeaderName>(r@, ys, Some(buf_size), BufferKind::HeaderName)
                },
    {
        self.get_header_names_impl(buf_size, Some(buf_size), fill)
    }

    /// The names of the response's headers, read with a buffer of `initial_buf_size`
    /// bytes that grows up to `max_buf_size` where the host asks for more.
    pub fn get_header_names_impl<F: Fn(usize, u32) -> FillOutcome>(
        &self,
        initial_buf_size: usize,
        max_buf_size: Option<usize>,
        fill: F,
    ) -> (r: Vec<Result<HeaderName, BufferSizeError>>)
        requires
            fill_conforms(fill, LIST_TERMINATOR),
            fill_serves::<HeaderName, F>(fill, LIST_TERMINATOR),
        ensures
            exists|states: Seq<SessionView>, ys: Seq<Yield>|
                {
                    &&& #[trigger] follows(fill, states, ys)
                    &&& states[0] == SessionView::fresh(
                        LIST_TERMINATOR,
                        initial_buf_size,
                        max_buf_size,
                    )
                    &&& complete(ys)
                    &&& read_result::<HeaderName>(r@, ys, max_buf_size, BufferKind::HeaderName)
                },
    {
        read_values::<HeaderName, F>(
            LIST_TERMINATOR,
            initial_buf_size,
            max_buf_size,
            BufferKind::HeaderName,
            fill,
        )
    }

    /// The values of one header of the response, read with buffers of at most
    /// `buf_size` bytes. A value that needs more ends the list with a size error.
    pub fn get_header_values<F: Fn(usize, u32) -> FillOutcome>(
        &self,
        name: &HeaderName,
        buf_size: usize,
        fill: F,
    ) -> (r: Vec<Result<HeaderValue, BufferSizeError>>)
        requires
            fill_conforms(fill, LIST_TERMINATOR),
            fill_serves::<HeaderValue, F>(fill, LIST_TERMINATOR),
        ensures
            exists|states: Seq<SessionView>, ys: Seq<Yield>|
                {
                    &&& #[trigger] follows(fill, states, ys)
                    &&& states[0] == SessionView::fresh(LIST_TERMINATOR, buf_size, Some(buf_size))
                    &&& complete(ys)
                    &&& read_result::<HeaderValue>(r@, ys, Some(buf_size), BufferKind::HeaderValue)
                },
    {
        self.get_header_values_impl(name, buf_size, Some(buf_size), fill)
    }

    /// The values of one header of the response, read with a buffer of
    /// `initial_buf_size` bytes that grows up to `max_buf_size` where the host asks for
    /// more.
    pub fn get_header_values_impl<F: Fn(usize, u32) -> FillOutcome>(
        &self,
        name: &HeaderName,
        initial_buf_size: usize,
        max_buf_size: Option<usize>,
        fill: F,
    ) -> (r: Vec<Result<HeaderValue, BufferSizeError>>)
        requires
            fill_conforms(fill, LIST_TERMINATOR),
            fill_serves::<HeaderValue, F>(fill, LIST_TERMINATOR),
        ensures
            exists|states: Seq<SessionView>, ys: Seq<Yield>|
                {
                    &&& #[trigger] follows(fill, states, ys)
                    &&& states[0] == SessionView::fresh(
                        LIST_TERMINATOR,
                        initial_buf_size,
                        max_buf_size,
                    )
                    &&& complete(ys)
                    &&& read_result::<HeaderValue>(r@, ys, max_buf_size, BufferKind::HeaderValue)
                },
    {
        read_values::<HeaderValue, F>(
            LIST_TERMINATOR,
            initial_buf_size,
            max_buf_size,
            BufferKind::HeaderValue,
            fill,
        )
    }
}

} // verus!
