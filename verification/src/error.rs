//! Errors that several parts of the library share.

use crate::shared::{append_decimal, decimal_digits};
use vstd::prelude::*;
use vstd::string::StringExecFns;

verus! {

/// The kind of value that a buffer was to hold.
#[derive(Copy, Clone, Debug, PartialEq, Eq, Structural)]
pub enum BufferKind {
    /// Geolocation data.
    Geo,
    /// The name of a header.
    HeaderName,
    /// The value of a header.
    HeaderValue,
    /// An HTTP method.
    HttpMethod,
    /// A URL.
    Url,
}

impl BufferKind {
    /// The words for this kind.
    pub open spec fn label(self) -> Seq<char> {
        match self {
            BufferKind::Geo => "Geo"@,
            BufferKind::HttpMethod => "HTTP method"@,
            BufferKind::HeaderName => "header name"@,
            BufferKind::HeaderValue => "header value"@,
            BufferKind::Url => "URL"@,
        }
    }

    /// The words for this kind, as they stand in messages.
    pub fn as_str(&self) -> (r: &'static str)
        ensures
            r@ == self.label(),
    {
        match self {
            BufferKind::Geo => "Geo",
            BufferKind::HttpMethod => "HTTP method",
            BufferKind::HeaderName => "header name",
            BufferKind::HeaderValue => "header value",
            BufferKind::Url => "URL",
        }
    }
}

/// A value did not fit the buffer that was offered for it.
///
/// The error names the size that was offered and the size that the value needs, so
/// that the caller can ask again with a larger buffer.
#[derive(Copy, Clone, Debug, PartialEq, Eq, Structural)]
pub struct BufferSizeError {
    /// The size that was offered.
    pub buf_size: usize,
    /// The size that the value needs.
    pub needed_buf_size: usize,
    /// The kind of value.
    pub buffer_kind: BufferKind,
}

impl BufferSizeError {
    pub fn new(buf_size: usize, needed_buf_size: usize, buffer_kind: BufferKind) -> (e: Self)
        ensures
            e == (BufferSizeError { buf_size, needed_buf_size, buffer_kind }),
    {
        BufferSizeError { buf_size, needed_buf_size, buffer_kind }
    }

    pub fn geo(buf_size: usize, needed_buf_size: usize) -> (e: Self)
        ensures
            e == (BufferSizeError { buf_size, needed_buf_size, buffer_kind: BufferKind::Geo }),
    {
        Self::new(buf_size, needed_buf_size, BufferKind::Geo)
    }

    pub fn header_name(buf_size: usize, needed_buf_size: usize) -> (e: Self)
        ensures
            e == (BufferSizeError {
                buf_size,
                needed_buf_size,
                buffer_kind: BufferKind::HeaderName,
            }),
    {
        Self::new(buf_size, needed_buf_size, BufferKind::HeaderName)
    }

    pub fn header_value(buf_size: usize, needed_buf_size: usize) -> (e: Self)
        ensures
            e == (BufferSizeError {
                buf_size,
                needed_buf_size,
                buffer_kind: BufferKind::HeaderValue,
            }),
    {
        Self::new(buf_size, needed_buf_size, BufferKind::HeaderValue)
    }

    pub fn http_method(buf_size: usize, needed_buf_size: usize) -> (e: Self)
        ensures
            e == (BufferSizeError {
                buf_size,
                needed_buf_size,
                buffer_kind: BufferKind::HttpMethod,
            }),
    {
        Self::new(buf_size, needed_buf_size, BufferKind::HttpMethod)
    }

    pub fn url(buf_size: usize, needed_buf_size: usize) -> (e: Self)
        ensures
            e == (BufferSizeError { buf_size, needed_buf_size, buffer_kind: BufferKind::Url }),
    {
        Self::new(buf_size, needed_buf_size, BufferKind::Url)
    }

    /// The text of the error.
    pub open spec fn message_text(self) -> Seq<char> {
        "insufficient buffer size "@ + decimal_digits(self.buf_size as nat) + " for buffer '"@
            + self.buffer_kind.label() + "'; value requires "@ + decimal_digits(
            self.needed_buf_size as nat,
        ) + " bytes"@
    }

    /// The error in words: the size offered, the kind of value, and the size needed.
    pub fn message(&self) -> (r: String)
        ensures
            r@ == self.message_text(),
    {
        let mut out = String::from_str("insufficient buffer size ");
        append_decimal(&mut out, self.buf_size as u64);
        out.append(" for buffer '");
        out.append(self.buffer_kind.as_str());
        out.append("'; value requires ");
        append_decimal(&mut out, self.needed_buf_size as u64);
        out.append(" bytes");
        out
    }
}

/// The kind of resource that a handle stands for.
#[derive(Copy, Clone, Debug, PartialEq, Eq, Structural)]
pub enum HandleKind {
    Response,
    Request,
    Body,
}

impl HandleKind {
    /// The word for this kind.
    pub open spec fn label(self) -> Seq<char> {
        match self {
            HandleKind::Response => "response"@,
            HandleKind::Request => "request"@,
            HandleKind::Body => "body"@,
        }
    }

    /// The word for this kind, as it stands in messages.
    pub fn as_str(&self) -> (r: &'static str)
        ensures
            r@ == self.label(),
    {
        match self {
            HandleKind::Response => "response",
            HandleKind::Request => "request",
            HandleKind::Body => "body",
        }
    }
}

/// A handle could not be used.
#[derive(Copy, Clone, Debug, PartialEq, Eq, Structural)]
pub enum HandleError {
    /// The handle was closed before.
    ClosedHandle(HandleKind),
    /// There is no such handle, or it stands for something else.
    InvalidHandle,
}

impl HandleError {
    /// The text of the error.
    pub open spec fn message_text(self) -> Seq<char> {
        match self {
            HandleError::ClosedHandle(kind) => "handle for "@ + kind.label()
                + " was already closed"@,
            HandleError::InvalidHandle => "handle did not exist or was the wrong type"@,
        }
    }

    /// The error in words.
    pub fn message(&self) -> (r: String)
        ensures
            r@ == self.message_text(),
    {
        match self {
            HandleError::ClosedHandle(kind) => {
                let mut out = String::from_str("handle for ");
                out.append(kind.as_str());
                out.append(" was already closed");
                out
            },
            HandleError::InvalidHandle => String::from_str(
                "handle did not exist or was the wrong type",
            ),
        }
    }
}

} // verus!
