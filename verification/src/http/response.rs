//! HTTP responses.

use crate::backend::builder::text_of;
use crate::backend::Backend;
use crate::convert::{
    header_name_of, header_value_of, Sealed, ToHeaderName, ToHeaderValue, ToStatusCode,
};
use crate::http::body::{
    behind, body_bytes, chunk_views, chunks_of, front, is_text_front, is_valid_up_to,
    utf8_error_len, Body, Prefix, PrefixString, Utf8Error,
};
use crate::http::header::{content_length, content_type, location, HeaderName, HeaderValue};
use crate::http::header_map::{name_views, values_of, views, Headers, MAX_HEADER_NAMES};
use crate::http::mime::{mime_reads_as, InvalidMime, Mime};
use crate::http::request::{
    all_visible, lossy_texts_of, pair_views, pairs_of, string_views, texts_of, Request,
    RequestView,
};
use crate::http::header::visible_header_value;
use crate::http::status::{StatusCode, OK, PERMANENT_REDIRECT, SEE_OTHER, TEMPORARY_REDIRECT};
use crate::http::version::Version;
use crate::shared::{FramingHeadersMode, HttpKeepaliveMode};
use crate::text::{
    ascii_text, decimal_usize, parse_usize, string_from_utf8_lossy, utf8_lossy,
};
use vstd::prelude::*;
use vstd::string::StringSliceAdditionalSpecFns;
use vstd::utf8::{decode_utf8, encode_utf8, valid_utf8};

pub mod handle;

verus! {

/// What is known of a response that a backend sent: the backend, and the request that
/// it answered.
#[derive(Debug)]
pub struct FastlyResponseMetadata {
    backend: Backend,
    sent_req: Option<Request>,
}

/// The view of an optional request.
pub open spec fn request_view(req: Option<Request>) -> Option<RequestView> {
    match req {
        Some(r) => Some(r@),
        None => None,
    }
}

impl FastlyResponseMetadata {
    /// The name of the backend.
    pub closed spec fn backend_name(&self) -> Seq<char> {
        self.backend@
    }

    /// The request that was sent, if it was not taken out.
    pub closed spec fn sent(&self) -> Option<RequestView> {
        request_view(self.sent_req)
    }

    /// The metadata of a response from `backend` to `sent_req`.
    pub fn new(backend: Backend, sent_req: Request) -> (m: Self)
        ensures
            m.backend_name() == backend@,
            m.sent() == Some(sent_req@),
    {
        FastlyResponseMetadata { backend, sent_req: Some(sent_req) }
    }

    /// The backend that sent the response.
    pub fn backend(&self) -> (r: Option<&Backend>)
        ensures
            r matches Some(b) && b@ == self.backend_name(),
    {
        Some(&self.backend)
    }

    /// The request that was sent, if it was not taken out.
    pub fn sent_req(&self) -> (r: Option<&Request>)
        ensures
            match r {
                Some(req) => self.sent() == Some(req@),
                None => self.sent() is None,
            },
    {
        self.sent_req.as_ref()
    }

    /// Takes the request that was sent out of the metadata.
    pub fn take_sent_req(&mut self) -> (r: Option<Request>)
        ensures
            request_view(r) == old(self).sent(),
            final(self).sent() is None,
            final(self).backend_name() == old(self).backend_name(),
    {
        self.sent_req.take()
    }

    /// A copy of the metadata; the request is copied without its body.
    pub fn duplicate(&self) -> (m: Self)
        ensures
            m.backend_name() == self.backend_name(),
            m.sent() == match self.sent() {
                Some(v) => Some(RequestView { body: None, ..v }),
                None => None,
            },
    {
        FastlyResponseMetadata {
            backend: self.backend.clone(),
            sent_req: match &self.sent_req {
                Some(req) => Some(req.clone_without_body()),
                None => None,
            },
        }
    }
}

/// A response, with its head held in the guest's memory.
#[derive(Debug)]
pub struct Response {
    version: Version,
    status: StatusCode,
    headers: Headers,
    body: Option<Body>,
    fastly_metadata: Option<FastlyResponseMetadata>,
    framing_headers_mode: FramingHeadersMode,
    http_keepalive_mode: HttpKeepaliveMode,
}

/// A [`Response`] as plain values.
pub struct ResponseView {
    pub version: Version,
    /// The number of the status.
    pub status: u16,
    /// The values of each header that has some, in the order in which they were added.
    pub headers: Map<Seq<u8>, Seq<Seq<u8>>>,
    /// The bytes of the body, if there is one.
    pub body: Option<Seq<u8>>,
    /// The name of the backend that sent the response, if one did.
    pub backend: Option<Seq<char>>,
    /// The request that the backend answered, if it was not taken out.
    pub sent_req: Option<RequestView>,
    pub framing_headers_mode: FramingHeadersMode,
    pub http_keepalive_mode: HttpKeepaliveMode,
}

impl View for Response {
    type V = ResponseView;

    closed spec fn view(&self) -> ResponseView {
        ResponseView {
            version: self.version,
            status: self.status@,
            headers: self.headers@,
            body: body_bytes(self.body),
            backend: match self.fastly_metadata {
                Some(md) => Some(md.backend_name()),
                None => None,
            },
            sent_req: match self.fastly_metadata {
                Some(md) => md.sent(),
                None => None,
            },
            framing_headers_mode: self.framing_headers_mode,
            http_keepalive_mode: self.http_keepalive_mode,
        }
    }
}

impl ResponseView {
    /// The response that [`Response::new`] makes: status 200, version 1.1, no headers,
    /// no body.
    pub open spec fn initial() -> Self {
        ResponseView {
            version: Version::HTTP_11,
            status: OK,
            headers: Map::empty(),
            body: None,
            backend: None,
            sent_req: None,
            framing_headers_mode: FramingHeadersMode::Automatic,
            http_keepalive_mode: HttpKeepaliveMode::Automatic,
        }
    }

    /// The bytes of the body, none for a body that is absent.
    pub open spec fn body_or_empty(self) -> Seq<u8> {
        match self.body {
            Some(b) => b,
            None => Seq::empty(),
        }
    }

    /// The response with the one value `value` for the header `name`.
    pub open spec fn header_set(self, name: Seq<u8>, value: Seq<u8>) -> Self {
        ResponseView { headers: self.headers.insert(name, seq![value]), ..self }
    }

    /// The response with `value` behind the values of the header `name`.
    pub open spec fn header_appended(self, name: Seq<u8>, value: Seq<u8>) -> Self {
        ResponseView {
            headers: self.headers.insert(name, values_of(self.headers, name).push(value)),
            ..self
        }
    }

    /// The first value of the header `name`.
    pub open spec fn first_value(self, name: Seq<u8>) -> Option<Seq<u8>> {
        if self.headers.contains_key(name) {
            Some(self.headers[name][0])
        } else {
            None
        }
    }

    /// The response with the given body and the given value for `content-type`.
    pub open spec fn with_typed_body(self, body: Seq<u8>, mime: Seq<char>) -> Self {
        ResponseView { body: Some(body), ..self }.header_set(
            "content-type".spec_bytes(),
            encode_utf8(mime),
        )
    }

    /// Whether the response can take another header.
    pub open spec fn has_header_room(self) -> bool {
        self.headers.dom().len() < MAX_HEADER_NAMES
    }

    /// The text of the first value of the header `name`, where the value is printable
    /// ASCII.
    pub open spec fn first_text(self, name: Seq<u8>) -> Option<Seq<char>> {
        match self.first_value(name) {
            Some(v) => Some(ascii_text(v)),
            None => None,
        }
    }

    /// The first value of the header `name` as text in which what is not UTF-8 is
    /// replaced.
    pub open spec fn first_lossy_text(self, name: Seq<u8>) -> Option<Seq<char>> {
        match self.first_value(name) {
            Some(v) => Some(utf8_lossy(v)),
            None => None,
        }
    }

    /// Whether the first value of the header `name`, if there is one, is printable
    /// ASCII.
    pub open spec fn first_is_visible(self, name: Seq<u8>) -> bool {
        self.first_value(name) matches Some(v) ==> visible_header_value(v)
    }

    /// Whether the value of `content-type`, if there is one, is a media type.
    pub open spec fn content_type_is_mime(self) -> bool {
        self.first_value("content-type".spec_bytes()) matches Some(v) ==> visible_header_value(v)
            && exists|text: Seq<char>| mime_reads_as(ascii_text(v), text)
    }

    /// The length that `content-length` gives: the number that the first value of the
    /// header spells, if it is text that spells one.
    pub open spec fn content_length(self) -> Option<usize> {
        match self.first_value("content-length".spec_bytes()) {
            Some(v) => if visible_header_value(v) {
                decimal_usize(v)
            } else {
                None
            },
            None => None,
        }
    }
}

impl Response {
    /// A response with status 200, version 1.1, no headers and no body.
    pub fn new() -> (r: Response)
        ensures
            r@ == ResponseView::initial(),
            r.has_header_room(),
    {
        let status = match StatusCode::from_u16(OK) {
            Ok(s) => s,
            Err(_) => vstd::pervasive::unreached(),
        };
        Response {
            version: Version::HTTP_11,
            status,
            headers: Headers::new(),
            body: None,
            fastly_metadata: None,
            framing_headers_mode: FramingHeadersMode::Automatic,
            http_keepalive_mode: HttpKeepaliveMode::Automatic,
        }
    }

    /// Whether a backend sent the response.
    pub fn is_from_backend(&self) -> (r: bool)
        ensures
            r == self@.backend is Some,
    {
        self.fastly_metadata.is_some()
    }

    /// A copy of the response without its body; the request that was sent is copied
    /// without its body too.
    pub fn clone_without_body(&self) -> (r: Response)
        ensures
            r@ == (ResponseView {
                body: None,
                sent_req: match self@.sent_req {
                    Some(v) => Some(RequestView { body: None, ..v }),
                    None => None,
                },
                ..self@
            }),
    {
        Response {
            version: self.version,
            status: self.status,
            headers: self.headers.clone(),
            body: None,
            fastly_metadata: match &self.fastly_metadata {
                Some(md) => Some(md.duplicate()),
                None => None,
            },
            framing_headers_mode: self.framing_headers_mode,
            http_keepalive_mode: self.http_keepalive_mode,
        }
    }

    /// A response with the given body.
    pub fn from_body(body: Body) -> (r: Response)
        ensures
            r@ == (ResponseView { body: Some(body@), ..ResponseView::initial() }),
            r.has_header_room(),
    {
        Self::new().with_body(body)
    }

    /// A response with the given status.
    pub fn from_status<S: ToStatusCode>(status: S) -> (r: Response)
        requires
            status.is_status(),
        ensures
            r@ == (ResponseView { status: status.status_number(), ..ResponseView::initial() }),
            r.has_header_room(),
    {
        Self::new().with_status(status)
    }

    /// A response that sends the client to `destination` with status 303.
    pub fn see_other<V: ToHeaderValue>(destination: V) -> (r: Response)
        requires
            destination.is_value(),
        ensures
            r@ == (ResponseView { status: SEE_OTHER, ..ResponseView::initial() }).header_appended(
                "location".spec_bytes(),
                destination.value_bytes(),
            ),
    {
        Self::new().with_status(SEE_OTHER).with_header(location(), destination)
    }

    /// A response that sends the client to `destination` with status 308.
    pub fn redirect<V: ToHeaderValue>(destination: V) -> (r: Response)
        requires
            destination.is_value(),
        ensures
            r@ == (ResponseView {
                status: PERMANENT_REDIRECT,
                ..ResponseView::initial()
            }).header_appended("location".spec_bytes(), destination.value_bytes()),
    {
        Self::new().with_status(PERMANENT_REDIRECT).with_header(location(), destination)
    }

    /// A response that sends the client to `destination` with status 307.
    pub fn temporary_redirect<V: ToHeaderValue>(destination: V) -> (r: Response)
        requires
            destination.is_value(),
        ensures
            r@ == (ResponseView {
                status: TEMPORARY_REDIRECT,
                ..ResponseView::initial()
            }).header_appended("location".spec_bytes(), destination.value_bytes()),
    {
        Self::new().with_status(TEMPORARY_REDIRECT).with_header(location(), destination)
    }

    /// The response with another status.
    pub fn with_status<S: ToStatusCode>(self, status: S) -> (r: Response)
        requires
            status.is_status(),
        ensures
            r@ == (ResponseView { status: status.status_number(), ..self@ }),
    {
        let mut r = self;
        r.set_status(status);
        r
    }

    /// The status.
    pub fn get_status(&self) -> (r: StatusCode)
        ensures
            r@ == self@.status,
    {
        self.status
    }

    /// Gives the response another status.
    pub fn set_status<S: ToStatusCode>(&mut self, status: S)
        requires
            status.is_status(),
        ensures
            final(self)@ == (ResponseView { status: status.status_number(), ..old(self)@ }),
    {
        self.status = match status.to_status_code() {
            Some(s) => s,
            None => vstd::pervasive::unreached(),
        };
    }

    /// Says whether the connection may be kept after the response.
    pub fn set_http_keepalive_mode(&mut self, mode: HttpKeepaliveMode)
        ensures
            final(self)@ == (ResponseView { http_keepalive_mode: mode, ..old(self)@ }),
    {
        self.http_keepalive_mode = mode;
    }

    /// The response with another keepalive mode.
    pub fn with_http_keepalive_mode(self, mode: HttpKeepaliveMode) -> (r: Response)
        ensures
            r@ == (ResponseView { http_keepalive_mode: mode, ..self@ }),
    {
        let mut r = self;
        r.set_http_keepalive_mode(mode);
        r
    }

    /// The keepalive mode.
    pub fn get_http_keepalive_mode(&self) -> (r: HttpKeepaliveMode)
        ensures
            r == self@.http_keepalive_mode,
    {
        self.http_keepalive_mode
    }

    /// The name of the backend that sent the response, if one did.
    pub fn get_backend_name(&self) -> (r: Option<&str>)
        ensures
            match r {
                Some(name) => self@.backend == Some(name@),
                None => self@.backend is None,
            },
    {
        match self.get_backend() {
            Some(be) => Some(be.name()),
            None => None,
        }
    }

    /// The backend that sent the response, if one did.
    pub fn get_backend(&self) -> (r: Option<&Backend>)
        ensures
            match r {
                Some(be) => self@.backend == Some(be@),
                None => self@.backend is None,
            },
    {
        match &self.fastly_metadata {
            Some(md) => md.backend(),
            None => None,
        }
    }

    /// The request that the backend answered, if a backend sent the response and the
    /// request was not taken out.
    pub fn get_backend_request(&self) -> (r: Option<&Request>)
        ensures
            match r {
                Some(req) => self@.sent_req == Some(req@),
                None => self@.sent_req is None,
            },
    {
        match &self.fastly_metadata {
            Some(md) => md.sent_req(),
            None => None,
        }
    }

    /// Takes the request that the backend answered out of the response.
    pub fn take_backend_request(&mut self) -> (r: Option<Request>)
        ensures
            request_view(r) == old(self)@.sent_req,
            final(self)@ == (ResponseView { sent_req: None, ..old(self)@ }),
    {
        match self.fastly_metadata.take() {
            Some(md) => {
                let mut md = md;
                let req = md.take_sent_req();
                self.fastly_metadata = Some(md);
                req
            },
            None => None,
        }
    }

    /// Says which backend sent the response, and to which request.
    pub fn set_fastly_metadata(&mut self, md: FastlyResponseMetadata)
        ensures
            final(self)@ == (ResponseView {
                backend: Some(md.backend_name()),
                sent_req: md.sent(),
                ..old(self)@
            }),
    {
        self.fastly_metadata = Some(md);
    }

    /// Whether the response can take another header.
    pub open spec fn has_header_room(&self) -> bool {
        self@.has_header_room()
    }

    /// Tests [`Response::has_header_room`].
    pub fn check_header_room(&self) -> (r: bool)
        ensures
            r == self.has_header_room(),
    {
        self.headers.check_room()
    }

    /// A copy of the response with a copy of its body.
    pub fn clone_with_body(&mut self) -> (r: Response)
        ensures
            r@ == (ResponseView {
                sent_req: match old(self)@.sent_req {
                    Some(v) => Some(RequestView { body: None, ..v }),
                    None => None,
                },
                ..old(self)@
            }),
            final(self)@ == old(self)@,
    {
        let mut new_resp = self.clone_without_body();
        new_resp.body = match &self.body {
            Some(b) => Some(b.clone()),
            None => None,
        };
        new_resp
    }

    /// The response with the given body in place of its own.
    pub fn with_body(self, body: Body) -> (r: Response)
        ensures
            r@ == (ResponseView { body: Some(body@), ..self@ }),
    {
        let mut r = self;
        r.set_body(body);
        r
    }

    /// Whether the response has a body.
    pub fn has_body(&self) -> (r: bool)
        ensures
            r == self@.body is Some,
    {
        self.body.is_some()
    }

    /// Gives the response an empty body if it has none.
    pub fn ensure_body(&mut self)
        ensures
            final(self)@ == (ResponseView { body: Some(old(self)@.body_or_empty()), ..old(self)@ }),
    {
        if self.body.is_none() {
            self.body = Some(Body::new());
        }
    }

    /// Takes up to `length` bytes off the front of the body. A response without a body
    /// gets an empty one.
    pub fn get_body_prefix_mut(&mut self, length: usize) -> (p: Prefix)
        ensures
            p@ == front(old(self)@.body_or_empty(), length),
            final(self)@ == (ResponseView {
                body: Some(behind(old(self)@.body_or_empty(), length)),
                ..old(self)@
            }),
    {
        let mut body = self.take_body();
        let p = body.get_prefix_mut(length);
        self.body = Some(body);
        p
    }

    /// Takes the text of up to `length` bytes off the front of the body; see
    /// [`Body::get_prefix_str_mut`]. A response without a body gets an empty one.
    pub fn get_body_prefix_str_mut(&mut self, length: usize) -> (p: PrefixString)
        requires
            valid_utf8(front(old(self)@.body_or_empty(), length)) || utf8_error_len(
                front(old(self)@.body_or_empty(), length),
            ) is None,
        ensures
            exists|k: int|
                {
                    &&& #[trigger] is_text_front(old(self)@.body_or_empty(), length, k)
                    &&& p@ == decode_utf8(old(self)@.body_or_empty().take(k))
                    &&& final(self)@ == (ResponseView {
                        body: Some(old(self)@.body_or_empty().skip(k)),
                        ..old(self)@
                    })
                },
    {
        let mut body = self.take_body();
        let p = body.get_prefix_str_mut(length);
        self.body = Some(body);
        p
    }

    /// Takes the text of up to `length` bytes off the front of the body; see
    /// [`Body::try_get_prefix_str_mut`]. A response without a body gets an empty one.
    pub fn try_get_body_prefix_str_mut(&mut self, length: usize) -> (r: Result<
        PrefixString,
        Utf8Error,
    >)
        ensures
            match r {
                Ok(p) => exists|k: int|
                    {
                        &&& #[trigger] is_text_front(old(self)@.body_or_empty(), length, k)
                        &&& p@ == decode_utf8(old(self)@.body_or_empty().take(k))
                        &&& final(self)@ == (ResponseView {
                            body: Some(old(self)@.body_or_empty().skip(k)),
                            ..old(self)@
                        })
                    },
                Err(e) => {
                    &&& !valid_utf8(front(old(self)@.body_or_empty(), length))
                    &&& e.error_len == utf8_error_len(front(old(self)@.body_or_empty(), length))
                    &&& e.error_len is Some
                    &&& is_valid_up_to(
                        front(old(self)@.body_or_empty(), length),
                        e.valid_up_to as int,
                    )
                    &&& final(self)@ == (ResponseView {
                        body: Some(old(self)@.body_or_empty()),
                        ..old(self)@
                    })
                },
            },
    {
        let mut body = self.take_body();
        if body.prefix_is_text(length) {
            self.body = Some(body);
            Ok(self.get_body_prefix_str_mut(length))
        } else {
            let r = body.try_get_prefix_str_mut(length);
            self.body = Some(body);
            r
        }
    }

    /// Gives the response the body `body` in place of its own.
    pub fn set_body(&mut self, body: Body)
        ensures
            final(self)@ == (ResponseView { body: Some(body@), ..old(self)@ }),
    {
        self.body = Some(body);
    }

    /// Takes the body out of the response; an empty one where it has none.
    pub fn take_body(&mut self) -> (b: Body)
        ensures
            b@ == old(self)@.body_or_empty(),
            final(self)@ == (ResponseView { body: None, ..old(self)@ }),
    {
        match self.body.take() {
            Some(b) => b,
            None => Body::new(),
        }
    }

    /// Takes the body out of the response, if it has one.
    pub fn try_take_body(&mut self) -> (b: Option<Body>)
        ensures
            body_bytes(b) == old(self)@.body,
            final(self)@ == (ResponseView { body: None, ..old(self)@ }),
    {
        self.body.take()
    }

    /// Puts the bytes of `other` behind the body; `other` becomes the body where the
    /// response has none.
    pub fn append_body(&mut self, other: Body)
        ensures
            final(self)@ == (ResponseView {
                body: Some(old(self)@.body_or_empty() + other@),
                ..old(self)@
            }),
    {
        let mut body = self.take_body();
        body.append(other);
        self.body = Some(body);
    }

    /// The bytes of the body, the response given up.
    pub fn into_body_bytes(self) -> (r: Vec<u8>)
        ensures
            r@ == self@.body_or_empty(),
    {
        let mut this = self;
        this.take_body_bytes()
    }

    /// The body as text, the response given up. The body has to be valid UTF-8.
    pub fn into_body_str(self) -> (r: String)
        requires
            valid_utf8(self@.body_or_empty()),
        ensures
            r@ == decode_utf8(self@.body_or_empty()),
    {
        let mut this = self;
        this.take_body_str()
    }

    /// The body as text, with a replacement character for what is not valid UTF-8.
    pub fn into_body_str_lossy(self) -> (r: String)
        ensures
            r@ == utf8_lossy(self@.body_or_empty()),
    {
        let mut this = self;
        this.take_body_str_lossy()
    }

    /// The body, the response given up; an empty one where it has none.
    pub fn into_body(self) -> (b: Body)
        ensures
            b@ == self@.body_or_empty(),
    {
        let mut this = self;
        this.take_body()
    }

    /// The body, the response given up, if it has one.
    pub fn try_into_body(self) -> (b: Option<Body>)
        ensures
            body_bytes(b) == self@.body,
    {
        self.body
    }

    /// The response with the text as its body and `text/plain; charset=utf-8` as its
    /// content type.
    pub fn with_body_text_plain(self, body: &str) -> (r: Response)
        requires
            self.has_header_room(),
        ensures
            r@ == self@.with_typed_body(body.spec_bytes(), "text/plain; charset=utf-8"@),
    {
        let mut r = self;
        r.set_body_text_plain(body);
        r
    }

    /// Makes the text the body and `text/plain; charset=utf-8` the content type.
    pub fn set_body_text_plain(&mut self, body: &str)
        requires
            old(self).has_header_room(),
        ensures
            final(self)@ == old(self)@.with_typed_body(
                body.spec_bytes(),
                "text/plain; charset=utf-8"@,
            ),
    {
        self.body = Some(Body::from_str(body));
        self.set_content_type(Mime::text_plain_utf_8());
    }

    /// The response with the text as its body and `text/html; charset=utf-8` as its
    /// content type.
    pub fn with_body_text_html(self, body: &str) -> (r: Response)
        requires
            self.has_header_room(),
        ensures
            r@ == self@.with_typed_body(body.spec_bytes(), "text/html; charset=utf-8"@),
    {
        let mut r = self;
        r.set_body_text_html(body);
        r
    }

    /// Makes the text the body and `text/html; charset=utf-8` the content type.
    pub fn set_body_text_html(&mut self, body: &str)
        requires
            old(self).has_header_room(),
        ensures
            final(self)@ == old(self)@.with_typed_body(
                body.spec_bytes(),
                "text/html; charset=utf-8"@,
            ),
    {
        self.body = Some(Body::from_str(body));
        self.set_content_type(Mime::text_html_utf_8());
    }

    /// Takes the body out of the response as text. The body has to be valid UTF-8.
    pub fn take_body_str(&mut self) -> (r: String)
        requires
            valid_utf8(old(self)@.body_or_empty()),
        ensures
            r@ == decode_utf8(old(self)@.body_or_empty()),
            final(self)@ == (ResponseView { body: None, ..old(self)@ }),
    {
        match self.try_take_body() {
            Some(body) => body.into_string(),
            None => {
                let r = String::new();
                assert(decode_utf8(Seq::<u8>::empty()) =~= Seq::<char>::empty()) by {
                    reveal_with_fuel(decode_utf8, 1);
                }
                r
            },
        }
    }

    /// Takes the body out of the response as text, with a replacement character for
    /// what is not valid UTF-8.
    pub fn take_body_str_lossy(&mut self) -> (r: String)
        ensures
            r@ == utf8_lossy(old(self)@.body_or_empty()),
            final(self)@ == (ResponseView { body: None, ..old(self)@ }),
    {
        let body = self.take_body();
        let bytes = body.into_bytes();
        string_from_utf8_lossy(bytes.as_slice())
    }

    /// The response with the bytes as its body and `application/octet-stream` as its
    /// content type.
    pub fn with_body_octet_stream(self, body: &[u8]) -> (r: Response)
        requires
            self.has_header_room(),
        ensures
            r@ == self@.with_typed_body(body@, "application/octet-stream"@),
    {
        let mut r = self;
        r.set_body_octet_stream(body);
        r
    }

    /// Makes the bytes the body and `application/octet-stream` the content type.
    pub fn set_body_octet_stream(&mut self, body: &[u8])
        requires
            old(self).has_header_room(),
        ensures
            final(self)@ == old(self)@.with_typed_body(body@, "application/octet-stream"@),
    {
        self.body = Some(Body::from_bytes(body));
        self.set_content_type(Mime::application_octet_stream());
    }

    /// Takes the bytes of the body out of the response.
    pub fn take_body_bytes(&mut self) -> (r: Vec<u8>)
        ensures
            r@ == old(self)@.body_or_empty(),
            final(self)@ == (ResponseView { body: None, ..old(self)@ }),
    {
        match self.try_take_body() {
            Some(body) => body.into_bytes(),
            None => Vec::new(),
        }
    }

    /// Takes the bytes out of the body in chunks of `chunk_size` bytes, the last one
    /// perhaps shorter. A response without a body gets an empty one.
    pub fn read_body_chunks(&mut self, chunk_size: usize) -> (chunks: Vec<Vec<u8>>)
        ensures
            chunk_views(chunks@) == chunks_of(old(self)@.body_or_empty(), chunk_size),
            final(self)@ == (ResponseView {
                body: Some(
                    if chunk_size == 0 {
                        old(self)@.body_or_empty()
                    } else {
                        Seq::<u8>::empty()
                    },
                ),
                ..old(self)@
            }),
    {
        let mut body = self.take_body();
        let chunks = body.read_chunks(chunk_size);
        self.body = Some(body);
        chunks
    }

    /// The response with the media type as its content type.
    pub fn with_content_type(self, mime: Mime) -> (r: Response)
        requires
            self.has_header_room(),
        ensures
            r@ == self@.header_set("content-type".spec_bytes(), encode_utf8(mime@)),
    {
        let mut r = self;
        r.set_content_type(mime);
        r
    }

    /// Makes the media type the one value of the header `content-type`.
    pub fn set_content_type(&mut self, mime: Mime)
        requires
            old(self).has_header_room(),
        ensures
            final(self)@ == old(self)@.header_set("content-type".spec_bytes(), encode_utf8(mime@)),
    {
        self.headers.insert(content_type(), mime.to_header_value());
    }

    /// The media type that `content-type` gives, if the header is there. Its value has
    /// to be a media type.
    pub fn get_content_type(&self) -> (r: Option<Mime>)
        requires
            self@.content_type_is_mime(),
        ensures
            match r {
                Some(m) => self@.first_value("content-type".spec_bytes()) matches Some(v)
                    && mime_reads_as(ascii_text(v), m@),
                None => self@.first_value("content-type".spec_bytes()) is None,
            },
    {
        match self.headers.get(&content_type()) {
            None => None,
            Some(value) => {
                match value.to_str() {
                    Ok(text) => match Mime::from_str(text) {
                        Ok(m) => Some(m),
                        Err(_) => vstd::pervasive::unreached(),
                    },
                    Err(_) => vstd::pervasive::unreached(),
                }
            },
        }
    }

    /// The media type that `content-type` gives, if the header is there, or an error
    /// where its value is no media type.
    pub fn try_get_content_type(&self) -> (r: Result<Option<Mime>, InvalidMime>)
        ensures
            match r {
                Ok(Some(m)) => self@.first_value("content-type".spec_bytes()) matches Some(v)
                    && mime_reads_as(ascii_text(v), m@),
                Ok(None) => self@.first_value("content-type".spec_bytes()) is None,
                Err(_) => !self@.content_type_is_mime(),
            },
    {
        match self.headers.get(&content_type()) {
            None => Ok(None),
            Some(value) => {
                match value.to_str() {
                    Ok(text) => match Mime::from_str(text) {
                        Ok(_) => Ok(self.get_content_type()),
                        Err(_) => Err(InvalidMime {  }),
                    },
                    Err(_) => Err(InvalidMime {  }),
                }
            },
        }
    }

    /// The length that `content-length` gives, if the header is there and spells a
    /// number.
    pub fn get_content_length(&self) -> (r: Option<usize>)
        ensures
            r == self@.content_length(),
    {
        match self.headers.get(&content_length()) {
            None => None,
            Some(value) => match value.to_str() {
                Ok(text) => parse_usize(text),
                Err(_) => None,
            },
        }
    }

    /// Whether the response has the header.
    pub fn contains_header<N: ToHeaderName>(&self, name: N) -> (r: bool)
        requires
            name.is_name(),
        ensures
            r == self@.headers.contains_key(name.name_bytes()),
    {
        let name = header_name_of(name);
        self.headers.contains_key(&name)
    }

    /// The response with `value` added to the values of the header.
    pub fn with_header<N: ToHeaderName, V: ToHeaderValue>(self, name: N, value: V) -> (r: Response)
        requires
            name.is_name(),
            value.is_value(),
            self.has_header_room(),
        ensures
            r@ == self@.header_appended(name.name_bytes(), value.value_bytes()),
    {
        let mut r = self;
        r.append_header(name, value);
        r
    }

    /// The response with `value` as the one value of the header.
    pub fn with_set_header<N: ToHeaderName, V: ToHeaderValue>(self, name: N, value: V) -> (r:
        Response)
        requires
            name.is_name(),
            value.is_value(),
            self.has_header_room(),
        ensures
            r@ == self@.header_set(name.name_bytes(), value.value_bytes()),
    {
        let mut r = self;
        r.set_header(name, value);
        r
    }

    /// The first value of the header as text. The value has to be printable ASCII.
    pub fn get_header_str<N: ToHeaderName>(&self, name: N) -> (r: Option<String>)
        requires
            name.is_name(),
            self@.first_is_visible(name.name_bytes()),
        ensures
            text_of(r) == self@.first_text(name.name_bytes()),
    {
        match self.get_header(name) {
            Some(value) => match value.to_str() {
                Ok(text) => Some(text.to_owned()),
                Err(_) => vstd::pervasive::unreached(),
            },
            None => None,
        }
    }

    /// The first value of the header as text, with a replacement character for what
    /// is not valid UTF-8.
    pub fn get_header_str_lossy<N: ToHeaderName>(&self, name: N) -> (r: Option<String>)
        requires
            name.is_name(),
        ensures
            text_of(r) == self@.first_lossy_text(name.name_bytes()),
    {
        match self.get_header(name) {
            Some(value) => Some(string_from_utf8_lossy(value.as_bytes())),
            None => None,
        }
    }

    /// The first value of the header.
    pub fn get_header<N: ToHeaderName>(&self, name: N) -> (r: Option<HeaderValue>)
        requires
            name.is_name(),
        ensures
            crate::cache_override::value_bytes(r) == self@.first_value(name.name_bytes()),
    {
        let name = header_name_of(name);
        self.headers.get(&name)
    }

    /// The values of the header as text, in the order in which they were added. The
    /// values have to be printable ASCII.
    pub fn get_header_all_str<N: ToHeaderName>(&self, name: N) -> (r: Vec<String>)
        requires
            name.is_name(),
            all_visible(values_of(self@.headers, name.name_bytes())),
        ensures
            string_views(r@) == texts_of(values_of(self@.headers, name.name_bytes())),
    {
        let values = self.get_header_all(name);
        let ghost expected = values_of(self@.headers, name.name_bytes());
        let mut texts: Vec<String> = Vec::new();
        let mut i: usize = 0;
        while i < values.len()
            invariant
                views(values@) == expected,
                all_visible(expected),
                0 <= i <= values.len(),
                texts.len() == i,
                forall|j: int| 0 <= j < i ==> (#[trigger] texts[j])@ == ascii_text(expected[j]),
            decreases values.len() - i,
        {
            assert(views(values@)[i as int] == values[i as int]@);
            assert(visible_header_value(expected[i as int]));
            match values[i].to_str() {
                Ok(text) => {
                    texts.push(text.to_owned());
                },
                Err(_) => {
                    return vstd::pervasive::unreached();
                },
            }
            i = i + 1;
        }
        assert(string_views(texts@) =~= texts_of(expected));
        texts
    }

    /// The values of the header as text, with a replacement character for what is not
    /// valid UTF-8.
    pub fn get_header_all_str_lossy<N: ToHeaderName>(&self, name: N) -> (r: Vec<String>)
        requires
            name.is_name(),
        ensures
            string_views(r@) == lossy_texts_of(values_of(self@.headers, name.name_bytes())),
    {
        let values = self.get_header_all(name);
        let ghost expected = values_of(self@.headers, name.name_bytes());
        let mut texts: Vec<String> = Vec::new();
        let mut i: usize = 0;
        while i < values.len()
            invariant
                views(values@) == expected,
                0 <= i <= values.len(),
                texts.len() == i,
                forall|j: int| 0 <= j < i ==> (#[trigger] texts[j])@ == utf8_lossy(expected[j]),
            decreases values.len() - i,
        {
            assert(views(values@)[i as int] == values[i as int]@);
            texts.push(string_from_utf8_lossy(values[i].as_bytes()));
            i = i + 1;
        }
        assert(string_views(texts@) =~= lossy_texts_of(expected));
        texts
    }

    /// The values of the header, in the order in which they were added.
    pub fn get_header_all<N: ToHeaderName>(&self, name: N) -> (r: Vec<HeaderValue>)
        requires
            name.is_name(),
        ensures
            views(r@) == values_of(self@.headers, name.name_bytes()),
    {
        let name = header_name_of(name);
        self.headers.get_all(&name)
    }

    /// Every header as pairs of its name and one of its values. The names come in an
    /// order that the map chooses, the values of a name in the order in which they
    /// were added.
    pub fn get_headers(&self) -> (r: Vec<(HeaderName, HeaderValue)>)
        ensures
            exists|names: Seq<Seq<u8>>|
                {
                    &&& names.no_duplicates()
                    &&& names.to_set() == self@.headers.dom()
                    &&& pair_views(r@) == #[trigger] pairs_of(self@.headers, names)
                },
    {
        let names = self.headers.keys();
        let mut pairs: Vec<(HeaderName, HeaderValue)> = Vec::new();
        let mut i: usize = 0;
        while i < names.len()
            invariant
                0 <= i <= names.len(),
                pair_views(pairs@) == pairs_of(self@.headers, name_views(names@).take(i as int)),
            decreases names.len() - i,
        {
            let values = self.headers.get_all(&names[i]);
            let ghost name = names[i as int]@;
            let ghost before = pair_views(pairs@);
            let ghost expected = values_of(self@.headers, name);
            let mut j: usize = 0;
            while j < values.len()
                invariant
                    0 <= i < names.len(),
                    name == names[i as int]@,
                    views(values@) == expected,
                    0 <= j <= values.len(),
                    pair_views(pairs@) == before + Seq::new(j as nat, |k: int| (name, expected[k])),
                decreases values.len() - j,
            {
                assert(views(values@)[j as int] == values[j as int]@);
                let ghost so_far = pair_views(pairs@);
                pairs.push((names[i].clone(), values[j].clone()));
                assert(pair_views(pairs@) =~= so_far.push((name, expected[j as int])));
                assert(so_far.push((name, expected[j as int])) =~= before + Seq::new(
                    (j + 1) as nat,
                    |k: int| (name, expected[k]),
                ));
                j = j + 1;
            }
            proof {
                let taken = name_views(names@).take(i + 1);
                assert(taken.drop_last() =~= name_views(names@).take(i as int));
                assert(taken.last() == name);
                assert(views(values@).len() == values.len());
            }
            i = i + 1;
        }
        proof {
            assert(name_views(names@).take(names.len() as int) =~= name_views(names@));
            assert(pairs_of(self@.headers, name_views(names@)) == pair_views(pairs@));
        }
        pairs
    }

    /// The names of the headers as text, each once, in an order that the map chooses.
    pub fn get_header_names_str(&self) -> (r: Vec<String>)
        ensures
            r.len() == self@.headers.dom().len(),
            exists|names: Seq<Seq<u8>>|
                {
                    &&& names.no_duplicates()
                    &&& names.to_set() == self@.headers.dom()
                    &&& #[trigger] texts_of(names) == string_views(r@)
                },
    {
        let names = self.get_header_names();
        let mut texts: Vec<String> = Vec::new();
        let mut i: usize = 0;
        while i < names.len()
            invariant
                0 <= i <= names.len(),
                texts.len() == i,
                forall|j: int| 0 <= j < i ==> (#[trigger] texts[j])@ == ascii_text(names[j]@),
            decreases names.len() - i,
        {
            texts.push(names[i].as_str().to_owned());
            i = i + 1;
        }
        proof {
            assert(texts_of(name_views(names@)) =~= string_views(texts@));
            name_views(names@).unique_seq_to_set();
        }
        texts
    }

    /// The names of the headers, each once, in an order that the map chooses.
    pub fn get_header_names(&self) -> (r: Vec<HeaderName>)
        ensures
            name_views(r@).no_duplicates(),
            name_views(r@).to_set() == self@.headers.dom(),
    {
        self.headers.keys()
    }

    /// Makes `value` the one value of the header, in place of the values that it has.
    pub fn set_header<N: ToHeaderName, V: ToHeaderValue>(&mut self, name: N, value: V)
        requires
            name.is_name(),
            value.is_value(),
            old(self).has_header_room(),
        ensures
            final(self)@ == old(self)@.header_set(name.name_bytes(), value.value_bytes()),
    {
        self.headers.insert(header_name_of(name), header_value_of(value));
    }

    /// Adds `value` behind the values that the header has.
    pub fn append_header<N: ToHeaderName, V: ToHeaderValue>(&mut self, name: N, value: V)
        requires
            name.is_name(),
            value.is_value(),
            old(self).has_header_room(),
        ensures
            final(self)@ == old(self)@.header_appended(name.name_bytes(), value.value_bytes()),
    {
        self.headers.append(header_name_of(name), header_value_of(value));
    }

    /// Removes the header with all its values and returns the first of them.
    pub fn remove_header<N: ToHeaderName>(&mut self, name: N) -> (r: Option<HeaderValue>)
        requires
            name.is_name(),
        ensures
            crate::cache_override::value_bytes(r) == old(self)@.first_value(name.name_bytes()),
            final(self)@ == (ResponseView {
                headers: old(self)@.headers.remove(name.name_bytes()),
                ..old(self)@
            }),
            old(self).has_header_room() ==> final(self).has_header_room(),
    {
        let name = header_name_of(name);
        self.headers.remove(&name)
    }

    /// Removes the header with all its values and returns the first of them as text.
    /// That value has to be printable ASCII.
    pub fn remove_header_str<N: ToHeaderName>(&mut self, name: N) -> (r: Option<String>)
        requires
            name.is_name(),
            old(self)@.first_is_visible(name.name_bytes()),
        ensures
            text_of(r) == old(self)@.first_text(name.name_bytes()),
            final(self)@ == (ResponseView {
                headers: old(self)@.headers.remove(name.name_bytes()),
                ..old(self)@
            }),
    {
        match self.remove_header(name) {
            Some(value) => match value.to_str() {
                Ok(text) => Some(text.to_owned()),
                Err(_) => vstd::pervasive::unreached(),
            },
            None => None,
        }
    }

    /// Removes the header with all its values and returns the first of them as text,
    /// with a replacement character for what is not valid UTF-8.
    pub fn remove_header_str_lossy<N: ToHeaderName>(&mut self, name: N) -> (r: Option<String>)
        requires
            name.is_name(),
        ensures
            text_of(r) == old(self)@.first_lossy_text(name.name_bytes()),
            final(self)@ == (ResponseView {
                headers: old(self)@.headers.remove(name.name_bytes()),
                ..old(self)@
            }),
    {
        match self.remove_header(name) {
            Some(value) => Some(string_from_utf8_lossy(value.as_bytes())),
            None => None,
        }
    }

    /// The response with another version.
    pub fn with_version(self, version: Version) -> (r: Response)
        ensures
            r@ == (ResponseView { version, ..self@ }),
    {
        let mut r = self;
        r.set_version(version);
        r
    }

    /// The version.
    pub fn get_version(&self) -> (r: Version)
        ensures
            r == self@.version,
    {
        self.version
    }

    /// Gives the response another version.
    pub fn set_version(&mut self, version: Version)
        ensures
            final(self)@ == (ResponseView { version, ..old(self)@ }),
    {
        self.version = version;
    }

    /// Says who decides the framing headers.
    pub fn set_framing_headers_mode(&mut self, mode: FramingHeadersMode)
        ensures
            final(self)@ == (ResponseView { framing_headers_mode: mode, ..old(self)@ }),
    {
        self.framing_headers_mode = mode;
    }

    /// The response with another mode for the framing headers.
    pub fn with_framing_headers_mode(self, mode: FramingHeadersMode) -> (r: Response)
        ensures
            r@ == (ResponseView { framing_headers_mode: mode, ..self@ }),
    {
        let mut r = self;
        r.set_framing_headers_mode(mode);
        r
    }

    /// The mode for the framing headers.
    pub fn get_framing_headers_mode(&self) -> (r: FramingHeadersMode)
        ensures
            r == self@.framing_headers_mode,
    {
        self.framing_headers_mode
    }

    /// The body, to be changed in place. A response without a body gets an empty one.
    pub fn get_body_mut(&mut self) -> (b: &mut Body)
        ensures
            b@ == old(self)@.body_or_empty(),
            final(self)@ == (ResponseView { body: Some(final(b)@), ..old(self)@ }),
    {
        if self.body.is_none() {
            self.body = Some(Body::new());
        }
        match &mut self.body {
            Some(b) => b,
            None => vstd::pervasive::unreached(),
        }
    }

    /// The body, to be changed in place, if the response has one.
    pub fn try_get_body_mut(&mut self) -> (r: Option<&mut Body>)
        ensures
            match r {
                Some(b) => old(self)@.body == Some(b@) && final(self)@ == (ResponseView {
                    body: Some(final(b)@),
                    ..old(self)@
                }),
                None => old(self)@.body is None && final(self)@ == old(self)@,
            },
    {
        match &mut self.body {
            Some(b) => Some(b),
            None => None,
        }
    }
}

} // verus!
