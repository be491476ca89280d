//! HTTP requests.

use crate::cache_override::{CacheOverride, CacheOverrideView};
use crate::convert::{
    header_name_of, header_value_of, method_of, url_of, ToHeaderName, ToHeaderValue, ToMethod,
    ToUrl,
};
use crate::http::body::{
    behind, body_bytes, chunk_views, chunks_of, front, is_text_front, is_valid_up_to,
    utf8_error_len, Body, Prefix, PrefixString, Utf8Error,
};
use crate::backend::builder::text_of;
use crate::http::header::{
    content_length, content_type, visible_header_value, HeaderName, HeaderValue,
};
use crate::http::header_map::{name_views, values_of, views, Headers, MAX_HEADER_NAMES};
use crate::http::method::Method;
use crate::http::mime::{mime_reads_as, InvalidMime, Mime};
use crate::http::url::{
    url_after_path, url_after_query, url_has_authority, url_path, url_path_fits, url_query,
    url_query_fits, url_scheme, Url,
};
use crate::http::version::Version;
use crate::error::BufferSizeError;
use crate::http::response::FastlyResponseMetadata;
use crate::shared::{
    append_decimal, append_signed_decimal, decimal_digits, signed_decimal_digits, FastlyStatus,
    FramingHeadersMode, STATUS_ERROR, STATUS_HTTPHEADTOOLARGE, STATUS_HTTPINCOMPLETE,
    STATUS_HTTPINVALID, STATUS_HTTPINVALIDSTATUS,
};
use vstd::string::StringExecFns;
use crate::text::{
    ascii_text, copy_bytes, decimal_usize, parse_usize, string_from_utf8_lossy, utf8_lossy,
};
use vstd::prelude::*;
use vstd::string::{StrSliceExecFns, StringSliceAdditionalSpecFns};
use vstd::utf8::{decode_utf8, encode_utf8, valid_utf8};

pub mod handle;
pub mod pending;

verus! {

/// Content-encoding bit: gzip.
pub const ENCODING_GZIP: u32 = 1;

/// A request, with its head held in the guest's memory.
#[derive(Debug)]
pub struct Request {
    version: Version,
    method: Method,
    url: Url,
    headers: Headers,
    body: Option<Body>,
    cache_override: CacheOverride,
    is_from_client: bool,
    auto_decompress_response: u32,
    framing_headers_mode: FramingHeadersMode,
    cache_key: Option<[u8; 32]>,
}

/// A [`Request`] as plain values.
pub struct RequestView {
    pub version: Version,
    /// The bytes that spell the method.
    pub method: Seq<u8>,
    /// The text of the URL.
    pub url: Seq<char>,
    /// The values of each header that has some, in the order in which they were added.
    pub headers: Map<Seq<u8>, Seq<Seq<u8>>>,
    /// The bytes of the body, if there is one.
    pub body: Option<Seq<u8>>,
    pub cache_override: CacheOverrideView,
    /// Whether the request came from the client.
    pub is_from_client: bool,
    /// The content encodings that the host is to undo in the response, as bits.
    pub auto_decompress_response: u32,
    pub framing_headers_mode: FramingHeadersMode,
    /// The cache key that overrides the one of the host, if one is set.
    pub cache_key: Option<Seq<u8>>,
}

/// The bytes of an optional key.
pub open spec fn key_bytes(key: Option<[u8; 32]>) -> Option<Seq<u8>> {
    match key {
        Some(k) => Some(k@),
        None => None,
    }
}

impl View for Request {
    type V = RequestView;

    closed spec fn view(&self) -> RequestView {
        RequestView {
            version: self.version,
            method: self.method@,
            url: self.url@,
            headers: self.headers@,
            body: body_bytes(self.body),
            cache_override: self.cache_override@,
            is_from_client: self.is_from_client,
            auto_decompress_response: self.auto_decompress_response,
            framing_headers_mode: self.framing_headers_mode,
            cache_key: key_bytes(self.cache_key),
        }
    }
}

impl RequestView {
    /// The request that [`Request::new`] makes: version 1.1, no headers, no body, and
    /// nothing set about the cache.
    pub open spec fn initial(method: Seq<u8>, url: Seq<char>) -> Self {
        RequestView {
            version: Version::HTTP_11,
            method,
            url,
            headers: Map::empty(),
            body: None,
            cache_override: CacheOverrideView::Unset,
            is_from_client: false,
            auto_decompress_response: 0,
            framing_headers_mode: FramingHeadersMode::Automatic,
            cache_key: None,
        }
    }

    /// The bytes of the body, none for a body that is absent.
    pub open spec fn body_or_empty(self) -> Seq<u8> {
        match self.body {
            Some(b) => b,
            None => Seq::empty(),
        }
    }

    /// The request with the one value `value` for the header `name`.
    pub open spec fn header_set(self, name: Seq<u8>, value: Seq<u8>) -> Self {
        RequestView { headers: self.headers.insert(name, seq![value]), ..self }
    }

    /// The request with `value` behind the values of the header `name`.
    pub open spec fn header_appended(self, name: Seq<u8>, value: Seq<u8>) -> Self {
        RequestView {
            headers: self.headers.insert(name, values_of(self.headers, name).push(value)),
            ..self
        }
    }

    /// The first value of the header `name`.
    pub open spec fn first_value(self, name: Seq<u8>) -> Option<Seq<u8>> {
        if self.headers.contains_key(name) {
            Some(self.headers[name][0])
        } else {
            None
        }
    }

    /// The request with the given body and the given value for `content-type`.
    pub open spec fn with_typed_body(self, body: Seq<u8>, mime: Seq<char>) -> Self {
        RequestView { body: Some(body), ..self }.header_set(
            "content-type".spec_bytes(),
            encode_utf8(mime),
        )
    }

    /// Whether the request can take another header.
    pub open spec fn has_header_room(self) -> bool {
        self.headers.dom().len() < MAX_HEADER_NAMES
    }
}

impl Request {
    /// Whether the request can take another header.
    pub open spec fn has_header_room(&self) -> bool {
        self@.has_header_room()
    }

    /// Tests [`Request::has_header_room`].
    pub fn check_header_room(&self) -> (r: bool)
        ensures
            r == self.has_header_room(),
    {
        self.headers.check_room()
    }

    /// Whether the request came from the client.
    pub fn is_from_client(&self) -> (r: bool)
        ensures
            r == self@.is_from_client,
    {
        self.is_from_client
    }

    /// Marks the request as one that came from the client, or not.
    pub fn set_from_client(&mut self, from_client: bool)
        ensures
            final(self)@ == (RequestView { is_from_client: from_client, ..old(self)@ }),
    {
        self.is_from_client = from_client;
    }

    /// A request with the given method and URL, version 1.1, no headers and no body.
    pub fn new<M: ToMethod, U: ToUrl>(method: M, url: U) -> (r: Request)
        requires
            method.is_method(),
            url.is_url(),
        ensures
            r@ == RequestView::initial(method.method_bytes(), url.url_text()),
            r.has_header_room(),
    {
        let method = method_of(method);
        let url = url_of(url);
        let headers = Headers::new();
        Request {
            version: Version::HTTP_11,
            method,
            url,
            headers,
            body: None,
            cache_override: CacheOverride::default(),
            is_from_client: false,
            auto_decompress_response: 0,
            framing_headers_mode: FramingHeadersMode::Automatic,
            cache_key: None,
        }
    }

    /// A copy of the request without its body.
    pub fn clone_without_body(&self) -> (r: Request)
        ensures
            r@ == (RequestView { body: None, ..self@ }),
    {
        Request {
            version: self.version,
            method: self.method.clone(),
            url: self.url.clone(),
            headers: self.headers.clone(),
            body: None,
            cache_override: self.cache_override.clone(),
            is_from_client: self.is_from_client,
            auto_decompress_response: self.auto_decompress_response,
            framing_headers_mode: self.framing_headers_mode,
            cache_key: self.cache_key,
        }
    }

    /// A copy of the request with a copy of its body.
    pub fn clone_with_body(&mut self) -> (r: Request)
        ensures
            r@ == old(self)@,
            final(self)@ == old(self)@,
    {
        let mut new_req = self.clone_without_body();
        new_req.body = match &self.body {
            Some(b) => Some(b.clone()),
            None => None,
        };
        new_req
    }

    /// A `GET` request for the URL.
    pub fn get<U: ToUrl>(url: U) -> (r: Request)
        requires
            url.is_url(),
        ensures
            r@ == RequestView::initial(Method::GET@, url.url_text()),
            r.has_header_room(),
    {
        Self::new(Method::GET, url)
    }

    /// A `HEAD` request for the URL.
    pub fn head<U: ToUrl>(url: U) -> (r: Request)
        requires
            url.is_url(),
        ensures
            r@ == RequestView::initial(Method::HEAD@, url.url_text()),
            r.has_header_room(),
    {
        Self::new(Method::HEAD, url)
    }

    /// A `POST` request for the URL.
    pub fn post<U: ToUrl>(url: U) -> (r: Request)
        requires
            url.is_url(),
        ensures
            r@ == RequestView::initial(Method::POST@, url.url_text()),
            r.has_header_room(),
    {
        Self::new(Method::POST, url)
    }

    /// A `PUT` request for the URL.
    pub fn put<U: ToUrl>(url: U) -> (r: Request)
        requires
            url.is_url(),
        ensures
            r@ == RequestView::initial(Method::PUT@, url.url_text()),
            r.has_header_room(),
    {
        Self::new(Method::PUT, url)
    }

    /// A `DELETE` request for the URL.
    pub fn delete<U: ToUrl>(url: U) -> (r: Request)
        requires
            url.is_url(),
        ensures
            r@ == RequestView::initial(Method::DELETE@, url.url_text()),
            r.has_header_room(),
    {
        Self::new(Method::DELETE, url)
    }

    /// A `CONNECT` request for the URL.
    pub fn connect<U: ToUrl>(url: U) -> (r: Request)
        requires
            url.is_url(),
        ensures
            r@ == RequestView::initial(Method::CONNECT@, url.url_text()),
            r.has_header_room(),
    {
        Self::new(Method::CONNECT, url)
    }

    /// An `OPTIONS` request for the URL.
    pub fn options<U: ToUrl>(url: U) -> (r: Request)
        requires
            url.is_url(),
        ensures
            r@ == RequestView::initial(Method::OPTIONS@, url.url_text()),
            r.has_header_room(),
    {
        Self::new(Method::OPTIONS, url)
    }

    /// A `TRACE` request for the URL.
    pub fn trace<U: ToUrl>(url: U) -> (r: Request)
        requires
            url.is_url(),
        ensures
            r@ == RequestView::initial(Method::TRACE@, url.url_text()),
            r.has_header_room(),
    {
        Self::new(Method::TRACE, url)
    }

    /// A `PATCH` request for the URL.
    pub fn patch<U: ToUrl>(url: U) -> (r: Request)
        requires
            url.is_url(),
        ensures
            r@ == RequestView::initial(Method::PATCH@, url.url_text()),
            r.has_header_room(),
    {
        Self::new(Method::PATCH, url)
    }

    /// The request with the given body in place of its own.
    pub fn with_body(self, body: Body) -> (r: Request)
        ensures
            r@ == (RequestView { body: Some(body@), ..self@ }),
    {
        let mut r = self;
        r.set_body(body);
        r
    }

    /// Whether the request has a body.
    pub fn has_body(&self) -> (r: bool)
        ensures
            r == self@.body is Some,
    {
        self.body.is_some()
    }

    /// Gives the request an empty body if it has none.
    pub fn ensure_body(&mut self)
        ensures
            final(self)@ == (RequestView { body: Some(old(self)@.body_or_empty()), ..old(self)@ }),
    {
        if self.body.is_none() {
            self.body = Some(Body::new());
        }
    }

    /// Takes up to `length` bytes off the front of the body. A request without a body
    /// gets an empty one.
    pub fn get_body_prefix_mut(&mut self, length: usize) -> (p: Prefix)
        ensures
            p@ == front(old(self)@.body_or_empty(), length),
            final(self)@ == (RequestView {
                body: Some(behind(old(self)@.body_or_empty(), length)),
                ..old(self)@
            }),
    {
        let mut body = self.take_body();
        let p = body.get_prefix_mut(length);
        self.body = Some(body);
        p
    }

    /// Takes the text of up to `length` bytes off the front of the body; see
    /// [`Body::get_prefix_str_mut`]. A request without a body gets an empty one.
    pub fn get_body_prefix_str_mut(&mut self, length: usize) -> (p: PrefixString)
        requires
            valid_utf8(front(old(self)@.body_or_empty(), length)) || utf8_error_len(
                front(old(self)@.body_or_empty(), length),
            ) is None,
        ensures
            exists|k: int|
                {
                    &&& #[trigger] is_text_front(old(self)@.body_or_empty(), length, k)
                    &&& p@ == decode_utf8(old(self)@.body_or_empty().take(k))
                    &&& final(self)@ == (RequestView {
                        body: Some(old(self)@.body_or_empty().skip(k)),
                        ..old(self)@
                    })
                },
    {
        let mut body = self.take_body();
        let p = body.get_prefix_str_mut(length);
        self.body = Some(body);
        p
    }

    /// Takes the text of up to `length` bytes off the front of the body; see
    /// [`Body::try_get_prefix_str_mut`]. A request without a body gets an empty one.
    pub fn try_get_body_prefix_str_mut(&mut self, length: usize) -> (r: Result<
        PrefixString,
        Utf8Error,
    >)
        ensures
            match r {
                Ok(p) => exists|k: int|
                    {
                        &&& #[trigger] is_text_front(old(self)@.body_or_empty(), length, k)
                        &&& p@ == decode_utf8(old(self)@.body_or_empty().take(k))
                        &&& final(self)@ == (RequestView {
                            body: Some(old(self)@.body_or_empty().skip(k)),
                            ..old(self)@
                        })
                    },
                Err(e) => {
                    &&& !valid_utf8(front(old(self)@.body_or_empty(), length))
                    &&& e.error_len == utf8_error_len(front(old(self)@.body_or_empty(), length))
                    &&& e.error_len is Some
                    &&& is_valid_up_to(
                        front(old(self)@.body_or_empty(), length),
                        e.valid_up_to as int,
                    )
                    &&& final(self)@ == (RequestView {
                        body: Some(old(self)@.body_or_empty()),
                        ..old(self)@
                    })
                },
            },
    {
        let mut body = self.take_body();
        if body.prefix_is_text(length) {
            self.body = Some(body);
            Ok(self.get_body_prefix_str_mut(length))
        } else {
            let r = body.try_get_prefix_str_mut(length);
            self.body = Some(body);
            r
        }
    }

    /// Gives the request the body `body` in place of its own.
    pub fn set_body(&mut self, body: Body)
        ensures
            final(self)@ == (RequestView { body: Some(body@), ..old(self)@ }),
    {
        self.body = Some(body);
    }

    /// Takes the body out of the request; an empty one where it has none.
    pub fn take_body(&mut self) -> (b: Body)
        ensures
            b@ == old(self)@.body_or_empty(),
            final(self)@ == (RequestView { body: None, ..old(self)@ }),
    {
        match self.body.take() {
            Some(b) => b,
            None => Body::new(),
        }
    }

    /// Takes the body out of the request, if it has one.
    pub fn try_take_body(&mut self) -> (b: Option<Body>)
        ensures
            body_bytes(b) == old(self)@.body,
            final(self)@ == (RequestView { body: None, ..old(self)@ }),
    {
        self.body.take()
    }

    /// Puts the bytes of `other` behind the body; `other` becomes the body where the
    /// request has none.
    pub fn append_body(&mut self, other: Body)
        ensures
            final(self)@ == (RequestView {
                body: Some(old(self)@.body_or_empty() + other@),
                ..old(self)@
            }),
    {
        let mut body = self.take_body();
        body.append(other);
        self.body = Some(body);
    }

    /// The bytes of the body, the request given up.
    pub fn into_body_bytes(self) -> (r: Vec<u8>)
        ensures
            r@ == self@.body_or_empty(),
    {
        let mut this = self;
        this.take_body_bytes()
    }

    /// The body as text, the request given up. The body has to be valid UTF-8.
    pub fn into_body_str(self) -> (r: String)
        requires
            valid_utf8(self@.body_or_empty()),
        ensures
            r@ == decode_utf8(self@.body_or_empty()),
    {
        let mut this = self;
        this.take_body_str()
    }

    /// The body as text, with a replacement character for what is not valid UTF-8.
    pub fn into_body_str_lossy(self) -> (r: String)
        ensures
            r@ == utf8_lossy(self@.body_or_empty()),
    {
        let mut this = self;
        this.take_body_str_lossy()
    }

    /// The body, the request given up; an empty one where it has none.
    pub fn into_body(self) -> (b: Body)
        ensures
            b@ == self@.body_or_empty(),
    {
        let mut this = self;
        this.take_body()
    }

    /// The body, the request given up, if it has one.
    pub fn try_into_body(self) -> (b: Option<Body>)
        ensures
            body_bytes(b) == self@.body,
    {
        self.body
    }

    /// The request with the text as its body and `text/plain; charset=utf-8` as its
    /// content type.
    pub fn with_body_text_plain(self, body: &str) -> (r: Request)
        requires
            self.has_header_room(),
        ensures
            r@ == self@.with_typed_body(body.spec_bytes(), "text/plain; charset=utf-8"@),
    {
        let mut r = self;
        r.set_body_text_plain(body);
        r
    }

    /// Makes the text the body and `text/plain; charset=utf-8` the content type.
    pub fn set_body_text_plain(&mut self, body: &str)
        requires
            old(self).has_header_room(),
        ensures
            final(self)@ == old(self)@.with_typed_body(
                body.spec_bytes(),
                "text/plain; charset=utf-8"@,
            ),
    {
        self.body = Some(Body::from_str(body));
        self.set_content_type(Mime::text_plain_utf_8());
    }

    /// The request with the text as its body and `text/html; charset=utf-8` as its
    /// content type.
    pub fn with_body_text_html(self, body: &str) -> (r: Request)
        requires
            self.has_header_room(),
        ensures
            r@ == self@.with_typed_body(body.spec_bytes(), "text/html; charset=utf-8"@),
    {
        let mut r = self;
        r.set_body_text_html(body);
        r
    }

    /// Makes the text the body and `text/html; charset=utf-8` the content type.
    pub fn set_body_text_html(&mut self, body: &str)
        requires
            old(self).has_header_room(),
        ensures
            final(self)@ == old(self)@.with_typed_body(
                body.spec_bytes(),
                "text/html; charset=utf-8"@,
            ),
    {
        self.body = Some(Body::from_str(body));
        self.set_content_type(Mime::text_html_utf_8());
    }

    /// Takes the body out of the request as text. The body has to be valid UTF-8.
    pub fn take_body_str(&mut self) -> (r: String)
        requires
            valid_utf8(old(self)@.body_or_empty()),
        ensures
            r@ == decode_utf8(old(self)@.body_or_empty()),
            final(self)@ == (RequestView { body: None, ..old(self)@ }),
    {
        match self.try_take_body() {
            Some(body) => body.into_string(),
            None => {
                let r = String::new();
                assert(decode_utf8(Seq::<u8>::empty()) =~= Seq::<char>::empty()) by {
                    reveal_with_fuel(decode_utf8, 1);
                }
                r
            },
        }
    }

    /// Takes the body out of the request as text, with a replacement character for
    /// what is not valid UTF-8.
    pub fn take_body_str_lossy(&mut self) -> (r: String)
        ensures
            r@ == utf8_lossy(old(self)@.body_or_empty()),
            final(self)@ == (RequestView { body: None, ..old(self)@ }),
    {
        let body = self.take_body();
        let bytes = body.into_bytes();
        string_from_utf8_lossy(bytes.as_slice())
    }

    /// The request with the bytes as its body and `application/octet-stream` as its
    /// content type.
    pub fn with_body_octet_stream(self, body: &[u8]) -> (r: Request)
        requires
            self.has_header_room(),
        ensures
            r@ == self@.with_typed_body(body@, "application/octet-stream"@),
    {
        let mut r = self;
        r.set_body_octet_stream(body);
        r
    }

    /// Makes the bytes the body and `application/octet-stream` the content type.
    pub fn set_body_octet_stream(&mut self, body: &[u8])
        requires
            old(self).has_header_room(),
        ensures
            final(self)@ == old(self)@.with_typed_body(body@, "application/octet-stream"@),
    {
        self.body = Some(Body::from_bytes(body));
        self.set_content_type(Mime::application_octet_stream());
    }

    /// Takes the bytes of the body out of the request.
    pub fn take_body_bytes(&mut self) -> (r: Vec<u8>)
        ensures
            r@ == old(self)@.body_or_empty(),
            final(self)@ == (RequestView { body: None, ..old(self)@ }),
    {
        match self.try_take_body() {
            Some(body) => body.into_bytes(),
            None => Vec::new(),
        }
    }

    /// Takes the bytes out of the body in chunks of `chunk_size` bytes, the last one
    /// perhaps shorter. A request without a body gets an empty one.
    pub fn read_body_chunks(&mut self, chunk_size: usize) -> (chunks: Vec<Vec<u8>>)
        ensures
            chunk_views(chunks@) == chunks_of(old(self)@.body_or_empty(), chunk_size),
            final(self)@ == (RequestView {
                body: Some(
                    if chunk_size == 0 {
                        old(self)@.body_or_empty()
                    } else {
                        Seq::<u8>::empty()
                    },
                ),
                ..old(self)@
            }),
    {
        let mut body = self.take_body();
        let chunks = body.read_chunks(chunk_size);
        self.body = Some(body);
        chunks
    }

    /// The request with the media type as its content type.
    pub fn with_content_type(self, mime: Mime) -> (r: Request)
        requires
            self.has_header_room(),
        ensures
            r@ == self@.header_set("content-type".spec_bytes(), encode_utf8(mime@)),
    {
        let mut r = self;
        r.set_content_type(mime);
        r
    }

    /// Makes the media type the one value of the header `content-type`.
    pub fn set_content_type(&mut self, mime: Mime)
        requires
            old(self).has_header_room(),
        ensures
            final(self)@ == old(self)@.header_set("content-type".spec_bytes(), encode_utf8(mime@)),
    {
        self.headers.insert(content_type(), mime.to_header_value());
    }
}

/// The text of each header value that is printable ASCII.
pub open spec fn texts_of(values: Seq<Seq<u8>>) -> Seq<Seq<char>> {
    Seq::new(values.len(), |i: int| ascii_text(values[i]))
}

/// The text that bytes are read as where what is not UTF-8 is replaced, for each value.
pub open spec fn lossy_texts_of(values: Seq<Seq<u8>>) -> Seq<Seq<char>> {
    Seq::new(values.len(), |i: int| utf8_lossy(values[i]))
}

/// The characters of each text.
pub open spec fn string_views(texts: Seq<String>) -> Seq<Seq<char>> {
    Seq::new(texts.len(), |i: int| texts[i]@)
}

/// Whether every value is printable ASCII.
pub open spec fn all_visible(values: Seq<Seq<u8>>) -> bool {
    forall|i: int| 0 <= i < values.len() ==> visible_header_value(#[trigger] values[i])
}

/// The headers of the given names as pairs of a name and a value: the names in the
/// given order, the values of a name in the order in which they were added.
pub open spec fn pairs_of(headers: Map<Seq<u8>, Seq<Seq<u8>>>, names: Seq<Seq<u8>>) -> Seq<
    (Seq<u8>, Seq<u8>),
>
    decreases names.len(),
{
    if names.len() == 0 {
        Seq::empty()
    } else {
        pairs_of(headers, names.drop_last()) + Seq::new(
            values_of(headers, names.last()).len(),
            |i: int| (names.last(), values_of(headers, names.last())[i]),
        )
    }
}

/// The bytes of each name and value.
pub open spec fn pair_views(pairs: Seq<(HeaderName, HeaderValue)>) -> Seq<(Seq<u8>, Seq<u8>)> {
    Seq::new(pairs.len(), |i: int| (pairs[i].0@, pairs[i].1@))
}

impl RequestView {
    /// The text of the first value of the header `name`, where the value is printable
    /// ASCII.
    pub open spec fn first_text(self, name: Seq<u8>) -> Option<Seq<char>> {
        match self.first_value(name) {
            Some(v) => Some(ascii_text(v)),
            None => None,
        }
    }

    /// The first value of the header `name` as text in which what is not UTF-8 is
    /// replaced.
    pub open spec fn first_lossy_text(self, name: Seq<u8>) -> Option<Seq<char>> {
        match self.first_value(name) {
            Some(v) => Some(utf8_lossy(v)),
            None => None,
        }
    }

    /// Whether the first value of the header `name`, if there is one, is printable
    /// ASCII.
    pub open spec fn first_is_visible(self, name: Seq<u8>) -> bool {
        self.first_value(name) matches Some(v) ==> visible_header_value(v)
    }

    /// Whether the value of `content-type`, if there is one, is a media type.
    pub open spec fn content_type_is_mime(self) -> bool {
        self.first_value("content-type".spec_bytes()) matches Some(v) ==> visible_header_value(v)
            && exists|text: Seq<char>| mime_reads_as(ascii_text(v), text)
    }

    /// The length that `content-length` gives: the number that the first value of the
    /// header spells, if it is text that spells one.
    pub open spec fn content_length(self) -> Option<usize> {
        match self.first_value("content-length".spec_bytes()) {
            Some(v) => if visible_header_value(v) {
                decimal_usize(v)
            } else {
                None
            },
            None => None,
        }
    }
}

impl Request {
    /// The media type that `content-type` gives, if the header is there. Its value has
    /// to be a media type.
    pub fn get_content_type(&self) -> (r: Option<Mime>)
        requires
            self@.content_type_is_mime(),
        ensures
            match r {
                Some(m) => self@.first_value("content-type".spec_bytes()) matches Some(v)
                    && mime_reads_as(ascii_text(v), m@),
                None => self@.first_value("content-type".spec_bytes()) is None,
            },
    {
        match self.headers.get(&content_type()) {
            None => None,
            Some(value) => {
                match value.to_str() {
                    Ok(text) => match Mime::from_str(text) {
                        Ok(m) => Some(m),
                        Err(_) => vstd::pervasive::unreached(),
                    },
                    Err(_) => vstd::pervasive::unreached(),
                }
            },
        }
    }

    /// The media type that `content-type` gives, if the header is there, or an error
    /// where its value is no media type.
    pub fn try_get_content_type(&self) -> (r: Result<Option<Mime>, InvalidMime>)
        ensures
            match r {
                Ok(Some(m)) => self@.first_value("content-type".spec_bytes()) matches Some(v)
                    && mime_reads_as(ascii_text(v), m@),
                Ok(None) => self@.first_value("content-type".spec_bytes()) is None,
                Err(_) => !self@.content_type_is_mime(),
            },
    {
        match self.headers.get(&content_type()) {
            None => Ok(None),
            Some(value) => {
                match value.to_str() {
                    Ok(text) => match Mime::from_str(text) {
                        Ok(_) => Ok(self.get_content_type()),
                        Err(_) => Err(InvalidMime {  }),
                    },
                    Err(_) => Err(InvalidMime {  }),
                }
            },
        }
    }

    /// The length that `content-length` gives, if the header is there and spells a
    /// number.
    pub fn get_content_length(&self) -> (r: Option<usize>)
        ensures
            r == self@.content_length(),
    {
        match self.headers.get(&content_length()) {
            None => None,
            Some(value) => match value.to_str() {
                Ok(text) => parse_usize(text),
                Err(_) => None,
            },
        }
    }

    /// Whether the request has the header.
    pub fn contains_header<N: ToHeaderName>(&self, name: N) -> (r: bool)
        requires
            name.is_name(),
        ensures
            r == self@.headers.contains_key(name.name_bytes()),
    {
        let name = header_name_of(name);
        self.headers.contains_key(&name)
    }

    /// The request with `value` added to the values of the header.
    pub fn with_header<N: ToHeaderName, V: ToHeaderValue>(self, name: N, value: V) -> (r: Request)
        requires
            name.is_name(),
            value.is_value(),
            self.has_header_room(),
        ensures
            r@ == self@.header_appended(name.name_bytes(), value.value_bytes()),
    {
        let mut r = self;
        r.append_header(name, value);
        r
    }

    /// The request with `value` as the one value of the header.
    pub fn with_set_header<N: ToHeaderName, V: ToHeaderValue>(self, name: N, value: V) -> (r:
        Request)
        requires
            name.is_name(),
            value.is_value(),
            self.has_header_room(),
        ensures
            r@ == self@.header_set(name.name_bytes(), value.value_bytes()),
    {
        let mut r = self;
        r.set_header(name, value);
        r
    }

    /// The first value of the header as text. The value has to be printable ASCII.
    pub fn get_header_str<N: ToHeaderName>(&self, name: N) -> (r: Option<String>)
        requires
            name.is_name(),
            self@.first_is_visible(name.name_bytes()),
        ensures
            text_of(r) == self@.first_text(name.name_bytes()),
    {
        match self.get_header(name) {
            Some(value) => match value.to_str() {
                Ok(text) => Some(text.to_owned()),
                Err(_) => vstd::pervasive::unreached(),
            },
            None => None,
        }
    }

    /// The first value of the header as text, with a replacement character for what
    /// is not valid UTF-8.
    pub fn get_header_str_lossy<N: ToHeaderName>(&self, name: N) -> (r: Option<String>)
        requires
            name.is_name(),
        ensures
            text_of(r) == self@.first_lossy_text(name.name_bytes()),
    {
        match self.get_header(name) {
            Some(value) => Some(string_from_utf8_lossy(value.as_bytes())),
            None => None,
        }
    }

    /// The first value of the header.
    pub fn get_header<N: ToHeaderName>(&self, name: N) -> (r: Option<HeaderValue>)
        requires
            name.is_name(),
        ensures
            crate::cache_override::value_bytes(r) == self@.first_value(name.name_bytes()),
    {
        let name = header_name_of(name);
        self.headers.get(&name)
    }

    /// The values of the header as text, in the order in which they were added. The
    /// values have to be printable ASCII.
    pub fn get_header_all_str<N: ToHeaderName>(&self, name: N) -> (r: Vec<String>)
        requires
            name.is_name(),
            all_visible(values_of(self@.headers, name.name_bytes())),
        ensures
            string_views(r@) == texts_of(values_of(self@.headers, name.name_bytes())),
    {
        let values = self.get_header_all(name);
        let ghost expected = values_of(self@.headers, name.name_bytes());
        let mut texts: Vec<String> = Vec::new();
        let mut i: usize = 0;
        while i < values.len()
            invariant
                views(values@) == expected,
                all_visible(expected),
                0 <= i <= values.len(),
                texts.len() == i,
                forall|j: int| 0 <= j < i ==> (#[trigger] texts[j])@ == ascii_text(expected[j]),
            decreases values.len() - i,
        {
            assert(views(values@)[i as int] == values[i as int]@);
            assert(visible_header_value(expected[i as int]));
            match values[i].to_str() {
                Ok(text) => {
                    texts.push(text.to_owned());
                },
                Err(_) => {
                    return vstd::pervasive::unreached();
                },
            }
            i = i + 1;
        }
        assert(string_views(texts@) =~= texts_of(expected));
        texts
    }

    /// The values of the header as text, with a replacement character for what is not
    /// valid UTF-8.
    pub fn get_header_all_str_lossy<N: ToHeaderName>(&self, name: N) -> (r: Vec<String>)
        requires
            name.is_name(),
        ensures
            string_views(r@) == lossy_texts_of(values_of(self@.headers, name.name_bytes())),
    {
        let values = self.get_header_all(name);
        let ghost expected = values_of(self@.headers, name.name_bytes());
        let mut texts: Vec<String> = Vec::new();
        let mut i: usize = 0;
        while i < values.len()
            invariant
                views(values@) == expected,
                0 <= i <= values.len(),
                texts.len() == i,
                forall|j: int| 0 <= j < i ==> (#[trigger] texts[j])@ == utf8_lossy(expected[j]),
            decreases values.len() - i,
        {
            assert(views(values@)[i as int] == values[i as int]@);
            texts.push(string_from_utf8_lossy(values[i].as_bytes()));
            i = i + 1;
        }
        assert(string_views(texts@) =~= lossy_texts_of(expected));
        texts
    }

    /// The values of the header, in the order in which they were added.
    pub fn get_header_all<N: ToHeaderName>(&self, name: N) -> (r: Vec<HeaderValue>)
        requires
            name.is_name(),
        ensures
            views(r@) == values_of(self@.headers, name.name_bytes()),
    {
        let name = header_name_of(name);
        self.headers.get_all(&name)
    }

    /// Every header as pairs of its name and one of its values. The names come in an
    /// order that the map chooses, the values of a name in the order in which they
    /// were added.
    pub fn get_headers(&self) -> (r: Vec<(HeaderName, HeaderValue)>)
        ensures
            exists|names: Seq<Seq<u8>>|
                {
                    &&& names.no_duplicates()
                    &&& names.to_set() == self@.headers.dom()
                    &&& pair_views(r@) == #[trigger] pairs_of(self@.headers, names)
                },
    {
        let names = self.headers.keys();
        let mut pairs: Vec<(HeaderName, HeaderValue)> = Vec::new();
        let mut i: usize = 0;
        while i < names.len()
            invariant
                0 <= i <= names.len(),
                pair_views(pairs@) == pairs_of(self@.headers, name_views(names@).take(i as int)),
            decreases names.len() - i,
        {
            let values = self.headers.get_all(&names[i]);
            let ghost name = names[i as int]@;
            let ghost before = pair_views(pairs@);
            let ghost expected = values_of(self@.headers, name);
            let mut j: usize = 0;
            while j < values.len()
                invariant
                    0 <= i < names.len(),
                    name == names[i as int]@,
                    views(values@) == expected,
                    0 <= j <= values.len(),
                    pair_views(pairs@) == before + Seq::new(j as nat, |k: int| (name, expected[k])),
                decreases values.len() - j,
            {
                assert(views(values@)[j as int] == values[j as int]@);
                let ghost so_far = pair_views(pairs@);
                pairs.push((names[i].clone(), values[j].clone()));
                assert(pair_views(pairs@) =~= so_far.push((name, expected[j as int])));
                assert(so_far.push((name, expected[j as int])) =~= before + Seq::new(
                    (j + 1) as nat,
                    |k: int| (name, expected[k]),
                ));
                j = j + 1;
            }
            proof {
                let taken = name_views(names@).take(i + 1);
                assert(taken.drop_last() =~= name_views(names@).take(i as int));
                assert(taken.last() == name);
                assert(views(values@).len() == values.len());
            }
            i = i + 1;
        }
        proof {
            assert(name_views(names@).take(names.len() as int) =~= name_views(names@));
            assert(pairs_of(self@.headers, name_views(names@)) == pair_views(pairs@));
        }
        pairs
    }

    /// The names of the headers as text, each once, in an order that the map chooses.
    pub fn get_header_names_str(&self) -> (r: Vec<String>)
        ensures
            r.len() == self@.headers.dom().len(),
            exists|names: Seq<Seq<u8>>|
                {
                    &&& names.no_duplicates()
                    &&& names.to_set() == self@.headers.dom()
                    &&& #[trigger] texts_of(names) == string_views(r@)
                },
    {
        let names = self.get_header_names();
        let mut texts: Vec<String> = Vec::new();
        let mut i: usize = 0;
        while i < names.len()
            invariant
                0 <= i <= names.len(),
                texts.len() == i,
                forall|j: int| 0 <= j < i ==> (#[trigger] texts[j])@ == ascii_text(names[j]@),
            decreases names.len() - i,
        {
            texts.push(names[i].as_str().to_owned());
            i = i + 1;
        }
        proof {
            assert(texts_of(name_views(names@)) =~= string_views(texts@));
            name_views(names@).unique_seq_to_set();
        }
        texts
    }

    /// The names of the headers, each once, in an order that the map chooses.
    pub fn get_header_names(&self) -> (r: Vec<HeaderName>)
        ensures
            name_views(r@).no_duplicates(),
            name_views(r@).to_set() == self@.headers.dom(),
    {
        self.headers.keys()
    }

    /// Makes `value` the one value of the header, in place of the values that it has.
    pub fn set_header<N: ToHeaderName, V: ToHeaderValue>(&mut self, name: N, value: V)
        requires
            name.is_name(),
            value.is_value(),
            old(self).has_header_room(),
        ensures
            final(self)@ == old(self)@.header_set(name.name_bytes(), value.value_bytes()),
    {
        self.headers.insert(header_name_of(name), header_value_of(value));
    }

    /// Adds `value` behind the values that the header has.
    pub fn append_header<N: ToHeaderName, V: ToHeaderValue>(&mut self, name: N, value: V)
        requires
            name.is_name(),
            value.is_value(),
            old(self).has_header_room(),
        ensures
            final(self)@ == old(self)@.header_appended(name.name_bytes(), value.value_bytes()),
    {
        self.headers.append(header_name_of(name), header_value_of(value));
    }

    /// Removes the header with all its values and returns the first of them.
    pub fn remove_header<N: ToHeaderName>(&mut self, name: N) -> (r: Option<HeaderValue>)
        requires
            name.is_name(),
        ensures
            crate::cache_override::value_bytes(r) == old(self)@.first_value(name.name_bytes()),
            final(self)@ == (RequestView {
                headers: old(self)@.headers.remove(name.name_bytes()),
                ..old(self)@
            }),
            old(self).has_header_room() ==> final(self).has_header_room(),
    {
        let name = header_name_of(name);
        self.headers.remove(&name)
    }

    /// Removes the header with all its values and returns the first of them as text.
    /// That value has to be printable ASCII.
    pub fn remove_header_str<N: ToHeaderName>(&mut self, name: N) -> (r: Option<String>)
        requires
            name.is_name(),
            old(self)@.first_is_visible(name.name_bytes()),
        ensures
            text_of(r) == old(self)@.first_text(name.name_bytes()),
            final(self)@ == (RequestView {
                headers: old(self)@.headers.remove(name.name_bytes()),
                ..old(self)@
            }),
    {
        match self.remove_header(name) {
            Some(value) => match value.to_str() {
                Ok(text) => Some(text.to_owned()),
                Err(_) => vstd::pervasive::unreached(),
            },
            None => None,
        }
    }

    /// Removes the header with all its values and returns the first of them as text,
    /// with a replacement character for what is not valid UTF-8.
    pub fn remove_header_str_lossy<N: ToHeaderName>(&mut self, name: N) -> (r: Option<String>)
        requires
            name.is_name(),
        ensures
            text_of(r) == old(self)@.first_lossy_text(name.name_bytes()),
            final(self)@ == (RequestView {
                headers: old(self)@.headers.remove(name.name_bytes()),
                ..old(self)@
            }),
    {
        match self.remove_header(name) {
            Some(value) => Some(string_from_utf8_lossy(value.as_bytes())),
            None => None,
        }
    }
}

/// The text that is sent where a request cannot be sent for want of a scheme or a host.
pub open spec fn unsendable_message() -> Seq<char> {
    "request URIs must have a scheme (http/https) and an authority (host)"@
}

/// The characters in lower case, as far as they are ASCII letters.
pub open spec fn ascii_lowercase(text: Seq<char>) -> Seq<char> {
    Seq::new(
        text.len(),
        |i: int|
            if 'A' <= text[i] <= 'Z' {
                ((text[i] as u8 + 32) as u8) as char
            } else {
                text[i]
            },
    )
}

impl RequestView {
    /// Whether the request can be sent: its URL has the scheme `http` or `https`, in
    /// any case, and an authority.
    pub open spec fn is_sendable(self) -> bool {
        &&& url_has_authority(self.url)
        &&& (ascii_lowercase(url_scheme(self.url)) == "http"@ || ascii_lowercase(
            url_scheme(self.url),
        ) == "https"@)
    }

    /// The content encodings with gzip switched on or off.
    pub open spec fn gzip_set(self, gzip: bool) -> u32 {
        if gzip {
            self.auto_decompress_response | ENCODING_GZIP
        } else {
            self.auto_decompress_response & !ENCODING_GZIP
        }
    }
}

fn is_http_scheme(scheme: &str) -> (r: bool)
    ensures
        r == (ascii_lowercase(scheme@) == "http"@ || ascii_lowercase(scheme@) == "https"@),
{
    proof {
        reveal_strlit("http");
        reveal_strlit("https");
    }
    let n = scheme.unicode_len();
    assert(ascii_lowercase(scheme@).len() == n);
    if n != 4 && n != 5 {
        return false;
    }
    let c0 = scheme.get_char(0);
    let c1 = scheme.get_char(1);
    let c2 = scheme.get_char(2);
    let c3 = scheme.get_char(3);
    let ghost low = ascii_lowercase(scheme@);
    assert(low.len() == n);
    assert(low[0] == 'h' <==> (c0 == 'h' || c0 == 'H'));
    assert(low[1] == 't' <==> (c1 == 't' || c1 == 'T'));
    assert(low[2] == 't' <==> (c2 == 't' || c2 == 'T'));
    assert(low[3] == 'p' <==> (c3 == 'p' || c3 == 'P'));
    let head = (c0 == 'h' || c0 == 'H') && (c1 == 't' || c1 == 'T') && (c2 == 't' || c2 == 'T') && (
    c3 == 'p' || c3 == 'P');
    if n == 4 {
        assert(head ==> low =~= "http"@);
        head
    } else {
        let c4 = scheme.get_char(4);
        assert(low[4] == 's' <==> (c4 == 's' || c4 == 'S'));
        assert(head && (c4 == 's' || c4 == 'S') ==> low =~= "https"@);
        head && (c4 == 's' || c4 == 'S')
    }
}

impl Request {
    /// The request with another method.
    pub fn with_method<M: ToMethod>(self, method: M) -> (r: Request)
        requires
            method.is_method(),
        ensures
            r@ == (RequestView { method: method.method_bytes(), ..self@ }),
    {
        let mut r = self;
        r.set_method(method);
        r
    }

    /// The method as text.
    pub fn get_method_str(&self) -> (r: String)
        ensures
            r@ == ascii_text(self@.method),
    {
        self.method.as_str()
    }

    /// The method.
    pub fn get_method(&self) -> (r: &Method)
        ensures
            r@ == self@.method,
    {
        &self.method
    }

    /// Gives the request another method.
    pub fn set_method<M: ToMethod>(&mut self, method: M)
        requires
            method.is_method(),
        ensures
            final(self)@ == (RequestView { method: method.method_bytes(), ..old(self)@ }),
    {
        self.method = method_of(method);
    }

    /// The request with another URL.
    pub fn with_url<U: ToUrl>(self, url: U) -> (r: Request)
        requires
            url.is_url(),
        ensures
            r@ == (RequestView { url: url.url_text(), ..self@ }),
    {
        let mut r = self;
        r.set_url(url);
        r
    }

    /// The URL as text.
    pub fn get_url_str(&self) -> (r: &str)
        ensures
            r@ == self@.url,
    {
        self.url.as_str()
    }

    /// The URL.
    pub fn get_url(&self) -> (r: &Url)
        ensures
            r@ == self@.url,
    {
        &self.url
    }

    /// Gives the request another URL.
    pub fn set_url<U: ToUrl>(&mut self, url: U)
        requires
            url.is_url(),
        ensures
            final(self)@ == (RequestView { url: url.url_text(), ..old(self)@ }),
    {
        self.url = url_of(url);
    }

    /// The path of the URL.
    pub fn get_path(&self) -> (r: String)
        ensures
            r@ == url_path(self@.url),
    {
        self.url.path()
    }

    /// The request with another path in its URL.
    pub fn with_path(self, path: &str) -> (r: Request)
        requires
            url_path_fits(self@.url, path@),
        ensures
            r@ == (RequestView { url: url_after_path(self@.url, path@), ..self@ }),
    {
        let mut r = self;
        r.set_path(path);
        r
    }

    /// Gives the URL another path.
    pub fn set_path(&mut self, path: &str)
        requires
            url_path_fits(old(self)@.url, path@),
        ensures
            final(self)@ == (RequestView {
                url: url_after_path(old(self)@.url, path@),
                ..old(self)@
            }),
    {
        self.url.set_path(path);
    }

    /// The query of the URL, if it has one.
    pub fn get_query_str(&self) -> (r: Option<String>)
        ensures
            text_of(r) == url_query(self@.url),
    {
        self.url.query()
    }

    /// The request with another query in its URL.
    pub fn with_query_str(self, query: &str) -> (r: Request)
        requires
            url_query_fits(self@.url, query@),
        ensures
            r@ == (RequestView { url: url_after_query(self@.url, Some(query@)), ..self@ }),
    {
        let mut r = self;
        r.set_query_str(query);
        r
    }

    /// Gives the URL another query.
    pub fn set_query_str(&mut self, query: &str)
        requires
            url_query_fits(old(self)@.url, query@),
        ensures
            final(self)@ == (RequestView {
                url: url_after_query(old(self)@.url, Some(query@)),
                ..old(self)@
            }),
    {
        self.url.set_query(Some(query));
    }

    /// Takes the query off the URL.
    pub fn remove_query(&mut self)
        ensures
            final(self)@ == (RequestView {
                url: url_after_query(old(self)@.url, None),
                ..old(self)@
            }),
    {
        self.url.set_query(None);
    }

    /// The request with another version.
    pub fn with_version(self, version: Version) -> (r: Request)
        ensures
            r@ == (RequestView { version, ..self@ }),
    {
        let mut r = self;
        r.set_version(version);
        r
    }

    /// The version.
    pub fn get_version(&self) -> (r: Version)
        ensures
            r == self@.version,
    {
        self.version
    }

    /// Gives the request another version.
    pub fn set_version(&mut self, version: Version)
        ensures
            final(self)@ == (RequestView { version, ..old(self)@ }),
    {
        self.version = version;
    }

    /// The override of the cache's behavior.
    pub fn get_cache_override(&self) -> (r: &CacheOverride)
        ensures
            r@ == self@.cache_override,
    {
        &self.cache_override
    }

    /// The request with its response kept out of the cache, or not; see
    /// [`CacheOverride::set_pass`].
    pub fn with_pass(self, pass: bool) -> (r: Request)
        ensures
            r@ == (RequestView { cache_override: self@.cache_override.pass_set(pass), ..self@ }),
    {
        let mut r = self;
        r.set_pass(pass);
        r
    }

    /// Keeps the response out of the cache, or not; see [`CacheOverride::set_pass`].
    pub fn set_pass(&mut self, pass: bool)
        ensures
            final(self)@ == (RequestView {
                cache_override: old(self)@.cache_override.pass_set(pass),
                ..old(self)@
            }),
    {
        self.cache_override.set_pass(pass);
    }

    /// The request with a time to live for its response in the cache.
    pub fn with_ttl(self, ttl: u32) -> (r: Request)
        ensures
            r@ == (RequestView { cache_override: self@.cache_override.ttl_set(ttl), ..self@ }),
    {
        let mut r = self;
        r.set_ttl(ttl);
        r
    }

    /// Sets the time to live of the response in the cache, in seconds.
    pub fn set_ttl(&mut self, ttl: u32)
        ensures
            final(self)@ == (RequestView {
                cache_override: old(self)@.cache_override.ttl_set(ttl),
                ..old(self)@
            }),
    {
        self.cache_override.set_ttl(ttl);
    }

    /// The request with a time for which its response may be served stale.
    pub fn with_stale_while_revalidate(self, swr: u32) -> (r: Request)
        ensures
            r@ == (RequestView {
                cache_override: self@.cache_override.stale_while_revalidate_set(swr),
                ..self@
            }),
    {
        let mut r = self;
        r.set_stale_while_revalidate(swr);
        r
    }

    /// Sets the time for which the response may be served stale, in seconds.
    pub fn set_stale_while_revalidate(&mut self, swr: u32)
        ensures
            final(self)@ == (RequestView {
                cache_override: old(self)@.cache_override.stale_while_revalidate_set(swr),
                ..old(self)@
            }),
    {
        self.cache_override.set_stale_while_revalidate(swr);
    }

    /// The request with the PCI flag of its response set.
    pub fn with_pci(self, pci: bool) -> (r: Request)
        ensures
            r@ == (RequestView { cache_override: self@.cache_override.pci_set(pci), ..self@ }),
    {
        let mut r = self;
        r.set_pci(pci);
        r
    }

    /// Sets the PCI flag of the response.
    pub fn set_pci(&mut self, pci: bool)
        ensures
            final(self)@ == (RequestView {
                cache_override: old(self)@.cache_override.pci_set(pci),
                ..old(self)@
            }),
    {
        self.cache_override.set_pci(pci);
    }

    /// The request with a surrogate key for its response.
    pub fn with_surrogate_key(self, sk: HeaderValue) -> (r: Request)
        ensures
            r@ == (RequestView {
                cache_override: self@.cache_override.surrogate_key_set(sk@),
                ..self@
            }),
    {
        let mut r = self;
        r.set_surrogate_key(sk);
        r
    }

    /// Sets the surrogate key of the response.
    pub fn set_surrogate_key(&mut self, sk: HeaderValue)
        ensures
            final(self)@ == (RequestView {
                cache_override: old(self)@.cache_override.surrogate_key_set(sk@),
                ..old(self)@
            }),
    {
        self.cache_override.set_surrogate_key(sk);
    }

    /// Says whether the host is to undo a gzip encoding of the response.
    pub fn set_auto_decompress_gzip(&mut self, gzip: bool)
        ensures
            final(self)@ == (RequestView {
                auto_decompress_response: old(self)@.gzip_set(gzip),
                ..old(self)@
            }),
    {
        if gzip {
            self.auto_decompress_response = self.auto_decompress_response | ENCODING_GZIP;
        } else {
            self.auto_decompress_response = self.auto_decompress_response & !ENCODING_GZIP;
        }
    }

    /// The request with the undoing of a gzip encoding switched on or off.
    pub fn with_auto_decompress_gzip(self, gzip: bool) -> (r: Request)
        ensures
            r@ == (RequestView { auto_decompress_response: self@.gzip_set(gzip), ..self@ }),
    {
        let mut r = self;
        r.set_auto_decompress_gzip(gzip);
        r
    }

    /// The content encodings that the host is to undo in the response, as bits.
    pub fn get_auto_decompress_response(&self) -> (r: u32)
        ensures
            r == self@.auto_decompress_response,
    {
        self.auto_decompress_response
    }

    /// Says who decides the framing headers.
    pub fn set_framing_headers_mode(&mut self, mode: FramingHeadersMode)
        ensures
            final(self)@ == (RequestView { framing_headers_mode: mode, ..old(self)@ }),
    {
        self.framing_headers_mode = mode;
    }

    /// The request with another mode for the framing headers.
    pub fn with_framing_headers_mode(self, mode: FramingHeadersMode) -> (r: Request)
        ensures
            r@ == (RequestView { framing_headers_mode: mode, ..self@ }),
    {
        let mut r = self;
        r.set_framing_headers_mode(mode);
        r
    }

    /// The mode for the framing headers.
    pub fn get_framing_headers_mode(&self) -> (r: FramingHeadersMode)
        ensures
            r == self@.framing_headers_mode,
    {
        self.framing_headers_mode
    }

    /// Whether the request can be sent: its URL has the scheme `http` or `https` and
    /// an authority.
    pub fn is_sendable(&self) -> (r: bool)
        ensures
            r == self@.is_sendable(),
    {
        let scheme = self.url.scheme();
        is_http_scheme(scheme.as_str()) && self.url.has_authority()
    }

    /// What the host gave for a request of the client: `ask` is called for it where
    /// the request came from the client, and only there.
    pub fn client_data<T, F: FnOnce() -> T>(&self, ask: F) -> (r: Option<T>)
        requires
            call_requires(ask, ()),
        ensures
            match r {
                Some(v) => self@.is_from_client && call_ensures(ask, (), v),
                None => !self@.is_from_client,
            },
    {
        if !self.is_from_client {
            return None;
        }
        Some(ask())
    }
}

impl Request {
    /// The body, to be changed in place. A request without a body gets an empty one.
    pub fn get_body_mut(&mut self) -> (b: &mut Body)
        ensures
            b@ == old(self)@.body_or_empty(),
            final(self)@ == (RequestView { body: Some(final(b)@), ..old(self)@ }),
    {
        if self.body.is_none() {
            self.body = Some(Body::new());
        }
        match &mut self.body {
            Some(b) => b,
            None => vstd::pervasive::unreached(),
        }
    }

    /// The body, to be changed in place, if the request has one.
    pub fn try_get_body_mut(&mut self) -> (r: Option<&mut Body>)
        ensures
            match r {
                Some(b) => old(self)@.body == Some(b@) && final(self)@ == (RequestView {
                    body: Some(final(b)@),
                    ..old(self)@
                }),
                None => old(self)@.body is None && final(self)@ == old(self)@,
            },
    {
        match &mut self.body {
            Some(b) => Some(b),
            None => None,
        }
    }

    /// The URL, to be changed in place.
    pub fn get_url_mut(&mut self) -> (u: &mut Url)
        ensures
            u@ == old(self)@.url,
            final(self)@ == (RequestView { url: final(u)@, ..old(self)@ }),
    {
        &mut self.url
    }
}

/// Why a request could not be sent, or its response not be read.
#[derive(Debug, PartialEq, Eq)]
pub enum SendErrorCause {
    /// The response was no valid HTTP.
    Invalid,
    /// The response ended early.
    Incomplete,
    /// The status line of the response was invalid.
    InvalidStatus,
    /// The head of the response was too large.
    HeadTooLarge,
    /// A part of the response did not fit the buffer that was offered for it.
    BufferSize(BufferSizeError),
    /// Another failure, in words.
    Generic(String),
}

/// A [`SendErrorCause`] as plain values.
pub enum SendErrorCauseView {
    Invalid,
    Incomplete,
    InvalidStatus,
    HeadTooLarge,
    BufferSize(BufferSizeError),
    Generic(Seq<char>),
}

impl View for SendErrorCause {
    type V = SendErrorCauseView;

    open spec fn view(&self) -> SendErrorCauseView {
        match self {
            SendErrorCause::Invalid => SendErrorCauseView::Invalid,
            SendErrorCause::Incomplete => SendErrorCauseView::Incomplete,
            SendErrorCause::InvalidStatus => SendErrorCauseView::InvalidStatus,
            SendErrorCause::HeadTooLarge => SendErrorCauseView::HeadTooLarge,
            SendErrorCause::BufferSize(e) => SendErrorCauseView::BufferSize(*e),
            SendErrorCause::Generic(text) => SendErrorCauseView::Generic(text@),
        }
    }
}

impl SendErrorCauseView {
    /// The cause that a failure status of the host stands for.
    pub open spec fn of_status(code: i32) -> Self {
        if code == STATUS_HTTPINVALID {
            SendErrorCauseView::Invalid
        } else if code == STATUS_HTTPINCOMPLETE {
            SendErrorCauseView::Incomplete
        } else if code == STATUS_HTTPHEADTOOLARGE {
            SendErrorCauseView::HeadTooLarge
        } else if code == STATUS_HTTPINVALIDSTATUS {
            SendErrorCauseView::InvalidStatus
        } else if code == STATUS_ERROR {
            SendErrorCauseView::Generic("Error occurred processing send"@)
        } else {
            SendErrorCauseView::Generic(
                "SendError with unknown FastlyStatus code: "@ + signed_decimal_digits(code as int),
            )
        }
    }

    /// The cause in words.
    pub open spec fn message_text(self) -> Seq<char> {
        match self {
            SendErrorCauseView::Invalid => "response was invalid HTTP"@,
            SendErrorCauseView::Incomplete => "response was not a complete HTTP message"@,
            SendErrorCauseView::HeadTooLarge => "response message head was too large"@,
            SendErrorCauseView::InvalidStatus => "response status line was invalid"@,
            SendErrorCauseView::BufferSize(e) => "response included a "@ + e.buffer_kind.label()
                + " that exceeded a provided buffer's capacity (needed "@ + decimal_digits(
                e.needed_buf_size as nat,
            ) + " bytes)"@,
            SendErrorCauseView::Generic(text) => "generic send error: "@ + text,
        }
    }
}

impl SendErrorCause {
    /// The cause that a failure status of the host stands for.
    pub fn status(cause: FastlyStatus) -> (r: Self)
        ensures
            r@ == SendErrorCauseView::of_status(cause.code),
    {
        let code = cause.code;
        if code == STATUS_HTTPINVALID {
            SendErrorCause::Invalid
        } else if code == STATUS_HTTPINCOMPLETE {
            SendErrorCause::Incomplete
        } else if code == STATUS_HTTPHEADTOOLARGE {
            SendErrorCause::HeadTooLarge
        } else if code == STATUS_HTTPINVALIDSTATUS {
            SendErrorCause::InvalidStatus
        } else if code == STATUS_ERROR {
            SendErrorCause::Generic(String::from_str("Error occurred processing send"))
        } else {
            let mut text = String::from_str("SendError with unknown FastlyStatus code: ");
            append_signed_decimal(&mut text, code);
            SendErrorCause::Generic(text)
        }
    }

    /// The cause in words.
    pub fn message(&self) -> (r: String)
        ensures
            r@ == self@.message_text(),
    {
        match self {
            SendErrorCause::Invalid => String::from_str("response was invalid HTTP"),
            SendErrorCause::Incomplete => String::from_str(
                "response was not a complete HTTP message",
            ),
            SendErrorCause::HeadTooLarge => String::from_str("response message head was too large"),
            SendErrorCause::InvalidStatus => String::from_str("response status line was invalid"),
            SendErrorCause::BufferSize(e) => {
                let mut out = String::from_str("response included a ");
                out.append(e.buffer_kind.as_str());
                out.append(" that exceeded a provided buffer's capacity (needed ");
                append_decimal(&mut out, e.needed_buf_size as u64);
                out.append(" bytes)");
                out
            },
            SendErrorCause::Generic(text) => {
                let mut out = String::from_str("generic send error: ");
                out.append(text.as_str());
                out
            },
        }
    }
}

/// A request could not be sent, or its response not be read.
#[derive(Debug)]
pub struct SendError {
    backend: String,
    sent_req: Request,
    error: SendErrorCause,
}

impl SendError {
    /// The name of the backend, as a spec value.
    pub closed spec fn backend(&self) -> Seq<char> {
        self.backend@
    }

    /// The request that was to be sent, as a spec value.
    pub closed spec fn request(&self) -> RequestView {
        self.sent_req@
    }

    /// The cause, as a spec value.
    pub closed spec fn cause(&self) -> SendErrorCauseView {
        self.error@
    }

    /// The error of sending `sent_req` to `backend`.
    pub fn new(backend: &str, sent_req: Request, error: SendErrorCause) -> (e: Self)
        ensures
            e.backend() == backend@,
            e.request() == sent_req@,
            e.cause() == error@,
    {
        SendError { backend: backend.to_owned(), sent_req, error }
    }

    /// The error of a request whose response was to come from the backend of
    /// `metadata`. The metadata has to hold the request still.
    pub fn from_resp_metadata(metadata: FastlyResponseMetadata, error: SendErrorCause) -> (e: Self)
        requires
            metadata.sent() is Some,
        ensures
            e.backend() == metadata.backend_name(),
            Some(e.request()) == metadata.sent(),
            e.cause() == error@,
    {
        let mut metadata = metadata;
        let sent_req = match metadata.take_sent_req() {
            Some(req) => req,
            None => vstd::pervasive::unreached(),
        };
        let e = match metadata.backend() {
            Some(backend) => SendError { backend: backend.name().to_owned(), sent_req, error },
            None => vstd::pervasive::unreached(),
        };
        e
    }

    /// The name of the backend that the request was to go to.
    pub fn backend_name(&self) -> (r: &str)
        ensures
            r@ == self.backend(),
    {
        self.backend.as_str()
    }

    /// The cause of the error.
    pub fn root_cause(&self) -> (r: &SendErrorCause)
        ensures
            r@ == self.cause(),
    {
        &self.error
    }

    /// The request that was to be sent, the error given up.
    pub fn into_sent_req(self) -> (r: Request)
        ensures
            r@ == self.request(),
    {
        self.sent_req
    }
}

impl Request {
    /// The request, where it can be sent; else the error of sending it to `backend`.
    pub fn validate(self, backend: &str) -> (r: Result<Request, SendError>)
        ensures
            match r {
                Ok(req) => self@.is_sendable() && req@ == self@,
                Err(e) => {
                    &&& !self@.is_sendable()
                    &&& e.backend() == backend@
                    &&& e.request() == self@
                    &&& e.cause() == SendErrorCauseView::Generic(unsendable_message())
                },
            },
    {
        if self.is_sendable() {
            Ok(self)
        } else {
            Err(
                SendError::new(
                    backend,
                    self,
                    SendErrorCause::Generic(
                        String::from_str(
                            "request URIs must have a scheme (http/https) and an authority (host)",
                        ),
                    ),
                ),
            )
        }
    }
}

impl crate::experimental::RequestCacheKey for Request {
    open spec fn cache_key(&self) -> Option<Seq<u8>> {
        self@.cache_key
    }

    fn set_cache_key(&mut self, key: [u8; 32])
        ensures
            final(self)@ == (RequestView { cache_key: Some(key@), ..old(self)@ }),
    {
        self.cache_key = Some(key);
    }

    fn with_cache_key(self, key: [u8; 32]) -> (r: Self)
        ensures
            r@ == (RequestView { cache_key: Some(key@), ..self@ }),
    {
        let mut r = self;
        r.cache_key = Some(key);
        r
    }

    fn set_cache_key_str(&mut self, key_str: &[u8])
        ensures
            final(self)@ == (RequestView {
                cache_key: Some(crate::experimental::cache_key_of(key_str@)),
                ..old(self)@
            }),
    {
        self.cache_key = Some(salted_digest(key_str));
    }

    fn with_cache_key_str(self, key_str: &[u8]) -> (r: Self)
        ensures
            r@ == (RequestView {
                cache_key: Some(crate::experimental::cache_key_of(key_str@)),
                ..self@
            }),
    {
        let mut r = self;
        r.cache_key = Some(salted_digest(key_str));
        r
    }
}

fn salted_digest(key_str: &[u8]) -> (key: [u8; 32])
    ensures
        key@ == crate::experimental::cache_key_of(key_str@),
{
    let salt: [u8; 6] = [0, 240, 159, 167, 130, 0];
    let mut input = copy_bytes(key_str);
    input.extend_from_slice(salt.as_slice());
    assert(salt@ =~= crate::experimental::cache_key_salt());
    assert(input@ =~= key_str@ + crate::experimental::cache_key_salt());
    crate::digest::sha256_digest(input.as_slice())
}

impl Request {
    /// The cache key that overrides the one of the host, if one is set.
    pub fn get_cache_key(&self) -> (r: Option<[u8; 32]>)
        ensures
            key_bytes(r) == self@.cache_key,
    {
        self.cache_key
    }
}

/// The position of the first `&` in a text, or the length of the text if there is none.
pub open spec fn first_ampersand(text: Seq<char>) -> int
    decreases text.len(),
{
    if text.len() == 0 || text[0] == '&' {
        0
    } else {
        1 + first_ampersand(text.skip(1))
    }
}

/// The value that one part of a query gives the parameter: what stands behind the
/// name of the parameter and an equals sign, if the part begins with them.
pub open spec fn part_value(part: Seq<char>, parameter: Seq<char>) -> Option<Seq<char>> {
    if part.len() > parameter.len() && part.take(parameter.len() as int) == parameter
        && part[parameter.len() as int] == '=' {
        Some(part.skip(parameter.len() as int + 1))
    } else {
        None
    }
}

/// The value of a parameter in a query: that of the first of the parts between the
/// `&` signs that gives it one.
pub open spec fn query_parameter(query: Seq<char>, parameter: Seq<char>) -> Option<Seq<char>>
    decreases query.len(),
{
    let end = first_ampersand(query);
    match part_value(query.take(end), parameter) {
        Some(value) => Some(value),
        None => if 0 <= end < query.len() {
            query_parameter(query.skip(end + 1), parameter)
        } else {
            None
        },
    }
}

/// The first `&` of a text is where [`first_ampersand`] says, and none is before it.
pub proof fn lemma_first_ampersand(text: Seq<char>, at: int)
    requires
        0 <= at <= text.len(),
        at < text.len() ==> text[at] == '&',
        forall|i: int| 0 <= i < at ==> text[i] != '&',
    ensures
        first_ampersand(text) == at,
    decreases text.len(),
{
    if text.len() == 0 || text[0] == '&' {
    } else {
        let rest = text.skip(1);
        assert forall|i: int| 0 <= i < at - 1 implies rest[i] != '&' by {
            assert(rest[i] == text[i + 1]);
        }
        lemma_first_ampersand(rest, at - 1);
    }
}

fn starts_with_parameter(query: &str, start: usize, end: usize, parameter: &str) -> (r: bool)
    requires
        start <= end <= query@.len(),
    ensures
        r == part_value(query@.subrange(start as int, end as int), parameter@) is Some,
{
    let plen = parameter.unicode_len();
    let ghost part = query@.subrange(start as int, end as int);
    if end - start <= plen {
        return false;
    }
    let mut i: usize = 0;
    while i < plen
        invariant
            start <= end <= query@.len(),
            part == query@.subrange(start as int, end as int),
            plen == parameter@.len(),
            end - start > plen,
            0 <= i <= plen,
            forall|j: int| 0 <= j < i ==> part[j] == parameter@[j],
        decreases plen - i,
    {
        if query.get_char(start + i) != parameter.get_char(i) {
            assert(part[i as int] == query@[start + i]);
            assert(part.take(plen as int)[i as int] != parameter@[i as int]);
            return false;
        }
        assert(part[i as int] == query@[start + i]);
        i = i + 1;
    }
    assert(part.take(plen as int) =~= parameter@);
    assert(part[plen as int] == query@[start + plen]);
    query.get_char(start + plen) == '='
}

impl Request {
    /// The value of a parameter of the query: that of the first part of the query
    /// which begins with the parameter and an equals sign.
    pub fn get_query_parameter(&self, parameter: &str) -> (r: Option<String>)
        ensures
            text_of(r) == match url_query(self@.url) {
                Some(query) => query_parameter(query, parameter@),
                None => None,
            },
    {
        let query = match self.url.query() {
            Some(q) => q,
            None => {
                return None;
            },
        };
        let text = query.as_str();
        let n = text.unicode_len();
        let plen = parameter.unicode_len();
        let mut start: usize = 0;
        proof {
            assert(text@.skip(0) =~= text@);
        }
        loop
            invariant
                n == text@.len(),
                plen == parameter@.len(),
                text@ == query@,
                url_query(self@.url) == Some(text@),
                0 <= start <= n,
                query_parameter(text@, parameter@) == query_parameter(
                    text@.skip(start as int),
                    parameter@,
                ),
            decreases n - start,
        {
            let mut end = start;
            while end < n && text.get_char(end) != '&'
                invariant
                    n == text@.len(),
                    start <= end <= n,
                    forall|i: int| start <= i < end ==> text@[i] != '&',
                decreases n - end,
            {
                end = end + 1;
            }
            let ghost rest = text@.skip(start as int);
            proof {
                assert forall|i: int| 0 <= i < end - start implies rest[i] != '&' by {
                    assert(rest[i] == text@[start + i]);
                }
                lemma_first_ampersand(rest, end - start);
                assert(rest.take(end - start) =~= text@.subrange(start as int, end as int));
            }
            if starts_with_parameter(text, start, end, parameter) {
                let value = text.substring_char(start + plen + 1, end);
                proof {
                    assert(value@ =~= text@.subrange(start as int, end as int).skip(plen + 1));
                }
                return Some(value.to_owned());
            }
            if end >= n {
                return None;
            }
            proof {
                assert(rest.skip(end - start + 1) =~= text@.skip(end + 1));
            }
            start = end + 1;
        }
    }
}

} // verus!
