//! Values that can be read as parts of a message.
//!
//! The functions that take a header name, a header value, a method, a URL, a status
//! code or a backend accept every type that can be read as one: the part itself, a
//! reference to it, text, and for some parts bytes. Each trait says in its spec
//! functions which values can be read and what they are read as.

use crate::backend::{backend_name_error, Backend};
use crate::http::header::{
    lowercased, valid_header_name, valid_header_value, HeaderName, HeaderValue,
};
use crate::http::method::{valid_method, Method};
use crate::http::status::{valid_status, StatusCode};
use crate::http::url::{url_parsed, Url};
use vstd::prelude::*;
use vstd::string::StringSliceAdditionalSpecFns;
use vstd::utf8::encode_utf8;

verus! {

/// A value that lends a `T`.
pub trait Borrowable<T> {
    /// The `T` that the value lends.
    fn as_ref(&self) -> &T;
}

impl Borrowable<HeaderName> for HeaderName {
    fn as_ref(&self) -> (r: &HeaderName)
        ensures
            r == self,
    {
        self
    }
}

impl Borrowable<HeaderValue> for HeaderValue {
    fn as_ref(&self) -> (r: &HeaderValue)
        ensures
            r == self,
    {
        self
    }
}

impl Borrowable<Method> for Method {
    fn as_ref(&self) -> (r: &Method)
        ensures
            r == self,
    {
        self
    }
}

impl Borrowable<Url> for Url {
    fn as_ref(&self) -> (r: &Url)
        ensures
            r == self,
    {
        self
    }
}

impl Borrowable<Backend> for Backend {
    fn as_ref(&self) -> (r: &Backend)
        ensures
            r == self,
    {
        self
    }
}

/// A value that can be read as the name of a header.
pub trait ToHeaderName: Sized {
    /// Whether the value can be read as a name.
    spec fn is_name(&self) -> bool;

    /// The bytes of the name that the value is read as.
    spec fn name_bytes(&self) -> Seq<u8>;

    /// The name that the value is read as, if it can be read as one.
    fn try_into_owned(self) -> (r: Option<HeaderName>)
        ensures
            r is Some <==> self.is_name(),
            r matches Some(name) ==> name@ == self.name_bytes(),
    ;
}

impl ToHeaderName for HeaderName {
    open spec fn is_name(&self) -> bool {
        true
    }

    open spec fn name_bytes(&self) -> Seq<u8> {
        self@
    }

    fn try_into_owned(self) -> (r: Option<HeaderName>) {
        Some(self)
    }
}

impl<'a> ToHeaderName for &'a HeaderName {
    open spec fn is_name(&self) -> bool {
        true
    }

    open spec fn name_bytes(&self) -> Seq<u8> {
        self@
    }

    fn try_into_owned(self) -> (r: Option<HeaderName>) {
        Some(self.clone())
    }
}

impl<'a> ToHeaderName for &'a str {
    open spec fn is_name(&self) -> bool {
        valid_header_name(encode_utf8(self@))
    }

    open spec fn name_bytes(&self) -> Seq<u8> {
        lowercased(encode_utf8(self@))
    }

    fn try_into_owned(self) -> (r: Option<HeaderName>) {
        match HeaderName::from_str(self) {
            Ok(name) => Some(name),
            Err(_) => None,
        }
    }
}

impl ToHeaderName for String {
    open spec fn is_name(&self) -> bool {
        valid_header_name(encode_utf8(self@))
    }

    open spec fn name_bytes(&self) -> Seq<u8> {
        lowercased(encode_utf8(self@))
    }

    fn try_into_owned(self) -> (r: Option<HeaderName>) {
        match HeaderName::from_str(self.as_str()) {
            Ok(name) => Some(name),
            Err(_) => None,
        }
    }
}

impl<'a> ToHeaderName for &'a [u8] {
    open spec fn is_name(&self) -> bool {
        valid_header_name(self@)
    }

    open spec fn name_bytes(&self) -> Seq<u8> {
        lowercased(self@)
    }

    fn try_into_owned(self) -> (r: Option<HeaderName>) {
        match HeaderName::from_bytes(self) {
            Ok(name) => Some(name),
            Err(_) => None,
        }
    }
}

impl ToHeaderName for Vec<u8> {
    open spec fn is_name(&self) -> bool {
        valid_header_name(self@)
    }

    open spec fn name_bytes(&self) -> Seq<u8> {
        lowercased(self@)
    }

    fn try_into_owned(self) -> (r: Option<HeaderName>) {
        match HeaderName::from_bytes(self.as_slice()) {
            Ok(name) => Some(name),
            Err(_) => None,
        }
    }
}

/// The name that a value is read as.
pub fn header_name_of<N: ToHeaderName>(name: N) -> (r: HeaderName)
    requires
        name.is_name(),
    ensures
        r@ == name.name_bytes(),
{
    match name.try_into_owned() {
        Some(n) => n,
        None => vstd::pervasive::unreached(),
    }
}

/// A value that can be read as the value of a header.
pub trait ToHeaderValue: Sized {
    /// Whether the value can be read as a header value.
    spec fn is_value(&self) -> bool;

    /// The bytes of the header value that the value is read as.
    spec fn value_bytes(&self) -> Seq<u8>;

    /// The header value that the value is read as, if it can be read as one.
    fn try_into_owned(self) -> (r: Option<HeaderValue>)
        ensures
            r is Some <==> self.is_value(),
            r matches Some(value) ==> value@ == self.value_bytes(),
    ;
}

impl ToHeaderValue for HeaderValue {
    open spec fn is_value(&self) -> bool {
        true
    }

    open spec fn value_bytes(&self) -> Seq<u8> {
        self@
    }

    fn try_into_owned(self) -> (r: Option<HeaderValue>) {
        Some(self)
    }
}

impl<'a> ToHeaderValue for &'a HeaderValue {
    open spec fn is_value(&self) -> bool {
        true
    }

    open spec fn value_bytes(&self) -> Seq<u8> {
        self@
    }

    fn try_into_owned(self) -> (r: Option<HeaderValue>) {
        Some(self.clone())
    }
}

impl<'a> ToHeaderValue for &'a str {
    open spec fn is_value(&self) -> bool {
        valid_header_value(encode_utf8(self@))
    }

    open spec fn value_bytes(&self) -> Seq<u8> {
        encode_utf8(self@)
    }

    fn try_into_owned(self) -> (r: Option<HeaderValue>) {
        match HeaderValue::from_str(self) {
            Ok(value) => Some(value),
            Err(_) => None,
        }
    }
}

impl ToHeaderValue for String {
    open spec fn is_value(&self) -> bool {
        valid_header_value(encode_utf8(self@))
    }

    open spec fn value_bytes(&self) -> Seq<u8> {
        encode_utf8(self@)
    }

    fn try_into_owned(self) -> (r: Option<HeaderValue>) {
        match HeaderValue::from_str(self.as_str()) {
            Ok(value) => Some(value),
            Err(_) => None,
        }
    }
}

impl<'a> ToHeaderValue for &'a [u8] {
    open spec fn is_value(&self) -> bool {
        valid_header_value(self@)
    }

    open spec fn value_bytes(&self) -> Seq<u8> {
        self@
    }

    fn try_into_owned(self) -> (r: Option<HeaderValue>) {
        match HeaderValue::from_bytes(self) {
            Ok(value) => Some(value),
            Err(_) => None,
        }
    }
}

impl ToHeaderValue for Vec<u8> {
    open spec fn is_value(&self) -> bool {
        valid_header_value(self@)
    }

    open spec fn value_bytes(&self) -> Seq<u8> {
        self@
    }

    fn try_into_owned(self) -> (r: Option<HeaderValue>) {
        match HeaderValue::from_bytes(self.as_slice()) {
            Ok(value) => Some(value),
            Err(_) => None,
        }
    }
}

impl ToHeaderValue for HeaderName {
    open spec fn is_value(&self) -> bool {
        true
    }

    open spec fn value_bytes(&self) -> Seq<u8> {
        self@
    }

    fn try_into_owned(self) -> (r: Option<HeaderValue>) {
        Some(HeaderValue::from_name(self))
    }
}

impl ToHeaderValue for Url {
    open spec fn is_value(&self) -> bool {
        valid_header_value(encode_utf8(self@))
    }

    open spec fn value_bytes(&self) -> Seq<u8> {
        encode_utf8(self@)
    }

    fn try_into_owned(self) -> (r: Option<HeaderValue>) {
        match HeaderValue::from_str(self.as_str()) {
            Ok(value) => Some(value),
            Err(_) => None,
        }
    }
}

/// The header value that a value is read as.
pub fn header_value_of<V: ToHeaderValue>(value: V) -> (r: HeaderValue)
    requires
        value.is_value(),
    ensures
        r@ == value.value_bytes(),
{
    match value.try_into_owned() {
        Some(v) => v,
        None => vstd::pervasive::unreached(),
    }
}

/// A value that can be read as a method.
pub trait ToMethod: Sized {
    /// Whether the value can be read as a method.
    spec fn is_method(&self) -> bool;

    /// The bytes of the method that the value is read as.
    spec fn method_bytes(&self) -> Seq<u8>;

    /// The method that the value is read as, if it can be read as one.
    fn try_into_owned(self) -> (r: Option<Method>)
        ensures
            r is Some <==> self.is_method(),
            r matches Some(method) ==> method@ == self.method_bytes(),
    ;
}

impl ToMethod for Method {
    open spec fn is_method(&self) -> bool {
        true
    }

    open spec fn method_bytes(&self) -> Seq<u8> {
        self@
    }

    fn try_into_owned(self) -> (r: Option<Method>) {
        Some(self)
    }
}

impl<'a> ToMethod for &'a Method {
    open spec fn is_method(&self) -> bool {
        true
    }

    open spec fn method_bytes(&self) -> Seq<u8> {
        self@
    }

    fn try_into_owned(self) -> (r: Option<Method>) {
        Some(self.clone())
    }
}

impl<'a> ToMethod for &'a str {
    open spec fn is_method(&self) -> bool {
        valid_method(encode_utf8(self@))
    }

    open spec fn method_bytes(&self) -> Seq<u8> {
        encode_utf8(self@)
    }

    fn try_into_owned(self) -> (r: Option<Method>) {
        match Method::from_str(self) {
            Ok(method) => Some(method),
            Err(_) => None,
        }
    }
}

impl ToMethod for String {
    open spec fn is_method(&self) -> bool {
        valid_method(encode_utf8(self@))
    }

    open spec fn method_bytes(&self) -> Seq<u8> {
        encode_utf8(self@)
    }

    fn try_into_owned(self) -> (r: Option<Method>) {
        match Method::from_str(self.as_str()) {
            Ok(method) => Some(method),
            Err(_) => None,
        }
    }
}

impl<'a> ToMethod for &'a [u8] {
    open spec fn is_method(&self) -> bool {
        valid_method(self@)
    }

    open spec fn method_bytes(&self) -> Seq<u8> {
        self@
    }

    fn try_into_owned(self) -> (r: Option<Method>) {
        match Method::from_bytes(self) {
            Ok(method) => Some(method),
            Err(_) => None,
        }
    }
}

impl ToMethod for Vec<u8> {
    open spec fn is_method(&self) -> bool {
        valid_method(self@)
    }

    open spec fn method_bytes(&self) -> Seq<u8> {
        self@
    }

    fn try_into_owned(self) -> (r: Option<Method>) {
        match Method::from_bytes(self.as_slice()) {
            Ok(method) => Some(method),
            Err(_) => None,
        }
    }
}

/// The method that a value is read as.
pub fn method_of<M: ToMethod>(method: M) -> (r: Method)
    requires
        method.is_method(),
    ensures
        r@ == method.method_bytes(),
{
    match method.try_into_owned() {
        Some(m) => m,
        None => vstd::pervasive::unreached(),
    }
}

/// A value that can be read as a URL.
pub trait ToUrl: Sized {
    /// Whether the value can be read as a URL.
    spec fn is_url(&self) -> bool;

    /// The text of the URL that the value is read as.
    spec fn url_text(&self) -> Seq<char>;

    /// The URL that the value is read as, if it can be read as one.
    fn try_into_owned(self) -> (r: Option<Url>)
        ensures
            r is Some <==> self.is_url(),
            r matches Some(url) ==> url@ == self.url_text(),
    ;
}

impl ToUrl for Url {
    open spec fn is_url(&self) -> bool {
        true
    }

    open spec fn url_text(&self) -> Seq<char> {
        self@
    }

    fn try_into_owned(self) -> (r: Option<Url>) {
        Some(self)
    }
}

impl<'a> ToUrl for &'a Url {
    open spec fn is_url(&self) -> bool {
        true
    }

    open spec fn url_text(&self) -> Seq<char> {
        self@
    }

    fn try_into_owned(self) -> (r: Option<Url>) {
        Some(self.clone())
    }
}

impl<'a> ToUrl for &'a str {
    open spec fn is_url(&self) -> bool {
        url_parsed(self@) is Some
    }

    open spec fn url_text(&self) -> Seq<char> {
        url_parsed(self@)->0
    }

    fn try_into_owned(self) -> (r: Option<Url>) {
        match Url::parse(self) {
            Ok(url) => Some(url),
            Err(_) => None,
        }
    }
}

impl ToUrl for String {
    open spec fn is_url(&self) -> bool {
        url_parsed(self@) is Some
    }

    open spec fn url_text(&self) -> Seq<char> {
        url_parsed(self@)->0
    }

    fn try_into_owned(self) -> (r: Option<Url>) {
        match Url::parse(self.as_str()) {
            Ok(url) => Some(url),
            Err(_) => None,
        }
    }
}

/// The URL that a value is read as.
pub fn url_of<U: ToUrl>(url: U) -> (r: Url)
    requires
        url.is_url(),
    ensures
        r@ == url.url_text(),
{
    match url.try_into_owned() {
        Some(u) => u,
        None => vstd::pervasive::unreached(),
    }
}

/// A value that can be turned into a status code.
pub trait Sealed: Sized {
    /// Whether the value is a status code.
    spec fn is_status(&self) -> bool;

    /// The number of the status code.
    spec fn status_number(&self) -> u16;

    /// The status code, if the value is one.
    fn to_status_code(self) -> (r: Option<StatusCode>)
        ensures
            r is Some <==> self.is_status(),
            r matches Some(status) ==> status@ == self.status_number(),
    ;
}

/// A value that can be read as a status code: a status code, or a number from 100 to
/// 999.
pub trait ToStatusCode: Sealed {

}

impl Sealed for StatusCode {
    open spec fn is_status(&self) -> bool {
        true
    }

    open spec fn status_number(&self) -> u16 {
        self@
    }

    fn to_status_code(self) -> (r: Option<StatusCode>) {
        Some(self)
    }
}

impl Sealed for u16 {
    open spec fn is_status(&self) -> bool {
        valid_status(*self)
    }

    open spec fn status_number(&self) -> u16 {
        *self
    }

    fn to_status_code(self) -> (r: Option<StatusCode>) {
        match StatusCode::from_u16(self) {
            Ok(status) => Some(status),
            Err(_) => None,
        }
    }
}

impl ToStatusCode for StatusCode {

}

impl ToStatusCode for u16 {

}

/// A value that can be read as a backend.
pub trait ToBackend: Sized {
    /// Whether the value can be read as a backend.
    spec fn is_backend(&self) -> bool;

    /// The name of the backend that the value is read as.
    spec fn backend_name(&self) -> Seq<char>;

    /// The backend that the value is read as, if it can be read as one.
    fn try_into_owned(self) -> (r: Option<Backend>)
        ensures
            r is Some <==> self.is_backend(),
            r matches Some(backend) ==> backend@ == self.backend_name(),
    ;
}

impl ToBackend for Backend {
    open spec fn is_backend(&self) -> bool {
        true
    }

    open spec fn backend_name(&self) -> Seq<char> {
        self@
    }

    fn try_into_owned(self) -> (r: Option<Backend>) {
        Some(self)
    }
}

impl<'a> ToBackend for &'a Backend {
    open spec fn is_backend(&self) -> bool {
        true
    }

    open spec fn backend_name(&self) -> Seq<char> {
        self@
    }

    fn try_into_owned(self) -> (r: Option<Backend>) {
        Some(self.clone())
    }
}

impl<'a> ToBackend for &'a str {
    open spec fn is_backend(&self) -> bool {
        backend_name_error(self@) is None
    }

    open spec fn backend_name(&self) -> Seq<char> {
        self@
    }

    fn try_into_owned(self) -> (r: Option<Backend>) {
        match Backend::from_name(self) {
            Ok(backend) => Some(backend),
            Err(_) => None,
        }
    }
}

impl ToBackend for String {
    open spec fn is_backend(&self) -> bool {
        backend_name_error(self@) is None
    }

    open spec fn backend_name(&self) -> Seq<char> {
        self@
    }

    fn try_into_owned(self) -> (r: Option<Backend>) {
        match Backend::from_name(self.as_str()) {
            Ok(backend) => Some(backend),
            Err(_) => None,
        }
    }
}

} // verus!
