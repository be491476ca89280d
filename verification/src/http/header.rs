//! Header names and header values.

use crate::text::{all_ascii, ascii_str, ascii_text, bytes_eq, copy_bytes};
use vstd::prelude::*;
use vstd::string::StringSliceAdditionalSpecFns;

verus! {

/// The longest header name, in bytes.
pub const MAX_HEADER_NAME_LEN: usize = 65535;

/// Whether a byte may stand in a header name as it is written: a letter, a digit, or
/// one of ``! " # $ % & ' * + - . ^ _ ` | ~``.
pub open spec fn is_header_name_byte(b: u8) -> bool {
    ||| 33 <= b <= 39
    ||| b == 42
    ||| b == 43
    ||| b == 45
    ||| b == 46
    ||| 48 <= b <= 57
    ||| 65 <= b <= 90
    ||| 94 <= b <= 122
    ||| b == 124
    ||| b == 126
}

/// The byte in lower case.
pub open spec fn lower(b: u8) -> u8 {
    if 65 <= b <= 90 {
        (b + 32) as u8
    } else {
        b
    }
}

/// The bytes in lower case.
pub open spec fn lowercased(bytes: Seq<u8>) -> Seq<u8> {
    Seq::new(bytes.len(), |i: int| lower(bytes[i]))
}

/// Whether the bytes can be read as a header name.
pub open spec fn valid_header_name(bytes: Seq<u8>) -> bool {
    &&& 0 < bytes.len() <= MAX_HEADER_NAME_LEN
    &&& forall|i: int| 0 <= i < bytes.len() ==> is_header_name_byte(#[trigger] bytes[i])
}

/// Whether the bytes are a header name as this library holds it: valid, in lower case.
pub open spec fn canonical_header_name(bytes: Seq<u8>) -> bool {
    valid_header_name(bytes) && lowercased(bytes) == bytes
}

/// Whether a byte may stand in a header value: a tab, or anything from the space on
/// but the delete character.
pub open spec fn is_header_value_byte(b: u8) -> bool {
    b >= 32 && b != 127 || b == 9
}

/// Whether a byte is a tab or a printable ASCII character.
pub open spec fn is_visible_ascii(b: u8) -> bool {
    b >= 32 && b < 127 || b == 9
}

/// Whether the bytes can be a header value.
pub open spec fn valid_header_value(bytes: Seq<u8>) -> bool {
    forall|i: int| 0 <= i < bytes.len() ==> is_header_value_byte(#[trigger] bytes[i])
}

/// Whether a header value can be read as text.
pub open spec fn visible_header_value(bytes: Seq<u8>) -> bool {
    forall|i: int| 0 <= i < bytes.len() ==> is_visible_ascii(#[trigger] bytes[i])
}

/// Reads a header name.
///
/// Wraps `http::header::HeaderName::from_bytes`. It accepts one to 65535 bytes, each a
/// letter, a digit or one of the marks that [`is_header_name_byte`] lists, and holds
/// the name in lower case; `as_str` gives that text back.
#[verifier::external_body]
fn parse_header_name(src: &[u8]) -> (r: Option<Vec<u8>>)
    ensures
        r is Some <==> valid_header_name(src@),
        r matches Some(v) ==> v@ == lowercased(src@),
{
    http::header::HeaderName::from_bytes(src).ok().map(|name| name.as_str().as_bytes().to_vec())
}

/// Tests whether bytes can be a header value.
///
/// Wraps `http::header::HeaderValue::from_bytes`, which accepts the bytes where each is
/// a tab or at least 32 and not 127.
#[verifier::external_body]
fn accepts_header_value(src: &[u8]) -> (r: bool)
    ensures
        r == valid_header_value(src@),
{
    http::header::HeaderValue::from_bytes(src).is_ok()
}

/// The lower-case form of a valid name is canonical.
pub proof fn lemma_lowercased_canonical(bytes: Seq<u8>)
    requires
        valid_header_name(bytes),
    ensures
        canonical_header_name(lowercased(bytes)),
{
    let low = lowercased(bytes);
    assert forall|i: int| 0 <= i < low.len() implies is_header_name_byte(#[trigger] low[i]) by {
        assert(is_header_name_byte(bytes[i]));
    }
    assert(lowercased(low) =~= low);
}

/// The bytes of a header name are ASCII, and so are those of a value that is visible.
pub proof fn lemma_header_bytes_ascii(bytes: Seq<u8>)
    ensures
        valid_header_name(bytes) ==> all_ascii(bytes),
        visible_header_value(bytes) ==> all_ascii(bytes) && valid_header_value(bytes),
{
    if valid_header_name(bytes) {
        assert forall|i: int| 0 <= i < bytes.len() implies #[trigger] bytes[i] < 128 by {
            assert(is_header_name_byte(bytes[i]));
        }
    }
    if visible_header_value(bytes) {
        assert forall|i: int| 0 <= i < bytes.len() implies #[trigger] bytes[i] < 128 by {
            assert(is_visible_ascii(bytes[i]));
        }
        assert forall|i: int| 0 <= i < bytes.len() implies is_header_value_byte(
            #[trigger] bytes[i],
        ) by {
            assert(is_visible_ascii(bytes[i]));
        }
    }
}

/// The error of reading a header name that is none.
#[derive(Clone, Copy, Debug, PartialEq, Eq, Structural)]
pub struct InvalidHeaderName {}

/// The error of reading a header value that is none.
#[derive(Clone, Copy, Debug, PartialEq, Eq, Structural)]
pub struct InvalidHeaderValue {}

/// The error of reading a header value as text where it holds other bytes.
#[derive(Clone, Copy, Debug, PartialEq, Eq, Structural)]
pub struct ToStrError {}

/// The name of a header, in lower case.
#[derive(Debug, PartialEq, Eq, Hash)]
pub struct HeaderName {
    bytes: Vec<u8>,
}

impl View for HeaderName {
    type V = Seq<u8>;

    closed spec fn view(&self) -> Seq<u8> {
        self.bytes@
    }
}

impl Clone for HeaderName {
    fn clone(&self) -> (r: Self)
        ensures
            r@ == self@,
    {
        proof {
            use_type_invariant(self);
        }
        HeaderName { bytes: copy_bytes(self.bytes.as_slice()) }
    }
}

impl HeaderName {
    #[verifier::type_invariant]
    closed spec fn inv(&self) -> bool {
        canonical_header_name(self.bytes@)
    }

    /// Reads a name from bytes in any case.
    pub fn from_bytes(src: &[u8]) -> (r: Result<HeaderName, InvalidHeaderName>)
        ensures
            r is Ok <==> valid_header_name(src@),
            r matches Ok(name) ==> name@ == lowercased(src@),
    {
        match parse_header_name(src) {
            Some(bytes) => {
                proof {
                    lemma_lowercased_canonical(src@);
                }
                Ok(HeaderName { bytes })
            },
            None => Err(InvalidHeaderName {  }),
        }
    }

    /// Reads a name from text in any case.
    pub fn from_str(src: &str) -> (r: Result<HeaderName, InvalidHeaderName>)
        ensures
            r is Ok <==> valid_header_name(src.spec_bytes()),
            r matches Ok(name) ==> name@ == lowercased(src.spec_bytes()),
    {
        HeaderName::from_bytes(src.as_bytes())
    }

    /// The name of a literal, which has to be a name in lower case.
    pub fn from_static(src: &'static str) -> (name: HeaderName)
        requires
            canonical_header_name(src.spec_bytes()),
        ensures
            name@ == src.spec_bytes(),
    {
        HeaderName { bytes: copy_bytes(src.as_bytes()) }
    }

    /// The name of bytes that are a name in lower case.
    pub fn from_canonical(bytes: Vec<u8>) -> (name: HeaderName)
        requires
            canonical_header_name(bytes@),
        ensures
            name@ == bytes@,
    {
        HeaderName { bytes }
    }

    /// The name as bytes.
    pub fn as_bytes(&self) -> (r: &[u8])
        ensures
            r@ == self@,
            canonical_header_name(self@),
    {
        proof {
            use_type_invariant(self);
        }
        self.bytes.as_slice()
    }

    /// The name as text.
    pub fn as_str(&self) -> (r: &str)
        ensures
            r@ == ascii_text(self@),
            r.spec_bytes() == self@,
            canonical_header_name(self@),
    {
        proof {
            use_type_invariant(self);
            lemma_header_bytes_ascii(self.bytes@);
        }
        ascii_str(self.bytes.as_slice())
    }

    /// Whether two names are the same.
    pub fn same(&self, other: &HeaderName) -> (r: bool)
        ensures
            r == (self@ == other@),
    {
        bytes_eq(self.bytes.as_slice(), other.bytes.as_slice())
    }
}

/// The value of a header.
#[derive(Debug, PartialEq, Eq, Hash)]
pub struct HeaderValue {
    bytes: Vec<u8>,
}

impl View for HeaderValue {
    type V = Seq<u8>;

    closed spec fn view(&self) -> Seq<u8> {
        self.bytes@
    }
}

impl Clone for HeaderValue {
    fn clone(&self) -> (r: Self)
        ensures
            r@ == self@,
    {
        proof {
            use_type_invariant(self);
        }
        HeaderValue { bytes: copy_bytes(self.bytes.as_slice()) }
    }
}

impl HeaderValue {
    #[verifier::type_invariant]
    closed spec fn inv(&self) -> bool {
        valid_header_value(self.bytes@)
    }

    /// Reads a value from bytes.
    pub fn from_bytes(src: &[u8]) -> (r: Result<HeaderValue, InvalidHeaderValue>)
        ensures
            r is Ok <==> valid_header_value(src@),
            r matches Ok(value) ==> value@ == src@,
    {
        if accepts_header_value(src) {
            Ok(HeaderValue { bytes: copy_bytes(src) })
        } else {
            Err(InvalidHeaderValue {  })
        }
    }

    /// Reads a value from text.
    pub fn from_str(src: &str) -> (r: Result<HeaderValue, InvalidHeaderValue>)
        ensures
            r is Ok <==> valid_header_value(src.spec_bytes()),
            r matches Ok(value) ==> value@ == src.spec_bytes(),
    {
        HeaderValue::from_bytes(src.as_bytes())
    }

    /// The value of a literal, which has to be a valid value.
    pub fn from_static(src: &'static str) -> (value: HeaderValue)
        requires
            valid_header_value(src.spec_bytes()),
        ensures
            value@ == src.spec_bytes(),
    {
        HeaderValue { bytes: copy_bytes(src.as_bytes()) }
    }

    /// The value of bytes that are a valid value.
    pub fn from_valid(bytes: Vec<u8>) -> (value: HeaderValue)
        requires
            valid_header_value(bytes@),
        ensures
            value@ == bytes@,
    {
        HeaderValue { bytes }
    }

    /// A name as a value.
    pub fn from_name(name: HeaderName) -> (value: HeaderValue)
        ensures
            value@ == name@,
    {
        let bytes = copy_bytes(name.as_bytes());
        proof {
            lemma_header_bytes_ascii(bytes@);
            assert forall|i: int| 0 <= i < bytes@.len() implies is_header_value_byte(
                #[trigger] bytes@[i],
            ) by {
                assert(is_header_name_byte(bytes@[i]));
            }
        }
        HeaderValue { bytes }
    }

    /// The value as bytes.
    pub fn as_bytes(&self) -> (r: &[u8])
        ensures
            r@ == self@,
            valid_header_value(self@),
    {
        proof {
            use_type_invariant(self);
        }
        self.bytes.as_slice()
    }

    /// The number of bytes of the value.
    pub fn len(&self) -> (r: usize)
        ensures
            r == self@.len(),
    {
        self.bytes.len()
    }

    /// Whether the value has no bytes.
    pub fn is_empty(&self) -> (r: bool)
        ensures
            r == (self@.len() == 0),
    {
        self.bytes.len() == 0
    }

    /// The value as text, where every byte is a tab or printable ASCII.
    pub fn to_str(&self) -> (r: Result<&str, ToStrError>)
        ensures
            r is Ok <==> visible_header_value(self@),
            r matches Ok(s) ==> s@ == ascii_text(self@) && s.spec_bytes() == self@,
    {
        let mut i: usize = 0;
        while i < self.bytes.len()
            invariant
                0 <= i <= self.bytes@.len(),
                forall|j: int| 0 <= j < i ==> is_visible_ascii(#[trigger] self.bytes@[j]),
            decreases self.bytes@.len() - i,
        {
            let b = self.bytes[i];
            if !(b >= 32 && b < 127 || b == 9) {
                return Err(ToStrError {  });
            }
            i = i + 1;
        }
        proof {
            lemma_header_bytes_ascii(self.bytes@);
        }
        Ok(ascii_str(self.bytes.as_slice()))
    }

    /// Whether two values are the same.
    pub fn same(&self, other: &HeaderValue) -> (r: bool)
        ensures
            r == (self@ == other@),
    {
        bytes_eq(self.bytes.as_slice(), other.bytes.as_slice())
    }
}

/// One text as the name of a header: its characters are those of a name in lower case.
proof fn lemma_literal_name(s: &str)
    requires
        forall|i: int|
            0 <= i < s@.len() ==> {
                let c = #[trigger] s@[i];
                ('a' <= c <= 'z') || c == '-' || ('0' <= c <= '9')
            },
        0 < s@.len() <= 64,
    ensures
        canonical_header_name(s.spec_bytes()),
{
    let chars = s@;
    assert(vstd::utf8::is_ascii_chars(chars));
    vstd::utf8::is_ascii_chars_encode_utf8(chars);
    let bytes = s.spec_bytes();
    assert forall|i: int| 0 <= i < bytes.len() implies is_header_name_byte(#[trigger] bytes[i])
        && lower(bytes[i]) == bytes[i] by {
        assert(chars[i] as u8 == bytes[i]);
    }
    assert(lowercased(bytes) =~= bytes);
}

/// The name `content-type`.
pub fn content_type() -> (name: HeaderName)
    ensures
        name@ == "content-type".spec_bytes(),
{
    proof {
        reveal_strlit("content-type");
        lemma_literal_name("content-type");
    }
    HeaderName::from_static("content-type")
}

/// The name `content-length`.
pub fn content_length() -> (name: HeaderName)
    ensures
        name@ == "content-length".spec_bytes(),
{
    proof {
        reveal_strlit("content-length");
        lemma_literal_name("content-length");
    }
    HeaderName::from_static("content-length")
}

/// The name `location`.
pub fn location() -> (name: HeaderName)
    ensures
        name@ == "location".spec_bytes(),
{
    proof {
        reveal_strlit("location");
        lemma_literal_name("location");
    }
    HeaderName::from_static("location")
}

/// The name `fastly-xqd-cache-key`.
pub fn fastly_xqd_cache_key() -> (name: HeaderName)
    ensures
        name@ == "fastly-xqd-cache-key".spec_bytes(),
{
    proof {
        reveal_strlit("fastly-xqd-cache-key");
        lemma_literal_name("fastly-xqd-cache-key");
    }
    HeaderName::from_static("fastly-xqd-cache-key")
}

} // verus!
