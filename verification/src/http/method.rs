//! HTTP request methods.

use crate::text::{ascii_str, ascii_text, bytes_eq, copy_bytes};
use vstd::prelude::*;
use vstd::string::StringSliceAdditionalSpecFns;

verus! {

/// Whether a byte may stand in a method: a letter, a digit, or one of
/// ``! * + - . ^ _ ` | ~``.
pub open spec fn is_method_byte(b: u8) -> bool {
    ||| b == 33
    ||| b == 42
    ||| b == 43
    ||| b == 45
    ||| b == 46
    ||| 48 <= b <= 57
    ||| 65 <= b <= 90
    ||| 94 <= b <= 122
    ||| b == 124
    ||| b == 126
}

/// Whether the bytes can be a method: at least one byte, each a method byte.
pub open spec fn valid_method(bytes: Seq<u8>) -> bool {
    &&& bytes.len() > 0
    &&& forall|i: int| 0 <= i < bytes.len() ==> is_method_byte(#[trigger] bytes[i])
}

/// Tests bytes as a method.
///
/// Wraps `http::Method::from_bytes`, which accepts one byte or more, each a letter, a
/// digit or one of the marks that [`is_method_byte`] lists.
#[verifier::external_body]
fn accepts_method(src: &[u8]) -> (r: bool)
    ensures
        r == valid_method(src@),
{
    http::Method::from_bytes(src).is_ok()
}

/// The error of reading bytes that are no method.
#[derive(Clone, Copy, Debug, PartialEq, Eq, Structural)]
pub struct InvalidMethod {}

/// A method that is not one of the nine that have a name of their own.
#[derive(Debug, PartialEq, Eq, Hash)]
pub struct ExtensionMethod {
    bytes: Vec<u8>,
}

impl ExtensionMethod {
    #[verifier::type_invariant]
    closed spec fn inv(&self) -> bool {
        valid_method(self.bytes@) && standard_method(self.bytes@) is None
    }

    /// The bytes of the method.
    pub closed spec fn bytes(&self) -> Seq<u8> {
        self.bytes@
    }
}

/// A request method.
#[derive(Debug, PartialEq, Eq, Hash)]
pub enum Method {
    OPTIONS,
    GET,
    POST,
    PUT,
    DELETE,
    HEAD,
    TRACE,
    CONNECT,
    PATCH,
    /// Any other method.
    Extension(ExtensionMethod),
}

/// The method of the nine that the bytes spell, if they spell one.
pub open spec fn standard_method(bytes: Seq<u8>) -> Option<Method> {
    if bytes == seq![79u8, 80, 84, 73, 79, 78, 83] {
        Some(Method::OPTIONS)
    } else if bytes == seq![71u8, 69, 84] {
        Some(Method::GET)
    } else if bytes == seq![80u8, 79, 83, 84] {
        Some(Method::POST)
    } else if bytes == seq![80u8, 85, 84] {
        Some(Method::PUT)
    } else if bytes == seq![68u8, 69, 76, 69, 84, 69] {
        Some(Method::DELETE)
    } else if bytes == seq![72u8, 69, 65, 68] {
        Some(Method::HEAD)
    } else if bytes == seq![84u8, 82, 65, 67, 69] {
        Some(Method::TRACE)
    } else if bytes == seq![67u8, 79, 78, 78, 69, 67, 84] {
        Some(Method::CONNECT)
    } else if bytes == seq![80u8, 65, 84, 67, 72] {
        Some(Method::PATCH)
    } else {
        None
    }
}

impl View for Method {
    type V = Seq<u8>;

    /// The bytes that spell the method.
    open spec fn view(&self) -> Seq<u8> {
        match self {
            Method::OPTIONS => seq![79u8, 80, 84, 73, 79, 78, 83],
            Method::GET => seq![71u8, 69, 84],
            Method::POST => seq![80u8, 79, 83, 84],
            Method::PUT => seq![80u8, 85, 84],
            Method::DELETE => seq![68u8, 69, 76, 69, 84, 69],
            Method::HEAD => seq![72u8, 69, 65, 68],
            Method::TRACE => seq![84u8, 82, 65, 67, 69],
            Method::CONNECT => seq![67u8, 79, 78, 78, 69, 67, 84],
            Method::PATCH => seq![80u8, 65, 84, 67, 72],
            Method::Extension(ext) => ext.bytes(),
        }
    }
}

impl Clone for Method {
    fn clone(&self) -> (r: Self)
        ensures
            r@ == self@,
    {
        match self {
            Method::OPTIONS => Method::OPTIONS,
            Method::GET => Method::GET,
            Method::POST => Method::POST,
            Method::PUT => Method::PUT,
            Method::DELETE => Method::DELETE,
            Method::HEAD => Method::HEAD,
            Method::TRACE => Method::TRACE,
            Method::CONNECT => Method::CONNECT,
            Method::PATCH => Method::PATCH,
            Method::Extension(ext) => {
                proof {
                    use_type_invariant(ext);
                }
                Method::Extension(ExtensionMethod { bytes: copy_bytes(ext.bytes.as_slice()) })
            },
        }
    }
}

fn spells(src: &[u8], word: &[u8]) -> (r: bool)
    ensures
        r == (src@ == word@),
{
    bytes_eq(src, word)
}

impl Method {
    /// Reads a method from its bytes. The nine methods that have a name of their own
    /// are read as themselves, every other valid method as an extension.
    pub fn from_bytes(src: &[u8]) -> (r: Result<Method, InvalidMethod>)
        ensures
            r is Ok <==> valid_method(src@),
            r matches Ok(m) ==> m@ == src@ && (standard_method(src@) matches Some(s) ==> m == s),
    {
        if !accepts_method(src) {
            return Err(InvalidMethod {  });
        }
        let options: [u8; 7] = [79, 80, 84, 73, 79, 78, 83];
        let get: [u8; 3] = [71, 69, 84];
        let post: [u8; 4] = [80, 79, 83, 84];
        let put: [u8; 3] = [80, 85, 84];
        let delete: [u8; 6] = [68, 69, 76, 69, 84, 69];
        let head: [u8; 4] = [72, 69, 65, 68];
        let trace: [u8; 5] = [84, 82, 65, 67, 69];
        let connect: [u8; 7] = [67, 79, 78, 78, 69, 67, 84];
        let patch: [u8; 5] = [80, 65, 84, 67, 72];
        proof {
            assert(options@ =~= seq![79u8, 80, 84, 73, 79, 78, 83]);
            assert(get@ =~= seq![71u8, 69, 84]);
            assert(post@ =~= seq![80u8, 79, 83, 84]);
            assert(put@ =~= seq![80u8, 85, 84]);
            assert(delete@ =~= seq![68u8, 69, 76, 69, 84, 69]);
            assert(head@ =~= seq![72u8, 69, 65, 68]);
            assert(trace@ =~= seq![84u8, 82, 65, 67, 69]);
            assert(connect@ =~= seq![67u8, 79, 78, 78, 69, 67, 84]);
            assert(patch@ =~= seq![80u8, 65, 84, 67, 72]);
        }
        if spells(src, options.as_slice()) {
            Ok(Method::OPTIONS)
        } else if spells(src, get.as_slice()) {
            Ok(Method::GET)
        } else if spells(src, post.as_slice()) {
            Ok(Method::POST)
        } else if spells(src, put.as_slice()) {
            Ok(Method::PUT)
        } else if spells(src, delete.as_slice()) {
            Ok(Method::DELETE)
        } else if spells(src, head.as_slice()) {
            Ok(Method::HEAD)
        } else if spells(src, trace.as_slice()) {
            Ok(Method::TRACE)
        } else if spells(src, connect.as_slice()) {
            Ok(Method::CONNECT)
        } else if spells(src, patch.as_slice()) {
            Ok(Method::PATCH)
        } else {
            Ok(Method::Extension(ExtensionMethod { bytes: copy_bytes(src) }))
        }
    }

    /// Reads a method from its text.
    pub fn from_str(src: &str) -> (r: Result<Method, InvalidMethod>)
        ensures
            r is Ok <==> valid_method(src.spec_bytes()),
            r matches Ok(m) ==> m@ == src.spec_bytes(),
    {
        Method::from_bytes(src.as_bytes())
    }

    /// The method's bytes.
    pub fn to_bytes(&self) -> (r: Vec<u8>)
        ensures
            r@ == self@,
            valid_method(self@),
    {
        let options: [u8; 7] = [79, 80, 84, 73, 79, 78, 83];
        let get: [u8; 3] = [71, 69, 84];
        let post: [u8; 4] = [80, 79, 83, 84];
        let put: [u8; 3] = [80, 85, 84];
        let delete: [u8; 6] = [68, 69, 76, 69, 84, 69];
        let head: [u8; 4] = [72, 69, 65, 68];
        let trace: [u8; 5] = [84, 82, 65, 67, 69];
        let connect: [u8; 7] = [67, 79, 78, 78, 69, 67, 84];
        let patch: [u8; 5] = [80, 65, 84, 67, 72];
        let r = match self {
            Method::OPTIONS => copy_bytes(options.as_slice()),
            Method::GET => copy_bytes(get.as_slice()),
            Method::POST => copy_bytes(post.as_slice()),
            Method::PUT => copy_bytes(put.as_slice()),
            Method::DELETE => copy_bytes(delete.as_slice()),
            Method::HEAD => copy_bytes(head.as_slice()),
            Method::TRACE => copy_bytes(trace.as_slice()),
            Method::CONNECT => copy_bytes(connect.as_slice()),
            Method::PATCH => copy_bytes(patch.as_slice()),
            Method::Extension(ext) => {
                proof {
                    use_type_invariant(ext);
                }
                copy_bytes(ext.bytes.as_slice())
            },
        };
        assert(r@ =~= self@);
        r
    }

    /// The method as text.
    pub fn as_str(&self) -> (r: String)
        ensures
            r@ == ascii_text(self@),
    {
        let bytes = self.to_bytes();
        proof {
            assert forall|i: int| 0 <= i < bytes@.len() implies #[trigger] bytes@[i] < 128 by {
                assert(is_method_byte(bytes@[i]));
            }
        }
        ascii_str(bytes.as_slice()).to_owned()
    }

    /// Whether two methods are the same.
    pub fn same(&self, other: &Method) -> (r: bool)
        ensures
            r == (self@ == other@),
    {
        let a = self.to_bytes();
        let b = other.to_bytes();
        bytes_eq(a.as_slice(), b.as_slice())
    }
}

} // verus!
