//! Media types.

use crate::http::header::{is_header_value_byte, valid_header_value, HeaderValue};
use vstd::prelude::*;
use vstd::string::StringSliceAdditionalSpecFns;

verus! {

/// The text that the `mime` crate holds for a media type that it reads from
/// `input`, if it accepts the input.
pub uninterp spec fn mime_source(input: Seq<char>) -> Option<Seq<char>>;

/// Reads a media type.
///
/// Wraps the `FromStr` of `mime::Mime` and its `AsRef<str>`: the result is the text
/// that the crate holds for the media type, `None` where it rejects the input. The
/// result is named.
#[verifier::external_body]
fn parse_mime(input: &str) -> (r: Option<String>)
    ensures
        match r {
            Some(s) => mime_source(input@) == Some(s@),
            None => mime_source(input@) is None,
        },
{
    input.parse::<mime::Mime>().ok().map(|m| m.as_ref().to_owned())
}

/// The error of reading a text that is no media type.
#[derive(Clone, Copy, Debug, PartialEq, Eq, Structural)]
pub struct InvalidMime {}

/// A media type, such as `text/plain; charset=utf-8`.
#[derive(Debug, PartialEq, Eq, Hash)]
pub struct Mime {
    source: String,
}

impl View for Mime {
    type V = Seq<char>;

    closed spec fn view(&self) -> Seq<char> {
        self.source@
    }
}

impl Clone for Mime {
    fn clone(&self) -> (r: Self)
        ensures
            r@ == self@,
    {
        proof {
            use_type_invariant(self);
        }
        Mime { source: self.source.clone() }
    }
}

fn all_header_value_bytes(bytes: &[u8]) -> (r: bool)
    ensures
        r == valid_header_value(bytes@),
{
    let mut i: usize = 0;
    while i < bytes.len()
        invariant
            0 <= i <= bytes@.len(),
            forall|j: int| 0 <= j < i ==> is_header_value_byte(#[trigger] bytes@[j]),
        decreases bytes@.len() - i,
    {
        let b = bytes[i];
        if !(b >= 32 && b != 127 || b == 9) {
            return false;
        }
        i = i + 1;
    }
    true
}

/// Whether `text` is what a media type read from `input` is held as: the `mime` crate
/// accepts the input and holds it as `text`, and `text` can stand in a header.
pub open spec fn mime_reads_as(input: Seq<char>, text: Seq<char>) -> bool {
    mime_source(input) == Some(text) && valid_header_value(vstd::utf8::encode_utf8(text))
}

/// A text of printable ASCII characters can stand in a header.
proof fn lemma_printable_text(s: &str)
    requires
        forall|i: int| 0 <= i < s@.len() ==> ' ' <= #[trigger] s@[i] <= '~',
    ensures
        valid_header_value(s.spec_bytes()),
{
    let chars = s@;
    assert(vstd::utf8::is_ascii_chars(chars));
    vstd::utf8::is_ascii_chars_encode_utf8(chars);
    let bytes = s.spec_bytes();
    assert forall|i: int| 0 <= i < bytes.len() implies is_header_value_byte(#[trigger] bytes[i]) by {
        assert(chars[i] as u8 == bytes[i]);
    }
}

impl Mime {
    /// The media type `text/plain; charset=utf-8`.
    pub fn text_plain_utf_8() -> (m: Mime)
        ensures
            m@ == "text/plain; charset=utf-8"@,
    {
        proof {
            reveal_strlit("text/plain; charset=utf-8");
            lemma_printable_text("text/plain; charset=utf-8");
        }
        Mime { source: "text/plain; charset=utf-8".to_owned() }
    }

    /// The media type `text/html; charset=utf-8`.
    pub fn text_html_utf_8() -> (m: Mime)
        ensures
            m@ == "text/html; charset=utf-8"@,
    {
        proof {
            reveal_strlit("text/html; charset=utf-8");
            lemma_printable_text("text/html; charset=utf-8");
        }
        Mime { source: "text/html; charset=utf-8".to_owned() }
    }

    /// The media type `application/octet-stream`.
    pub fn application_octet_stream() -> (m: Mime)
        ensures
            m@ == "application/octet-stream"@,
    {
        proof {
            reveal_strlit("application/octet-stream");
            lemma_printable_text("application/octet-stream");
        }
        Mime { source: "application/octet-stream".to_owned() }
    }

    /// The media type `application/json`.
    pub fn application_json() -> (m: Mime)
        ensures
            m@ == "application/json"@,
    {
        proof {
            reveal_strlit("application/json");
            lemma_printable_text("application/json");
        }
        Mime { source: "application/json".to_owned() }
    }

    /// The media type `application/x-www-form-urlencoded`.
    pub fn application_www_form_urlencoded() -> (m: Mime)
        ensures
            m@ == "application/x-www-form-urlencoded"@,
    {
        proof {
            reveal_strlit("application/x-www-form-urlencoded");
            lemma_printable_text("application/x-www-form-urlencoded");
        }
        Mime { source: "application/x-www-form-urlencoded".to_owned() }
    }

    #[verifier::type_invariant]
    closed spec fn inv(&self) -> bool {
        valid_header_value(vstd::utf8::encode_utf8(self.source@))
    }

    /// Reads a media type from text.
    pub fn from_str(input: &str) -> (r: Result<Mime, InvalidMime>)
        ensures
            match r {
                Ok(m) => mime_reads_as(input@, m@),
                Err(_) => !exists|text: Seq<char>| mime_reads_as(input@, text),
            },
    {
        match parse_mime(input) {
            Some(source) => {
                if all_header_value_bytes(source.as_str().as_bytes()) {
                    Ok(Mime { source })
                } else {
                    Err(InvalidMime {  })
                }
            },
            None => Err(InvalidMime {  }),
        }
    }

    /// The media type as text.
    pub fn as_str(&self) -> (r: &str)
        ensures
            r@ == self@,
            valid_header_value(r.spec_bytes()),
    {
        proof {
            use_type_invariant(self);
        }
        self.source.as_str()
    }

    /// The media type as a header value.
    pub fn to_header_value(&self) -> (v: HeaderValue)
        ensures
            v@ == vstd::utf8::encode_utf8(self@),
    {
        let text = self.as_str();
        match HeaderValue::from_bytes(text.as_bytes()) {
            Ok(v) => v,
            Err(_) => vstd::pervasive::unreached(),
        }
    }
}

} // verus!
