//! URLs.
//!
//! A [`Url`] holds the text of a URL as the `url` crate writes it. What only that crate
//! can tell of a URL (its parts, the text after a part was replaced) is named by the
//! spec functions of this file and computed by calls into the crate.

use crate::backend::builder::text_of;
use crate::text::byte_len;
use vstd::prelude::*;
use vstd::string::StringSliceAdditionalSpecFns;
use vstd::utf8::encode_utf8;

verus! {

/// The text of the URL that `url::Url::parse` reads from `input`, if it reads one.
pub uninterp spec fn url_parsed(input: Seq<char>) -> Option<Seq<char>>;

/// The path of the URL of the given text, as `url::Url::path` gives it.
pub uninterp spec fn url_path(text: Seq<char>) -> Seq<char>;

/// The query of the URL of the given text, as `url::Url::query` gives it.
pub uninterp spec fn url_query(text: Seq<char>) -> Option<Seq<char>>;

/// The scheme of the URL of the given text, as `url::Url::scheme` gives it.
pub uninterp spec fn url_scheme(text: Seq<char>) -> Seq<char>;

/// Whether the URL of the given text has an authority, as `url::Url::has_authority`
/// tells.
pub uninterp spec fn url_has_authority(text: Seq<char>) -> bool;

/// The text that `url::Url::set_path` leaves when it gives the URL of the given text
/// the path `path`.
pub uninterp spec fn url_with_path(text: Seq<char>, path: Seq<char>) -> Seq<char>;

/// The text that `url::Url::set_query` leaves when it gives the URL of the given text
/// the query `query`.
pub uninterp spec fn url_with_query(text: Seq<char>, query: Option<Seq<char>>) -> Seq<char>;

/// Whether `text` is the text of a URL: parsing it gives the same text back.
pub open spec fn is_url_text(text: Seq<char>) -> bool {
    url_parsed(text) == Some(text)
}

/// The largest number of bytes that the text of a URL may have.
pub const MAX_URL_LEN: usize = 4294967295;

/// Reads a URL.
///
/// Wraps `url::Url::parse` and the conversion of the URL into its text. The result is
/// named. The text of a URL is read as the same URL again.
#[verifier::external_body]
fn parse_url(input: &str) -> (r: Option<String>)
    ensures
        text_of(r) == url_parsed(input@),
        r matches Some(t) ==> is_url_text(t@),
{
    url::Url::parse(input).ok().map(String::from)
}

/// The path of a URL.
///
/// Wraps `url::Url::path` on the URL that `text` is read as. The result is named.
#[verifier::external_body]
fn path_of(text: &str) -> (r: String)
    requires
        is_url_text(text@),
    ensures
        r@ == url_path(text@),
{
    url::Url::parse(text).map(|u| u.path().to_owned()).unwrap_or_default()
}

/// The query of a URL.
///
/// Wraps `url::Url::query` on the URL that `text` is read as. The result is named.
#[verifier::external_body]
fn query_of(text: &str) -> (r: Option<String>)
    requires
        is_url_text(text@),
    ensures
        text_of(r) == url_query(text@),
{
    url::Url::parse(text).ok().and_then(|u| u.query().map(|q| q.to_owned()))
}

/// The scheme of a URL.
///
/// Wraps `url::Url::scheme` on the URL that `text` is read as. The result is named.
#[verifier::external_body]
fn scheme_of(text: &str) -> (r: String)
    requires
        is_url_text(text@),
    ensures
        r@ == url_scheme(text@),
{
    url::Url::parse(text).map(|u| u.scheme().to_owned()).unwrap_or_default()
}

/// Whether a URL has an authority.
///
/// Wraps `url::Url::has_authority` on the URL that `text` is read as. The result is
/// named.
#[verifier::external_body]
fn has_authority_of(text: &str) -> (r: bool)
    requires
        is_url_text(text@),
    ensures
        r == url_has_authority(text@),
{
    url::Url::parse(text).map(|u| u.has_authority()).unwrap_or_default()
}

/// Replaces the path of a URL.
///
/// Wraps `url::Url::set_path` on the URL that `text` is read as, which escapes the
/// path where needed, so that a byte of it becomes three at most. The crate counts
/// positions in 32 bits and panics beyond them: the call is kept to texts that stay
/// within. The result is named. Nothing is said of how the new text is read again: an
/// opaque path keeps a space at its end, which reading trims.
#[verifier::external_body]
fn replace_path(text: &str, path: &str) -> (r: String)
    requires
        is_url_text(text@),
        encode_utf8(text@).len() + 3 * encode_utf8(path@).len() < MAX_URL_LEN,
    ensures
        r@ == url_with_path(text@, path@),
{
    let mut parsed = url::Url::parse(text);
    if let Ok(u) = parsed.as_mut() {
        u.set_path(path);
    }
    parsed.map(String::from).unwrap_or_default()
}

/// Replaces or removes the query of a URL.
///
/// Wraps `url::Url::set_query` on the URL that `text` is read as, which escapes the
/// query where needed, so that a byte of it becomes three at most. The crate counts
/// positions in 32 bits and panics beyond them: the call is kept to texts that stay
/// within. The result is named. Nothing is said of how the new text is read again.
#[verifier::external_body]
fn replace_query(text: &str, query: Option<&str>) -> (r: String)
    requires
        is_url_text(text@),
        query matches Some(q) ==> encode_utf8(text@).len() + 3 * encode_utf8(q@).len() + 1
            < MAX_URL_LEN,
    ensures
        r@ == url_with_query(
            text@,
            match query {
                Some(q) => Some(q@),
                None => None,
            },
        ),
{
    let mut parsed = url::Url::parse(text);
    if let Ok(u) = parsed.as_mut() {
        u.set_query(query);
    }
    parsed.map(String::from).unwrap_or_default()
}

/// Whether a path of this size can be given to the URL of the given text: the text
/// stays below 4 GiB even where every byte of the path is escaped.
pub open spec fn url_path_fits(text: Seq<char>, path: Seq<char>) -> bool {
    encode_utf8(text).len() + 3 * encode_utf8(path).len() < MAX_URL_LEN
}

/// Whether a query of this size can be given to the URL of the given text: the text
/// stays below 4 GiB even where every byte of the query is escaped.
pub open spec fn url_query_fits(text: Seq<char>, query: Seq<char>) -> bool {
    encode_utf8(text).len() + 3 * encode_utf8(query).len() + 1 < MAX_URL_LEN
}

/// The text that is kept where a URL of the text `text` was changed to `changed`: the
/// URL that `changed` is read as or, where it cannot be read as one, `text` as it was.
pub open spec fn url_kept(text: Seq<char>, changed: Seq<char>) -> Seq<char> {
    match url_parsed(changed) {
        Some(read) => read,
        None => text,
    }
}

/// The text of a URL after [`Url::set_path`] gave it the path `path`.
pub open spec fn url_after_path(text: Seq<char>, path: Seq<char>) -> Seq<char> {
    url_kept(text, url_with_path(text, path))
}

/// The text of a URL after [`Url::set_query`] gave it the query `query`, or took its
/// query away.
pub open spec fn url_after_query(text: Seq<char>, query: Option<Seq<char>>) -> Seq<char> {
    url_kept(text, url_with_query(text, query))
}

/// The error of reading a text that is no URL.
#[derive(Clone, Copy, Debug, PartialEq, Eq, Structural)]
pub struct ParseError {}

/// A URL.
#[derive(Debug, PartialEq, Eq, Hash)]
pub struct Url {
    serialization: String,
}

impl View for Url {
    type V = Seq<char>;

    /// The text of the URL.
    closed spec fn view(&self) -> Seq<char> {
        self.serialization@
    }
}

impl Clone for Url {
    fn clone(&self) -> (r: Self)
        ensures
            r@ == self@,
    {
        proof {
            use_type_invariant(self);
        }
        Url { serialization: self.serialization.clone() }
    }
}

impl Url {
    #[verifier::type_invariant]
    closed spec fn inv(&self) -> bool {
        is_url_text(self.serialization@)
    }

    /// Reads a URL from text.
    pub fn parse(input: &str) -> (r: Result<Url, ParseError>)
        ensures
            match r {
                Ok(u) => url_parsed(input@) == Some(u@) && is_url_text(u@),
                Err(_) => url_parsed(input@) is None,
            },
    {
        match parse_url(input) {
            Some(serialization) => Ok(Url { serialization }),
            None => Err(ParseError {  }),
        }
    }

    /// The text of the URL.
    pub fn as_str(&self) -> (r: &str)
        ensures
            r@ == self@,
            is_url_text(self@),
    {
        proof {
            use_type_invariant(self);
        }
        self.serialization.as_str()
    }

    /// The text of the URL, the URL given up.
    pub fn into_string(self) -> (r: String)
        ensures
            r@ == self@,
    {
        self.serialization
    }

    /// The path of the URL.
    pub fn path(&self) -> (r: String)
        ensures
            r@ == url_path(self@),
    {
        path_of(self.as_str())
    }

    /// The query of the URL, if it has one.
    pub fn query(&self) -> (r: Option<String>)
        ensures
            text_of(r) == url_query(self@),
    {
        query_of(self.as_str())
    }

    /// The scheme of the URL.
    pub fn scheme(&self) -> (r: String)
        ensures
            r@ == url_scheme(self@),
    {
        scheme_of(self.as_str())
    }

    /// Whether the URL has an authority: a host, and perhaps a user and a port.
    pub fn has_authority(&self) -> (r: bool)
        ensures
            r == url_has_authority(self@),
    {
        has_authority_of(self.as_str())
    }

    /// Whether a path of this size can be given to the URL.
    pub open spec fn path_fits(&self, path: Seq<char>) -> bool {
        url_path_fits(self@, path)
    }

    /// Whether a query of this size can be given to the URL.
    pub open spec fn query_fits(&self, query: Seq<char>) -> bool {
        url_query_fits(self@, query)
    }

    /// Tests [`Url::path_fits`].
    pub fn path_fits_exec(&self, path: &str) -> (r: bool)
        ensures
            r == self.path_fits(path@),
    {
        let own = byte_len(self.as_str());
        let other = byte_len(path);
        other < MAX_URL_LEN / 3 && own < MAX_URL_LEN - 3 * other
    }

    /// Tests [`Url::query_fits`].
    pub fn query_fits_exec(&self, query: &str) -> (r: bool)
        ensures
            r == self.query_fits(query@),
    {
        let own = byte_len(self.as_str());
        let other = byte_len(query);
        other < MAX_URL_LEN / 3 && own < MAX_URL_LEN - 3 * other - 1
    }

    /// Gives the URL another path. The new text is read again as a URL, and what that
    /// gives is kept; where it cannot be read, the URL stays as it was.
    pub fn set_path(&mut self, path: &str)
        requires
            old(self).path_fits(path@),
        ensures
            final(self)@ == url_after_path(old(self)@, path@),
    {
        let changed = replace_path(self.as_str(), path);
        match parse_url(changed.as_str()) {
            Some(read) => {
                *self = Url { serialization: read };
            },
            None => {},
        }
    }

    /// Gives the URL another query, or none. The new text is read again as a URL, and
    /// what that gives is kept; where it cannot be read, the URL stays as it was.
    pub fn set_query(&mut self, query: Option<&str>)
        requires
            query matches Some(q) ==> old(self).query_fits(q@),
        ensures
            final(self)@ == url_after_query(
                old(self)@,
                match query {
                    Some(q) => Some(q@),
                    None => None,
                },
            ),
    {
        let changed = replace_query(self.as_str(), query);
        match parse_url(changed.as_str()) {
            Some(read) => {
                *self = Url { serialization: read };
            },
            None => {},
        }
    }

    /// Whether two URLs have the same text.
    pub fn same(&self, other: &Url) -> (r: bool)
        ensures
            r == (self@ == other@),
    {
        self.serialization == other.serialization
    }
}

} // verus!
