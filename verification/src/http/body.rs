//! The body of a message.
//!
//! A [`Body`] holds the bytes of a body in the guest's memory. The program moves bytes
//! between a `Body` and the host's body of a handle where it sends or receives.

use crate::text::{copy_bytes, str_from_utf8};
use vstd::prelude::*;
use vstd::std_specs::convert::FromSpecImpl;
use vstd::string::StringSliceAdditionalSpecFns;
use vstd::utf8::{decode_utf8, valid_utf8};

pub mod handle;
pub mod streaming;

verus! {

/// The bytes of an optional body, none for a body that is absent.
pub open spec fn body_bytes(body: Option<Body>) -> Option<Seq<u8>> {
    match body {
        Some(b) => Some(b@),
        None => None,
    }
}

/// Where bytes stop being valid UTF-8, as `std::str::Utf8Error` reports it.
#[derive(Clone, Copy, Debug, PartialEq, Eq, Structural)]
pub struct Utf8Error {
    /// The length of the longest prefix that is valid UTF-8.
    pub valid_up_to: usize,
    /// The length of the invalid sequence behind that prefix; `None` where the bytes
    /// end in the middle of a character.
    pub error_len: Option<u8>,
}

/// The length that `Utf8Error::error_len` reports for bytes that are not valid UTF-8.
pub uninterp spec fn utf8_error_len(bytes: Seq<u8>) -> Option<u8>;

/// Whether `k` is the length of the longest prefix of `bytes` that is valid UTF-8.
pub open spec fn is_valid_up_to(bytes: Seq<u8>, k: int) -> bool {
    &&& 0 <= k <= bytes.len()
    &&& valid_utf8(bytes.take(k))
    &&& forall|j: int| k < j <= bytes.len() ==> !valid_utf8(#[trigger] bytes.take(j))
}

/// Tests bytes for UTF-8.
///
/// Wraps `std::str::from_utf8` and the `valid_up_to` and `error_len` of its error.
/// Valid bytes give `None`. Else `valid_up_to` is the length of the longest prefix
/// that is valid, and `error_len` is `None` exactly where the bytes end in the middle
/// of a character, which then began one to three bytes before the end.
#[verifier::external_body]
fn utf8_defect(bytes: &[u8]) -> (r: Option<Utf8Error>)
    ensures
        r is None <==> valid_utf8(bytes@),
        r matches Some(e) ==> {
            &&& is_valid_up_to(bytes@, e.valid_up_to as int)
            &&& e.valid_up_to < bytes@.len()
            &&& e.error_len == utf8_error_len(bytes@)
            &&& e.error_len is None ==> bytes@.len() - e.valid_up_to <= 3
        },
{
    std::str::from_utf8(bytes).err().map(
        |e| Utf8Error { valid_up_to: e.valid_up_to(), error_len: e.error_len().map(|n| n as u8) },
    )
}

/// Bytes that are valid UTF-8 as an owned text.
fn text_of_utf8(bytes: &[u8]) -> (s: String)
    requires
        valid_utf8(bytes@),
    ensures
        s@ == decode_utf8(bytes@),
{
    match str_from_utf8(bytes) {
        Some(s) => s.to_owned(),
        None => String::new(),
    }
}

/// The body of a request or a response.
#[derive(Debug, PartialEq, Eq)]
pub struct Body {
    bytes: Vec<u8>,
}

impl View for Body {
    type V = Seq<u8>;

    closed spec fn view(&self) -> Seq<u8> {
        self.bytes@
    }
}

impl Clone for Body {
    fn clone(&self) -> (r: Self)
        ensures
            r@ == self@,
    {
        Body { bytes: copy_bytes(self.bytes.as_slice()) }
    }
}

/// Some bytes taken off the front of a body.
#[derive(Debug, PartialEq, Eq)]
pub struct Prefix {
    buf: Vec<u8>,
}

impl View for Prefix {
    type V = Seq<u8>;

    closed spec fn view(&self) -> Seq<u8> {
        self.buf@
    }
}

/// Some text taken off the front of a body.
#[derive(Debug, PartialEq, Eq)]
pub struct PrefixString {
    buf: String,
}

impl View for PrefixString {
    type V = Seq<char>;

    closed spec fn view(&self) -> Seq<char> {
        self.buf@
    }
}

/// The first `length` bytes of `bytes`, or all of them if there are fewer.
pub open spec fn front(bytes: Seq<u8>, length: usize) -> Seq<u8> {
    if length <= bytes.len() {
        bytes.take(length as int)
    } else {
        bytes
    }
}

/// What is left of `bytes` behind its first `length` bytes.
pub open spec fn behind(bytes: Seq<u8>, length: usize) -> Seq<u8> {
    if length <= bytes.len() {
        bytes.skip(length as int)
    } else {
        Seq::empty()
    }
}

/// The chunks of at most `chunk_size` bytes that `bytes` falls into.
pub open spec fn chunks_of(bytes: Seq<u8>, chunk_size: usize) -> Seq<Seq<u8>>
    decreases bytes.len(),
{
    if chunk_size == 0 || bytes.len() == 0 {
        Seq::empty()
    } else if bytes.len() <= chunk_size {
        seq![bytes]
    } else {
        seq![bytes.take(chunk_size as int)] + chunks_of(bytes.skip(chunk_size as int), chunk_size)
    }
}

/// The bytes of each chunk.
pub open spec fn chunk_views(chunks: Seq<Vec<u8>>) -> Seq<Seq<u8>> {
    Seq::new(chunks.len(), |i: int| chunks[i]@)
}

/// The chunks, joined.
pub open spec fn joined(chunks: Seq<Seq<u8>>) -> Seq<u8>
    decreases chunks.len(),
{
    if chunks.len() == 0 {
        Seq::empty()
    } else {
        chunks[0] + joined(chunks.skip(1))
    }
}

/// The chunks of some bytes, joined, are those bytes, and no chunk is empty or larger
/// than the chunk size.
pub proof fn lemma_chunks_join(bytes: Seq<u8>, chunk_size: usize)
    requires
        chunk_size > 0,
    ensures
        joined(chunks_of(bytes, chunk_size)) == bytes,
        forall|i: int|
            0 <= i < chunks_of(bytes, chunk_size).len() ==> 0 < (#[trigger] chunks_of(
                bytes,
                chunk_size,
            )[i]).len() <= chunk_size,
    decreases bytes.len(),
{
    let chunks = chunks_of(bytes, chunk_size);
    if bytes.len() == 0 {
        assert(bytes =~= Seq::<u8>::empty());
    } else if bytes.len() <= chunk_size {
        assert(chunks.skip(1) =~= Seq::<Seq<u8>>::empty());
        assert(joined(chunks.skip(1)) =~= Seq::<u8>::empty());
        assert(chunks[0] == bytes);
        assert(joined(chunks) =~= bytes);
    } else {
        let rest = bytes.skip(chunk_size as int);
        lemma_chunks_join(rest, chunk_size);
        assert(chunks.skip(1) =~= chunks_of(rest, chunk_size));
        assert(joined(chunks) =~= bytes);
        assert forall|i: int| 0 <= i < chunks.len() implies 0 < (#[trigger] chunks[i]).len()
            <= chunk_size by {
            if i > 0 {
                assert(chunks[i] == chunks_of(rest, chunk_size)[i - 1]);
            }
        }
    }
}

impl Body {
    /// An empty body.
    pub fn new() -> (b: Body)
        ensures
            b@ == Seq::<u8>::empty(),
    {
        Body { bytes: Vec::new() }
    }

    /// A body of the given bytes.
    pub fn from_bytes(bytes: &[u8]) -> (b: Body)
        ensures
            b@ == bytes@,
    {
        Body { bytes: copy_bytes(bytes) }
    }

    /// A body of the given text, in UTF-8.
    pub fn from_str(s: &str) -> (b: Body)
        ensures
            b@ == s.spec_bytes(),
    {
        Body { bytes: copy_bytes(s.as_bytes()) }
    }

    /// The number of bytes in the body.
    pub fn len(&self) -> (n: usize)
        ensures
            n == self@.len(),
    {
        self.bytes.len()
    }

    /// The bytes of the body, the body given up.
    pub fn into_bytes(self) -> (r: Vec<u8>)
        ensures
            r@ == self@,
    {
        self.bytes
    }

    /// The body as text. The body has to be valid UTF-8.
    pub fn into_string(self) -> (r: String)
        requires
            valid_utf8(self@),
        ensures
            r@ == decode_utf8(self@),
    {
        text_of_utf8(self.bytes.as_slice())
    }

    /// The body as text, or the body back where it is not valid UTF-8.
    pub fn try_into_string(self) -> (r: Result<String, Body>)
        ensures
            match r {
                Ok(s) => valid_utf8(self@) && s@ == decode_utf8(self@),
                Err(b) => !valid_utf8(self@) && b@ == self@,
            },
    {
        match utf8_defect(self.bytes.as_slice()) {
            None => Ok(text_of_utf8(self.bytes.as_slice())),
            Some(_) => Err(self),
        }
    }

    /// Puts the bytes of `other` behind those of this body.
    pub fn append(&mut self, other: Body)
        ensures
            final(self)@ == old(self)@ + other@,
    {
        let mut other = other;
        self.bytes.append(&mut other.bytes);
    }

    /// Writes bytes at the end of the body and returns how many were written: all.
    pub fn write_bytes(&mut self, bytes: &[u8]) -> (n: usize)
        ensures
            final(self)@ == old(self)@ + bytes@,
            n == bytes@.len(),
    {
        self.bytes.extend_from_slice(bytes);
        bytes.len()
    }

    /// Writes text at the end of the body and returns how many bytes were written.
    pub fn write_str(&mut self, string: &str) -> (n: usize)
        ensures
            final(self)@ == old(self)@ + string.spec_bytes(),
            n == string.spec_bytes().len(),
    {
        self.write_bytes(string.as_bytes())
    }

    /// Writes bytes at the front of the body.
    pub fn write_front(&mut self, bytes: &[u8])
        ensures
            final(self)@ == bytes@ + old(self)@,
    {
        let mut joined = copy_bytes(bytes);
        joined.append(&mut self.bytes);
        self.bytes = joined;
    }

    /// Takes the bytes out of the body in chunks of `chunk_size` bytes, the last one
    /// perhaps shorter. With a chunk size of zero nothing is taken.
    pub fn read_chunks(&mut self, chunk_size: usize) -> (chunks: Vec<Vec<u8>>)
        ensures
            chunk_views(chunks@) == chunks_of(old(self)@, chunk_size),
            final(self)@ == if chunk_size == 0 {
                old(self)@
            } else {
                Seq::<u8>::empty()
            },
    {
        let mut chunks: Vec<Vec<u8>> = Vec::new();
        if chunk_size == 0 {
            assert(chunk_views(chunks@) =~= chunks_of(self@, chunk_size));
            return chunks;
        }
        let ghost all = self@;
        let mut at: usize = 0;
        let total = self.bytes.len();
        proof {
            assert(all.skip(0) =~= all);
            assert(chunk_views(chunks@) + chunks_of(all, chunk_size) =~= chunks_of(
                all,
                chunk_size,
            ));
        }
        while at < total
            invariant
                chunk_size > 0,
                self@ == all,
                total == all.len(),
                0 <= at <= total,
                chunk_views(chunks@) + chunks_of(all.skip(at as int), chunk_size) == chunks_of(
                    all,
                    chunk_size,
                ),
            decreases total - at,
        {
            let end = if total - at <= chunk_size {
                total
            } else {
                at + chunk_size
            };
            let chunk = copy_bytes(vstd::slice::slice_subrange(self.bytes.as_slice(), at, end));
            let ghost before = chunk_views(chunks@);
            let ghost rest = all.skip(at as int);
            chunks.push(chunk);
            proof {
                assert(chunk@ =~= front(rest, chunk_size));
                assert(all.skip(end as int) =~= behind(rest, chunk_size));
                assert(chunk_views(chunks@) =~= before.push(chunk@));
                if rest.len() <= chunk_size {
                    assert(chunks_of(all.skip(end as int), chunk_size) =~= Seq::<
                        Seq<u8>,
                    >::empty());
                    assert(chunks_of(rest, chunk_size) =~= seq![rest]);
                }
                assert(before.push(chunk@) + chunks_of(all.skip(end as int), chunk_size)
                    =~= before + chunks_of(rest, chunk_size));
            }
            at = end;
        }
        proof {
            assert(all.skip(at as int) =~= Seq::<u8>::empty());
            assert(chunk_views(chunks@) + Seq::<Seq<u8>>::empty() =~= chunk_views(chunks@));
        }
        self.bytes = Vec::new();
        chunks
    }

    fn take_front(&mut self, length: usize) -> (head: Vec<u8>)
        ensures
            head@ == front(old(self)@, length),
            final(self)@ == behind(old(self)@, length),
    {
        if length >= self.bytes.len() {
            let mut head: Vec<u8> = Vec::new();
            head.append(&mut self.bytes);
            assert(head@ =~= front(old(self)@, length));
            head
        } else {
            let tail = self.bytes.split_off(length);
            let mut head: Vec<u8> = Vec::new();
            head.append(&mut self.bytes);
            self.bytes = tail;
            assert(head@ =~= front(old(self)@, length));
            assert(self@ =~= behind(old(self)@, length));
            head
        }
    }

    /// Takes up to `length` bytes off the front of the body.
    pub fn get_prefix_mut(&mut self, length: usize) -> (p: Prefix)
        ensures
            p@ == front(old(self)@, length),
            final(self)@ == behind(old(self)@, length),
    {
        Prefix { buf: self.take_front(length) }
    }

    /// Takes up to `length` bytes off the front of the body. Reading the bytes of a
    /// [`Body`] does not fail.
    pub fn try_get_prefix_mut(&mut self, length: usize) -> (r: Result<Prefix, Utf8Error>)
        ensures
            r matches Ok(p) && p@ == front(old(self)@, length),
            final(self)@ == behind(old(self)@, length),
    {
        Ok(self.get_prefix_mut(length))
    }

    /// Takes the text of up to `length` bytes off the front of the body. Where the
    /// bytes end in the middle of a character, the bytes of that character stay in the
    /// body. The bytes taken must hold no other invalid UTF-8.
    pub fn get_prefix_str_mut(&mut self, length: usize) -> (p: PrefixString)
        requires
            valid_utf8(front(old(self)@, length)) || utf8_error_len(front(old(self)@, length))
                is None,
        ensures
            exists|k: int|
                {
                    &&& #[trigger] is_text_front(old(self)@, length, k)
                    &&& p@ == decode_utf8(old(self)@.take(k))
                    &&& final(self)@ == old(self)@.skip(k)
                },
    {
        let ghost all = self@;
        let mut buf = self.take_front(length);
        proof {
            assert(buf@ + self@ =~= all);
        }
        match utf8_defect(buf.as_slice()) {
            None => {
                let text = text_of_utf8(buf.as_slice());
                proof {
                    let k = buf@.len() as int;
                    assert(all.take(k) =~= buf@);
                    assert(all.skip(k) =~= self@);
                    assert(is_text_front(all, length, k));
                }
                PrefixString { buf: text }
            },
            Some(e) => {
                let end_bytes = buf.split_off(e.valid_up_to);
                let text = text_of_utf8(buf.as_slice());
                self.write_front(end_bytes.as_slice());
                proof {
                    let k = e.valid_up_to as int;
                    assert(all.take(k) =~= buf@);
                    assert(all.skip(k) =~= self@);
                    assert(front(all, length).take(k) =~= all.take(k));
                    assert(is_text_front(all, length, k));
                }
                PrefixString { buf: text }
            },
        }
    }

    /// Whether the first `length` bytes of the body can be taken as text: they are
    /// valid UTF-8, or end in the middle of a character and are valid up to there.
    pub fn prefix_is_text(&self, length: usize) -> (r: bool)
        ensures
            r == (valid_utf8(front(self@, length)) || utf8_error_len(front(self@, length))
                is None),
    {
        let end = if length <= self.bytes.len() {
            length
        } else {
            self.bytes.len()
        };
        let head = vstd::slice::slice_subrange(self.bytes.as_slice(), 0, end);
        assert(head@ =~= front(self@, length));
        match utf8_defect(head) {
            Some(e) => e.error_len.is_none(),
            None => true,
        }
    }

    /// Takes the text of up to `length` bytes off the front of the body.
    ///
    /// Where the bytes are valid UTF-8, all of them are taken. Where they end in the
    /// middle of a character, the text before it is taken and the bytes of that
    /// character stay in the body. Where they hold bytes that are no UTF-8 at all,
    /// nothing is taken and the error says where the first such bytes are.
    pub fn try_get_prefix_str_mut(&mut self, length: usize) -> (r: Result<
        PrefixString,
        Utf8Error,
    >)
        ensures
            match r {
                Ok(p) => exists|k: int|
                    {
                        &&& #[trigger] is_text_front(old(self)@, length, k)
                        &&& p@ == decode_utf8(old(self)@.take(k))
                        &&& final(self)@ == old(self)@.skip(k)
                    },
                Err(e) => {
                    &&& !valid_utf8(front(old(self)@, length))
                    &&& utf8_error_len(front(old(self)@, length)) is Some
                    &&& e.error_len == utf8_error_len(front(old(self)@, length))
                    &&& is_valid_up_to(front(old(self)@, length), e.valid_up_to as int)
                    &&& final(self)@ == old(self)@
                },
            },
    {
        let end = if length <= self.bytes.len() {
            length
        } else {
            self.bytes.len()
        };
        let head = vstd::slice::slice_subrange(self.bytes.as_slice(), 0, end);
        assert(head@ =~= front(self@, length));
        match utf8_defect(head) {
            Some(e) => {
                if e.error_len.is_some() {
                    Err(e)
                } else {
                    Ok(self.get_prefix_str_mut(length))
                }
            },
            None => Ok(self.get_prefix_str_mut(length)),
        }
    }
}

/// Whether `k` is the number of bytes that [`Body::try_get_prefix_str_mut`] takes off
/// a body of `bytes` when asked for `length`: all of the first `length` bytes where
/// they are valid UTF-8, else the longest valid part of them, which ends one to three
/// bytes before their end.
pub open spec fn is_text_front(bytes: Seq<u8>, length: usize, k: int) -> bool {
    let head = front(bytes, length);
    if valid_utf8(head) {
        k == head.len()
    } else {
        &&& utf8_error_len(head) is None
        &&& is_valid_up_to(head, k)
        &&& head.len() - 3 <= k < head.len()
    }
}

impl FromSpecImpl<Vec<u8>> for Body {
    open spec fn obeys_from_spec() -> bool {
        false
    }

    closed spec fn from_spec(v: Vec<u8>) -> Self {
        Body { bytes: v }
    }
}

impl From<Vec<u8>> for Body {
    fn from(v: Vec<u8>) -> (b: Body)
        ensures
            b@ == v@,
    {
        Body { bytes: v }
    }
}

impl<'a> FromSpecImpl<&'a [u8]> for Body {
    open spec fn obeys_from_spec() -> bool {
        false
    }

    closed spec fn from_spec(v: &'a [u8]) -> Self {
        arbitrary()
    }
}

impl<'a> From<&'a [u8]> for Body {
    fn from(v: &'a [u8]) -> (b: Body)
        ensures
            b@ == v@,
    {
        Body::from_bytes(v)
    }
}

impl<'a> FromSpecImpl<&'a str> for Body {
    open spec fn obeys_from_spec() -> bool {
        false
    }

    closed spec fn from_spec(v: &'a str) -> Self {
        arbitrary()
    }
}

impl<'a> From<&'a str> for Body {
    fn from(v: &'a str) -> (b: Body)
        ensures
            b@ == v.spec_bytes(),
    {
        Body::from_str(v)
    }
}

impl FromSpecImpl<String> for Body {
    open spec fn obeys_from_spec() -> bool {
        false
    }

    closed spec fn from_spec(v: String) -> Self {
        arbitrary()
    }
}

impl From<String> for Body {
    fn from(v: String) -> (b: Body)
        ensures
            b@ == vstd::utf8::encode_utf8(v@),
    {
        Body::from_str(v.as_str())
    }
}

impl Prefix {
    /// The bytes of the prefix, which do not go back into the body.
    pub fn take(self) -> (r: Vec<u8>)
        ensures
            r@ == self@,
    {
        self.buf
    }

    /// The bytes of the prefix.
    pub fn as_slice(&self) -> (r: &[u8])
        ensures
            r@ == self@,
    {
        self.buf.as_slice()
    }

    /// Puts the bytes of the prefix back at the front of a body.
    pub fn put_back(self, body: &mut Body)
        ensures
            final(body)@ == self@ + old(body)@,
    {
        body.write_front(self.buf.as_slice());
    }
}

impl PrefixString {
    /// The text of the prefix, which does not go back into the body.
    pub fn take(self) -> (r: String)
        ensures
            r@ == self@,
    {
        self.buf
    }

    /// The text of the prefix.
    pub fn as_str(&self) -> (r: &str)
        ensures
            r@ == self@,
    {
        self.buf.as_str()
    }

    /// Puts the text of the prefix back at the front of a body.
    pub fn put_back(self, body: &mut Body)
        ensures
            final(body)@ == vstd::utf8::encode_utf8(self@) + old(body)@,
    {
        body.write_front(self.buf.as_str().as_bytes());
    }
}

} // verus!
