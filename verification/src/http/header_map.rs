//! The headers of a message: a map from names to lists of values.
//!
//! The map is the `HeaderMap` of the `http` crate, with the values held as their
//! bytes. What it holds is named by [`raw_contents`]; the functions of this file that
//! call into the crate say over that name what each call does, and nothing of them is
//! proved.

use crate::http::header::{canonical_header_name, valid_header_value, HeaderName, HeaderValue};
use vstd::prelude::*;

verus! {

/// `http::HeaderMap`, a multimap from header names to values.
#[verifier::external_type_specification]
#[verifier::external_body]
#[verifier::reject_recursive_types(T)]
pub struct ExRawHeaders<T>(http::HeaderMap<T>);

/// The map as this library holds it: the values are kept as their bytes.
pub type RawHeaders = http::HeaderMap<Vec<u8>>;

/// What a map holds: for each name that has values, its values in the order in which
/// they were added.
pub uninterp spec fn raw_contents(m: RawHeaders) -> Map<
    Seq<u8>,
    Seq<Seq<u8>>,
>;

/// The number of names below which the map takes another one without fail.
///
/// The map refuses to grow its table beyond 32768 slots. It grows when three quarters
/// of the slots are taken or, once it has seen many collisions, when a fifth is: so no
/// call asks for more than 32768 slots while it holds fewer than 6554 names.
pub const MAX_HEADER_NAMES: usize = 6554;

/// Contents without a name.
pub open spec fn no_headers() -> Map<Seq<u8>, Seq<Seq<u8>>> {
    Map::empty()
}

/// The bytes of each value.
pub open spec fn views(values: Seq<HeaderValue>) -> Seq<Seq<u8>> {
    Seq::new(values.len(), |i: int| values[i]@)
}

/// The bytes of each name.
pub open spec fn name_views(names: Seq<HeaderName>) -> Seq<Seq<u8>> {
    Seq::new(names.len(), |i: int| names[i]@)
}

/// The values of `name` in `contents`, none where the name is absent.
pub open spec fn values_of(contents: Map<Seq<u8>, Seq<Seq<u8>>>, name: Seq<u8>) -> Seq<Seq<u8>> {
    if contents.contains_key(name) {
        contents[name]
    } else {
        Seq::empty()
    }
}

/// What holds of the contents of every map: finitely many names, each a header name
/// in lower case with at least one value, and every value a valid one.
pub open spec fn contents_wf(contents: Map<Seq<u8>, Seq<Seq<u8>>>) -> bool {
    &&& contents.dom().finite()
    &&& forall|name: Seq<u8>| #[trigger]
        contents.contains_key(name) ==> canonical_header_name(name) && contents[name].len() > 0
    &&& forall|name: Seq<u8>, i: int|
        contents.contains_key(name) && 0 <= i < contents[name].len() ==> valid_header_value(
            #[trigger] contents[name][i],
        )
}

/// An empty map.
///
/// Wraps `HeaderMap::with_capacity`, which for the capacity zero makes an empty map
/// and allocates nothing.
#[verifier::external_body]
fn raw_new() -> (m: RawHeaders)
    ensures
        raw_contents(m) == no_headers(),
{
    http::HeaderMap::with_capacity(0)
}

/// Gives `name` the one value `value`.
///
/// Wraps `HeaderMap::insert`, which replaces whatever values the name had. It panics
/// where the map cannot grow, so the call is kept to maps with room.
#[verifier::external_body]
fn raw_insert(m: &mut RawHeaders, name: &HeaderName, value: &HeaderValue)
    requires
        raw_contents(*old(m)).dom().len() < MAX_HEADER_NAMES,
        contents_wf(raw_contents(*old(m))),
    ensures
        raw_contents(*final(m)) == raw_contents(*old(m)).insert(name@, seq![value@]),
    no_unwind
{
    if let Ok(n) = http::header::HeaderName::from_bytes(name.as_bytes()) {
        m.insert(n, value.as_bytes().to_vec());
    }
}

/// Adds `value` to the values of `name`.
///
/// Wraps `HeaderMap::append`, which puts the value behind those that the name has. It
/// panics where the map cannot grow, so the call is kept to maps with room.
#[verifier::external_body]
fn raw_append(m: &mut RawHeaders, name: &HeaderName, value: &HeaderValue)
    requires
        raw_contents(*old(m)).dom().len() < MAX_HEADER_NAMES,
        contents_wf(raw_contents(*old(m))),
    ensures
        raw_contents(*final(m)) == raw_contents(*old(m)).insert(
            name@,
            values_of(raw_contents(*old(m)), name@).push(value@),
        ),
    no_unwind
{
    if let Ok(n) = http::header::HeaderName::from_bytes(name.as_bytes()) {
        m.append(n, value.as_bytes().to_vec());
    }
}

/// Takes `name` and its values out of the map.
///
/// Wraps `HeaderMap::remove`, which returns the first of the values that the name had.
#[verifier::external_body]
fn raw_remove(m: &mut RawHeaders, name: &HeaderName) -> (first: Option<
    HeaderValue,
>)
    requires
        contents_wf(raw_contents(*old(m))),
    ensures
        raw_contents(*final(m)) == raw_contents(*old(m)).remove(name@),
        match first {
            Some(v) => raw_contents(*old(m)).contains_key(name@) && v@ == raw_contents(
                *old(m),
            )[name@][0],
            None => !raw_contents(*old(m)).contains_key(name@),
        },
    no_unwind
{
    m.remove(name.as_str()).map(HeaderValue::from_valid)
}

/// The first value of `name`.
///
/// Wraps `HeaderMap::get`.
#[verifier::external_body]
fn raw_get(m: &RawHeaders, name: &HeaderName) -> (first: Option<
    HeaderValue,
>)
    requires
        contents_wf(raw_contents(*m)),
    ensures
        match first {
            Some(v) => raw_contents(*m).contains_key(name@) && v@ == raw_contents(*m)[name@][0],
            None => !raw_contents(*m).contains_key(name@),
        },
{
    m.get(name.as_str()).map(|v| HeaderValue::from_valid(v.clone()))
}

/// The values of `name`, in the order in which they were added.
///
/// Wraps `HeaderMap::get_all` and the iterator of what it returns.
#[verifier::external_body]
fn raw_get_all(m: &RawHeaders, name: &HeaderName) -> (values: Vec<
    HeaderValue,
>)
    requires
        contents_wf(raw_contents(*m)),
    ensures
        views(values@) == values_of(raw_contents(*m), name@),
{
    m.get_all(name.as_str()).iter().map(|v| HeaderValue::from_valid(v.clone())).collect()
}

/// Whether `name` has a value.
///
/// Wraps `HeaderMap::contains_key`.
#[verifier::external_body]
fn raw_contains_key(m: &RawHeaders, name: &HeaderName) -> (r: bool)
    ensures
        r == raw_contents(*m).contains_key(name@),
{
    m.contains_key(name.as_str())
}

/// The names that have values, each once, in an order that the map chooses.
///
/// Wraps `HeaderMap::keys`.
#[verifier::external_body]
fn raw_keys(m: &RawHeaders) -> (names: Vec<HeaderName>)
    requires
        contents_wf(raw_contents(*m)),
    ensures
        name_views(names@).no_duplicates(),
        name_views(names@).to_set() == raw_contents(*m).dom(),
{
    m.keys().map(|k| HeaderName::from_canonical(k.as_str().as_bytes().to_vec())).collect()
}

/// The number of names that have values.
///
/// Wraps `HeaderMap::keys_len`.
#[verifier::external_body]
fn raw_keys_len(m: &RawHeaders) -> (n: usize)
    requires
        contents_wf(raw_contents(*m)),
    ensures
        n == raw_contents(*m).dom().len(),
{
    m.keys_len()
}

/// A copy of the map.
///
/// Wraps the `Clone` of `HeaderMap`.
#[verifier::external_body]
fn raw_clone(m: &RawHeaders) -> (copy: RawHeaders)
    ensures
        raw_contents(copy) == raw_contents(*m),
{
    m.clone()
}

/// The headers of a message.
#[derive(Debug)]
pub struct Headers {
    inner: RawHeaders,
}

impl View for Headers {
    type V = Map<Seq<u8>, Seq<Seq<u8>>>;

    closed spec fn view(&self) -> Map<Seq<u8>, Seq<Seq<u8>>> {
        raw_contents(self.inner)
    }
}

impl Clone for Headers {
    fn clone(&self) -> (r: Self)
        ensures
            r@ == self@,
    {
        proof {
            use_type_invariant(self);
        }
        Headers { inner: raw_clone(&self.inner) }
    }
}

/// Giving a name a list of values that is not empty keeps the contents well formed.
proof fn lemma_insert_wf(contents: Map<Seq<u8>, Seq<Seq<u8>>>, name: Seq<u8>, values: Seq<Seq<u8>>)
    requires
        contents_wf(contents),
        canonical_header_name(name),
        values.len() > 0,
        forall|i: int| 0 <= i < values.len() ==> valid_header_value(#[trigger] values[i]),
    ensures
        contents_wf(contents.insert(name, values)),
        contents.insert(name, values).dom().len() <= contents.dom().len() + 1,
{
    let after = contents.insert(name, values);
    assert(after.dom() =~= contents.dom().insert(name));
    assert forall|n: Seq<u8>| #[trigger] after.contains_key(n) implies canonical_header_name(n)
        && after[n].len() > 0 by {
        if n != name {
            assert(contents.contains_key(n));
        }
    }
    assert forall|n: Seq<u8>, i: int|
        after.contains_key(n) && 0 <= i < after[n].len() implies valid_header_value(
        #[trigger] after[n][i],
    ) by {
        if n != name {
            assert(contents.contains_key(n));
            assert(valid_header_value(contents[n][i]));
        }
    }
}

/// Taking a name out keeps the contents well formed.
proof fn lemma_remove_wf(contents: Map<Seq<u8>, Seq<Seq<u8>>>, name: Seq<u8>)
    requires
        contents_wf(contents),
    ensures
        contents_wf(contents.remove(name)),
        contents.remove(name).dom().len() <= contents.dom().len(),
{
    let after = contents.remove(name);
    assert(after.dom() =~= contents.dom().remove(name));
    assert forall|n: Seq<u8>| #[trigger] after.contains_key(n) implies canonical_header_name(n)
        && after[n].len() > 0 by {
        assert(contents.contains_key(n));
    }
    assert forall|n: Seq<u8>, i: int|
        after.contains_key(n) && 0 <= i < after[n].len() implies valid_header_value(
        #[trigger] after[n][i],
    ) by {
        assert(contents.contains_key(n));
        assert(valid_header_value(contents[n][i]));
    }
}

impl Headers {
    #[verifier::type_invariant]
    closed spec fn inv(&self) -> bool {
        contents_wf(raw_contents(self.inner))
    }

    /// Whether the map takes another name without fail.
    pub open spec fn has_room(&self) -> bool {
        self@.dom().len() < MAX_HEADER_NAMES
    }

    /// An empty map.
    pub fn new() -> (m: Headers)
        ensures
            m@ == no_headers(),
            m.has_room(),
    {
        let inner = raw_new();
        assert(raw_contents(inner).dom() =~= Set::<Seq<u8>>::empty());
        Headers { inner }
    }

    /// The number of names that have values.
    pub fn keys_len(&self) -> (n: usize)
        ensures
            n == self@.dom().len(),
            contents_wf(self@),
    {
        proof {
            use_type_invariant(self);
        }
        raw_keys_len(&self.inner)
    }

    /// Tests [`Headers::has_room`].
    pub fn check_room(&self) -> (r: bool)
        ensures
            r == self.has_room(),
    {
        self.keys_len() < MAX_HEADER_NAMES
    }

    /// Gives `name` the one value `value`, in place of the values that it had.
    pub fn insert(&mut self, name: HeaderName, value: HeaderValue)
        requires
            old(self).has_room(),
        ensures
            final(self)@ == old(self)@.insert(name@, seq![value@]),
    {
        let name_bytes = name.as_bytes();
        let value_bytes = value.as_bytes();
        proof {
            use_type_invariant(&*self);
            lemma_insert_wf(self@, name@, seq![value@]);
        }
        raw_insert(&mut self.inner, &name, &value);
    }

    /// Adds `value` behind the values that `name` has.
    pub fn append(&mut self, name: HeaderName, value: HeaderValue)
        requires
            old(self).has_room(),
        ensures
            final(self)@ == old(self)@.insert(name@, values_of(old(self)@, name@).push(value@)),
    {
        let name_bytes = name.as_bytes();
        let value_bytes = value.as_bytes();
        proof {
            use_type_invariant(&*self);
            let before = values_of(self@, name@);
            assert forall|i: int| 0 <= i < before.push(value@).len() implies valid_header_value(
                #[trigger] before.push(value@)[i],
            ) by {
                if i < before.len() {
                    assert(valid_header_value(self@[name@][i]));
                }
            }
            lemma_insert_wf(self@, name@, before.push(value@));
        }
        raw_append(&mut self.inner, &name, &value);
    }

    /// Takes `name` and its values out of the map and returns the first of them.
    pub fn remove(&mut self, name: &HeaderName) -> (first: Option<HeaderValue>)
        ensures
            final(self)@ == old(self)@.remove(name@),
            match first {
                Some(v) => old(self)@.contains_key(name@) && v@ == old(self)@[name@][0],
                None => !old(self)@.contains_key(name@),
            },
            old(self).has_room() ==> final(self).has_room(),
    {
        proof {
            use_type_invariant(&*self);
            lemma_remove_wf(self@, name@);
        }
        raw_remove(&mut self.inner, name)
    }

    /// The first value of `name`.
    pub fn get(&self, name: &HeaderName) -> (first: Option<HeaderValue>)
        ensures
            match first {
                Some(v) => self@.contains_key(name@) && v@ == self@[name@][0],
                None => !self@.contains_key(name@),
            },
    {
        proof {
            use_type_invariant(self);
        }
        raw_get(&self.inner, name)
    }

    /// The values of `name`, in the order in which they were added.
    pub fn get_all(&self, name: &HeaderName) -> (values: Vec<HeaderValue>)
        ensures
            views(values@) == values_of(self@, name@),
    {
        proof {
            use_type_invariant(self);
        }
        raw_get_all(&self.inner, name)
    }

    /// Whether `name` has a value.
    pub fn contains_key(&self, name: &HeaderName) -> (r: bool)
        ensures
            r == self@.contains_key(name@),
    {
        raw_contains_key(&self.inner, name)
    }

    /// The names that have values, each once, in an order that the map chooses.
    pub fn keys(&self) -> (names: Vec<HeaderName>)
        ensures
            name_views(names@).no_duplicates(),
            name_views(names@).to_set() == self@.dom(),
    {
        proof {
            use_type_invariant(self);
        }
        raw_keys(&self.inner)
    }
}

} // verus!
