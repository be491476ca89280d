//! The cache, one operation at a time.

use crate::backend::builder::text_of;
use crate::cache::direct::handle::{bytes_of, or_zero};
use crate::http::header::HeaderName;
use crate::http::header_map::name_views;
use crate::http::request::handle::RequestHandle;
use crate::http::request::string_views;
use crate::shared::{FastlyStatus, STATUS_BADF, STATUS_LIMITEXCEEDED, STATUS_UNSUPPORTED};
use crate::sys::{STATE_FOUND, STATE_MUST_INSERT_OR_UPDATE, STATE_STALE, STATE_USABLE};
use crate::text::{ascii_text, copy_bytes};
use crate::time::Duration;
use vstd::string::{StrSliceExecFns, StringExecFns};
use vstd::prelude::*;

pub mod handle;

verus! {

/// Why an operation on the cache failed.
#[derive(Copy, Clone, Debug, PartialEq, Eq, Structural)]
pub enum CacheError {
    /// A limit was exceeded.
    LimitExceeded,
    /// The operation is not valid in the state of the cache.
    InvalidOperation,
    /// The operation is not supported.
    Unsupported,
    /// The host failed with a status that has no meaning of its own here.
    Other(FastlyStatus),
}

impl CacheError {
    /// The error that a failure status of the host stands for.
    pub open spec fn of_status(status: FastlyStatus) -> Self {
        if status.code == STATUS_UNSUPPORTED {
            CacheError::Unsupported
        } else if status.code == STATUS_LIMITEXCEEDED {
            CacheError::LimitExceeded
        } else if status.code == STATUS_BADF {
            CacheError::InvalidOperation
        } else {
            CacheError::Other(status)
        }
    }

    /// The error that a failure status of the host stands for.
    pub fn from(status: FastlyStatus) -> (e: Self)
        ensures
            e == Self::of_status(status),
    {
        if status.code == STATUS_UNSUPPORTED {
            CacheError::Unsupported
        } else if status.code == STATUS_LIMITEXCEEDED {
            CacheError::LimitExceeded
        } else if status.code == STATUS_BADF {
            CacheError::InvalidOperation
        } else {
            CacheError::Other(status)
        }
    }
}

/// The state of a cache lookup, as bits.
#[derive(Copy, Clone, Debug, PartialEq, Eq, Structural)]
pub struct CacheLookupState {
    pub bits: u32,
}

impl CacheLookupState {
    /// Whether an object was found.
    pub fn is_found(&self) -> (r: bool)
        ensures
            r == (self.bits & STATE_FOUND != 0),
    {
        self.bits & STATE_FOUND != 0
    }

    /// Whether the object that was found may be used.
    pub fn is_usable(&self) -> (r: bool)
        ensures
            r == (self.bits & STATE_USABLE != 0),
    {
        self.bits & STATE_USABLE != 0
    }

    /// Whether the object that was found is stale.
    pub fn is_stale(&self) -> (r: bool)
        ensures
            r == (self.bits & STATE_STALE != 0),
    {
        self.bits & STATE_STALE != 0
    }

    /// Whether the caller is to insert or update the object.
    pub fn must_insert_or_update(&self) -> (r: bool)
        ensures
            r == (self.bits & STATE_MUST_INSERT_OR_UPDATE != 0),
    {
        self.bits & STATE_MUST_INSERT_OR_UPDATE != 0
    }
}

/// A text with one more part: a space goes between them unless the text is empty.
pub open spec fn joined_step(text: Seq<char>, part: Seq<char>) -> Seq<char> {
    if text.len() > 0 {
        text.push(' ') + part
    } else {
        part
    }
}

/// The parts, joined one after the other by [`joined_step`].
pub open spec fn joined_parts(parts: Seq<Seq<char>>) -> Seq<char>
    decreases parts.len(),
{
    if parts.len() == 0 {
        Seq::empty()
    } else {
        joined_step(joined_parts(parts.drop_last()), parts.last())
    }
}

/// The text of each name.
pub open spec fn name_texts(names: Seq<HeaderName>) -> Seq<Seq<char>> {
    Seq::new(names.len(), |i: int| ascii_text(names[i]@))
}

/// The nanoseconds of a span as a number of 64 bits, the largest such number for a
/// span that has more.
pub open spec fn saturated_nanos(d: Duration) -> u64 {
    if d.total_nanoseconds() > u64::MAX {
        u64::MAX
    } else {
        d.total_nanoseconds() as u64
    }
}

/// The nanoseconds of an optional span, saturated.
pub open spec fn saturated_nanos_of(d: Option<Duration>) -> Option<u64> {
    match d {
        Some(span) => Some(saturated_nanos(span)),
        None => None,
    }
}

fn nanos_saturated(d: &Duration) -> (r: u64)
    ensures
        r == saturated_nanos(*d),
{
    let n = d.as_nanos();
    if n > 0xffff_ffff_ffff_ffff {
        0xffff_ffff_ffff_ffff
    } else {
        n as u64
    }
}

/// The options of a cache write as the program sets them.
#[derive(Debug)]
pub struct WriteOptions {
    pub max_age: Duration,
    pub request_headers: Option<RequestHandle>,
    pub vary_rule: Option<String>,
    pub initial_age: Option<Duration>,
    pub stale_while_revalidate: Option<Duration>,
    pub surrogate_keys: Option<String>,
    pub length: Option<u64>,
    pub user_metadata: Option<Vec<u8>>,
    pub sensitive_data: bool,
}

impl WriteOptions {
    /// Options with the given time to live and nothing else set.
    pub fn new(max_age: Duration) -> (r: Self)
        ensures
            r.max_age == max_age,
            r.request_headers is None,
            r.vary_rule is None,
            r.initial_age is None,
            r.stale_while_revalidate is None,
            r.surrogate_keys is None,
            r.length is None,
            r.user_metadata is None,
            !r.sensitive_data,
    {
        WriteOptions {
            max_age,
            request_headers: None,
            vary_rule: None,
            initial_age: None,
            stale_while_revalidate: None,
            surrogate_keys: None,
            length: None,
            user_metadata: None,
            sensitive_data: false,
        }
    }

    /// The options with their spans in nanoseconds, as the handle takes them. The time
    /// to live and the time of serving stale are cut at the largest number of 64 bits;
    /// the initial age has to fit.
    pub fn as_handle_options(&self) -> (r: handle::WriteOptions)
        requires
            self.initial_age matches Some(age) ==> age.total_nanoseconds() <= u64::MAX,
        ensures
            r.max_age_ns == saturated_nanos(self.max_age),
            handle::request_number(r.request_headers) == handle::request_number(
                self.request_headers,
            ),
            r.request_headers is Some == self.request_headers is Some,
            text_of(r.vary_rule) == text_of(self.vary_rule),
            r.initial_age_ns == saturated_nanos_of(self.initial_age),
            r.stale_while_revalidate_ns == saturated_nanos_of(self.stale_while_revalidate),
            text_of(r.surrogate_keys) == text_of(self.surrogate_keys),
            r.length == self.length,
            bytes_of(r.user_metadata) == bytes_of(self.user_metadata),
            r.sensitive_data == self.sensitive_data,
    {
        handle::WriteOptions {
            max_age_ns: nanos_saturated(&self.max_age),
            request_headers: match &self.request_headers {
                Some(h) => Some(RequestHandle::from_u32(h.as_u32())),
                None => None,
            },
            vary_rule: match &self.vary_rule {
                Some(v) => Some(v.clone()),
                None => None,
            },
            initial_age_ns: match &self.initial_age {
                Some(age) => Some(nanos_saturated(age)),
                None => None,
            },
            stale_while_revalidate_ns: match &self.stale_while_revalidate {
                Some(swr) => Some(nanos_saturated(swr)),
                None => None,
            },
            surrogate_keys: match &self.surrogate_keys {
                Some(v) => Some(v.clone()),
                None => None,
            },
            length: self.length,
            user_metadata: match &self.user_metadata {
                Some(v) => Some(copy_bytes(v.as_slice())),
                None => None,
            },
            sensitive_data: self.sensitive_data,
        }
    }

    /// Makes the names of the headers, joined by spaces, the rule by which the cached
    /// object varies.
    pub fn vary_by(&mut self, headers: &Vec<HeaderName>)
        ensures
            text_of(final(self).vary_rule) == Some(joined_parts(name_texts(headers@))),
            final(self).max_age == old(self).max_age,
            final(self).request_headers == old(self).request_headers,
            final(self).initial_age == old(self).initial_age,
            final(self).stale_while_revalidate == old(self).stale_while_revalidate,
            final(self).surrogate_keys == old(self).surrogate_keys,
            final(self).length == old(self).length,
            final(self).user_metadata == old(self).user_metadata,
            final(self).sensitive_data == old(self).sensitive_data,
    {
        let mut vary_rule = String::new();
        let mut i: usize = 0;
        proof {
            assert(name_texts(headers@).take(0) =~= Seq::<Seq<char>>::empty());
        }
        while i < headers.len()
            invariant
                0 <= i <= headers.len(),
                vary_rule@ == joined_parts(name_texts(headers@).take(i as int)),
            decreases headers.len() - i,
        {
            let ghost before = vary_rule@;
            if vary_rule.as_str().unicode_len() > 0 {
                vary_rule.append(" ");
                proof {
                    reveal_strlit(" ");
                    assert(" "@ =~= seq![' ']);
                    assert(vary_rule@ =~= before.push(' '));
                }
            }
            vary_rule.append(headers[i].as_str());
            proof {
                let all = name_texts(headers@);
                assert(all.take(i + 1).drop_last() =~= all.take(i as int));
                assert(all.take(i + 1).last() == all[i as int]);
                assert(vary_rule@ =~= joined_step(before, all[i as int]));
            }
            i = i + 1;
        }
        proof {
            assert(name_texts(headers@).take(headers.len() as int) =~= name_texts(headers@));
        }
        self.vary_rule = Some(vary_rule);
    }

    /// Makes the keys, joined by spaces, the surrogate keys of the cached object.
    pub fn surrogate_keys(&mut self, surrogate_keys: &Vec<String>)
        ensures
            text_of(final(self).surrogate_keys) == Some(
                joined_parts(string_views(surrogate_keys@)),
            ),
            final(self).max_age == old(self).max_age,
            final(self).request_headers == old(self).request_headers,
            final(self).vary_rule == old(self).vary_rule,
            final(self).initial_age == old(self).initial_age,
            final(self).stale_while_revalidate == old(self).stale_while_revalidate,
            final(self).length == old(self).length,
            final(self).user_metadata == old(self).user_metadata,
            final(self).sensitive_data == old(self).sensitive_data,
    {
        let mut keys = String::new();
        let mut i: usize = 0;
        proof {
            assert(string_views(surrogate_keys@).take(0) =~= Seq::<Seq<char>>::empty());
        }
        while i < surrogate_keys.len()
            invariant
                0 <= i <= surrogate_keys.len(),
                keys@ == joined_parts(string_views(surrogate_keys@).take(i as int)),
            decreases surrogate_keys.len() - i,
        {
            let ghost before = keys@;
            if keys.as_str().unicode_len() > 0 {
                keys.append(" ");
                proof {
                    reveal_strlit(" ");
                    assert(" "@ =~= seq![' ']);
                    assert(keys@ =~= before.push(' '));
                }
            }
            keys.append(surrogate_keys[i].as_str());
            proof {
                let all = string_views(surrogate_keys@);
                assert(all.take(i + 1).drop_last() =~= all.take(i as int));
                assert(all.take(i + 1).last() == all[i as int]);
                assert(keys@ =~= joined_step(before, all[i as int]));
            }
            i = i + 1;
        }
        proof {
            assert(string_views(surrogate_keys@).take(surrogate_keys.len() as int)
                =~= string_views(surrogate_keys@));
        }
        self.surrogate_keys = Some(keys);
    }
}

} // verus!
