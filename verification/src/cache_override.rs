//! How the host's cache is to treat the response to a request.

use crate::http::header::{valid_header_value, HeaderValue};
use vstd::prelude::*;

verus! {

/// Tag bit: do not cache.
pub const TAG_PASS: u32 = 1;

/// Tag bit: a time to live is given.
pub const TAG_TTL: u32 = 2;

/// Tag bit: a time of serving stale while revalidating is given.
pub const TAG_STALE_WHILE_REVALIDATE: u32 = 4;

/// Tag bit: the response is subject to PCI rules.
pub const TAG_PCI: u32 = 8;

/// All tag bits that are defined.
pub const TAG_ALL: u32 = 15;

/// An override of the cache's behavior for one request.
#[derive(Debug)]
pub enum CacheOverride {
    /// The cache goes by the response's own headers.
    Unset,
    /// The response is not cached.
    Pass,
    /// Some properties of the cached response are set.
    Override {
        ttl: Option<u32>,
        stale_while_revalidate: Option<u32>,
        pci: bool,
        surrogate_key: Option<HeaderValue>,
    },
}

/// A [`CacheOverride`] as plain values.
pub enum CacheOverrideView {
    Unset,
    Pass,
    Override {
        ttl: Option<u32>,
        stale_while_revalidate: Option<u32>,
        pci: bool,
        surrogate_key: Option<Seq<u8>>,
    },
}

/// The bytes of an optional header value.
pub open spec fn value_bytes(value: Option<HeaderValue>) -> Option<Seq<u8>> {
    match value {
        Some(v) => Some(v@),
        None => None,
    }
}

impl View for CacheOverride {
    type V = CacheOverrideView;

    open spec fn view(&self) -> CacheOverrideView {
        match *self {
            CacheOverride::Unset => CacheOverrideView::Unset,
            CacheOverride::Pass => CacheOverrideView::Pass,
            CacheOverride::Override { ttl, stale_while_revalidate, pci, surrogate_key } => {
                CacheOverrideView::Override {
                    ttl,
                    stale_while_revalidate,
                    pci,
                    surrogate_key: value_bytes(surrogate_key),
                }
            },
        }
    }
}

impl Clone for CacheOverride {
    fn clone(&self) -> (r: Self)
        ensures
            r@ == self@,
    {
        match self {
            CacheOverride::Unset => CacheOverride::Unset,
            CacheOverride::Pass => CacheOverride::Pass,
            CacheOverride::Override { ttl, stale_while_revalidate, pci, surrogate_key } => {
                let key = match surrogate_key {
                    Some(k) => Some(k.clone()),
                    None => None,
                };
                CacheOverride::Override {
                    ttl: *ttl,
                    stale_while_revalidate: *stale_while_revalidate,
                    pci: *pci,
                    surrogate_key: key,
                }
            },
        }
    }
}

impl CacheOverrideView {
    /// An override that sets nothing.
    pub open spec fn blank() -> Self {
        CacheOverrideView::Override {
            ttl: None,
            stale_while_revalidate: None,
            pci: false,
            surrogate_key: None,
        }
    }

    /// This override as one that sets properties: itself if it is one, else a blank one.
    pub open spec fn as_override(self) -> Self {
        match self {
            CacheOverrideView::Override { .. } => self,
            _ => Self::blank(),
        }
    }

    /// The override after [`CacheOverride::set_pass`].
    pub open spec fn pass_set(self, pass: bool) -> Self {
        if pass {
            CacheOverrideView::Pass
        } else if self == CacheOverrideView::Pass {
            CacheOverrideView::Unset
        } else {
            self
        }
    }

    /// The override after [`CacheOverride::set_ttl`].
    pub open spec fn ttl_set(self, new_ttl: u32) -> Self {
        match self.as_override() {
            CacheOverrideView::Override { stale_while_revalidate, pci, surrogate_key, .. } => {
                CacheOverrideView::Override {
                    ttl: Some(new_ttl),
                    stale_while_revalidate,
                    pci,
                    surrogate_key,
                }
            },
            other => other,
        }
    }

    /// The override after [`CacheOverride::set_stale_while_revalidate`].
    pub open spec fn stale_while_revalidate_set(self, new_swr: u32) -> Self {
        match self.as_override() {
            CacheOverrideView::Override { ttl, pci, surrogate_key, .. } => {
                CacheOverrideView::Override {
                    ttl,
                    stale_while_revalidate: Some(new_swr),
                    pci,
                    surrogate_key,
                }
            },
            other => other,
        }
    }

    /// The override after [`CacheOverride::set_pci`].
    pub open spec fn pci_set(self, new_pci: bool) -> Self {
        match self.as_override() {
            CacheOverrideView::Override { ttl, stale_while_revalidate, surrogate_key, .. } => {
                CacheOverrideView::Override {
                    ttl,
                    stale_while_revalidate,
                    pci: new_pci,
                    surrogate_key,
                }
            },
            other => other,
        }
    }

    /// The override after [`CacheOverride::set_surrogate_key`].
    pub open spec fn surrogate_key_set(self, key: Seq<u8>) -> Self {
        match self.as_override() {
            CacheOverrideView::Override { ttl, stale_while_revalidate, pci, .. } => {
                CacheOverrideView::Override {
                    ttl,
                    stale_while_revalidate,
                    pci,
                    surrogate_key: Some(key),
                }
            },
            other => other,
        }
    }

    /// The tag bits that tell the host which properties are set.
    pub open spec fn tag(self) -> u32 {
        match self {
            CacheOverrideView::Unset => 0,
            CacheOverrideView::Pass => TAG_PASS,
            CacheOverrideView::Override { ttl, stale_while_revalidate, pci, surrogate_key } => {
                (if ttl is Some {
                    TAG_TTL
                } else {
                    0
                }) | (if stale_while_revalidate is Some {
                    TAG_STALE_WHILE_REVALIDATE
                } else {
                    0
                }) | (if pci {
                    TAG_PCI
                } else {
                    0
                })
            },
        }
    }

    /// The override as the four values that the host takes: the tag, the time to
    /// live, the time of serving stale, and the surrogate key.
    pub open spec fn abi(self) -> (u32, u32, u32, Option<Seq<u8>>) {
        match self {
            CacheOverrideView::Unset => (0, 0, 0, None),
            CacheOverrideView::Pass => (TAG_PASS, 0, 0, None),
            CacheOverrideView::Override { ttl, stale_while_revalidate, pci, surrogate_key } => (
                self.tag(),
                match ttl {
                    Some(t) => t,
                    None => 0,
                },
                match stale_while_revalidate {
                    Some(s) => s,
                    None => 0,
                },
                surrogate_key,
            ),
        }
    }

    /// The override that four values of the host stand for, if the tag has no bit
    /// that is not defined.
    pub open spec fn of_abi(tag: u32, ttl: u32, swr: u32, surrogate_key: Option<Seq<u8>>) -> Option<
        Self,
    > {
        if tag & !TAG_ALL != 0 {
            None
        } else if tag & TAG_PASS != 0 {
            Some(CacheOverrideView::Pass)
        } else if tag == 0 && surrogate_key is None {
            Some(CacheOverrideView::Unset)
        } else {
            Some(
                CacheOverrideView::Override {
                    ttl: if tag & TAG_TTL != 0 {
                        Some(ttl)
                    } else {
                        None
                    },
                    stale_while_revalidate: if tag & TAG_STALE_WHILE_REVALIDATE != 0 {
                        Some(swr)
                    } else {
                        None
                    },
                    pci: tag & TAG_PCI != 0,
                    surrogate_key,
                },
            )
        }
    }

    /// Whether the override is one that the host's four values can tell from every
    /// other: one that sets properties sets at least one of them.
    pub open spec fn distinct(self) -> bool {
        self != Self::blank()
    }
}

/// The bytes of an optional slice.
pub open spec fn slice_bytes(s: Option<&[u8]>) -> Option<Seq<u8>> {
    match s {
        Some(b) => Some(b@),
        None => None,
    }
}

impl CacheOverride {
    /// The override that a request starts with: the cache is left alone.
    pub fn default() -> (r: Self)
        ensures
            r@ == CacheOverrideView::Unset,
    {
        CacheOverride::Unset
    }

    /// The override that leaves the cache alone.
    pub fn none() -> (r: Self)
        ensures
            r@ == CacheOverrideView::Unset,
    {
        CacheOverride::Unset
    }

    /// The override that keeps the response out of the cache.
    pub fn pass() -> (r: Self)
        ensures
            r@ == CacheOverrideView::Pass,
    {
        CacheOverride::Pass
    }

    /// Whether the response is kept out of the cache.
    pub fn is_pass(&self) -> (r: bool)
        ensures
            r == (self@ == CacheOverrideView::Pass),
    {
        match self {
            CacheOverride::Pass => true,
            _ => false,
        }
    }

    /// The override that sets the time to live, in seconds, and nothing else.
    pub fn ttl(ttl: u32) -> (r: Self)
        ensures
            r@ == (CacheOverrideView::Override {
                ttl: Some(ttl),
                stale_while_revalidate: None,
                pci: false,
                surrogate_key: None,
            }),
    {
        CacheOverride::Override {
            ttl: Some(ttl),
            stale_while_revalidate: None,
            pci: false,
            surrogate_key: None,
        }
    }

    /// The override that sets the time of serving stale, in seconds, and nothing else.
    pub fn stale_while_revalidate(swr: u32) -> (r: Self)
        ensures
            r@ == (CacheOverrideView::Override {
                ttl: None,
                stale_while_revalidate: Some(swr),
                pci: false,
                surrogate_key: None,
            }),
    {
        CacheOverride::Override {
            ttl: None,
            stale_while_revalidate: Some(swr),
            pci: false,
            surrogate_key: None,
        }
    }

    /// The override that sets the PCI flag and nothing else.
    pub fn pci(pci: bool) -> (r: Self)
        ensures
            r@ == (CacheOverrideView::Override {
                ttl: None,
                stale_while_revalidate: None,
                pci,
                surrogate_key: None,
            }),
    {
        CacheOverride::Override {
            ttl: None,
            stale_while_revalidate: None,
            pci,
            surrogate_key: None,
        }
    }

    /// The override that sets the surrogate key and nothing else.
    pub fn surrogate_key(sk: HeaderValue) -> (r: Self)
        ensures
            r@ == (CacheOverrideView::Override {
                ttl: None,
                stale_while_revalidate: None,
                pci: false,
                surrogate_key: Some(sk@),
            }),
    {
        CacheOverride::Override {
            ttl: None,
            stale_while_revalidate: None,
            pci: false,
            surrogate_key: Some(sk),
        }
    }

    /// Leaves the cache alone.
    pub fn set_none(&mut self)
        ensures
            final(self)@ == CacheOverrideView::Unset,
    {
        *self = CacheOverride::Unset;
    }

    /// With `true`, keeps the response out of the cache. With `false`, undoes that and
    /// leaves every other override as it is.
    pub fn set_pass(&mut self, pass: bool)
        ensures
            final(self)@ == old(self)@.pass_set(pass),
    {
        if pass {
            *self = CacheOverride::Pass;
        } else if self.is_pass() {
            *self = CacheOverride::Unset;
        }
    }

    /// The time to live, if it is set.
    pub fn get_ttl(&self) -> (r: Option<u32>)
        ensures
            r == match self@ {
                CacheOverrideView::Override { ttl, .. } => ttl,
                _ => None,
            },
    {
        match self {
            CacheOverride::Override { ttl, .. } => *ttl,
            _ => None,
        }
    }

    /// Sets the time to live and keeps what else an override has set.
    pub fn set_ttl(&mut self, new_ttl: u32)
        ensures
            final(self)@ == old(self)@.ttl_set(new_ttl),
    {
        match self {
            CacheOverride::Override { ttl, .. } => {
                *ttl = Some(new_ttl);
            },
            _ => {
                *self = CacheOverride::ttl(new_ttl);
            },
        }
    }

    /// The time of serving stale, if it is set.
    pub fn get_stale_while_revalidate(&self) -> (r: Option<u32>)
        ensures
            r == match self@ {
                CacheOverrideView::Override { stale_while_revalidate, .. } => {
                    stale_while_revalidate
                },
                _ => None,
            },
    {
        match self {
            CacheOverride::Override { stale_while_revalidate, .. } => *stale_while_revalidate,
            _ => None,
        }
    }

    /// Sets the time of serving stale and keeps what else an override has set.
    pub fn set_stale_while_revalidate(&mut self, new_swr: u32)
        ensures
            final(self)@ == old(self)@.stale_while_revalidate_set(new_swr),
    {
        match self {
            CacheOverride::Override { stale_while_revalidate, .. } => {
                *stale_while_revalidate = Some(new_swr);
            },
            _ => {
                *self = CacheOverride::stale_while_revalidate(new_swr);
            },
        }
    }

    /// Sets the PCI flag and keeps what else an override has set.
    pub fn set_pci(&mut self, new_pci: bool)
        ensures
            final(self)@ == old(self)@.pci_set(new_pci),
    {
        match self {
            CacheOverride::Override { pci, .. } => {
                *pci = new_pci;
            },
            _ => {
                *self = CacheOverride::pci(new_pci);
            },
        }
    }

    /// The surrogate key, if it is set.
    pub fn get_surrogate_key(&self) -> (r: Option<&HeaderValue>)
        ensures
            match self@ {
                CacheOverrideView::Override { surrogate_key: Some(key), .. } => r matches Some(k)
                    && k@ == key,
                _ => r is None,
            },
    {
        match self {
            CacheOverride::Override { surrogate_key, .. } => surrogate_key.as_ref(),
            _ => None,
        }
    }

    /// Sets the surrogate key and keeps what else an override has set.
    pub fn set_surrogate_key(&mut self, new_surrogate_key: HeaderValue)
        ensures
            final(self)@ == old(self)@.surrogate_key_set(new_surrogate_key@),
    {
        match self {
            CacheOverride::Override { surrogate_key, .. } => {
                *surrogate_key = Some(new_surrogate_key);
            },
            _ => {
                *self = CacheOverride::surrogate_key(new_surrogate_key);
            },
        }
    }

    /// The override as the four values that the host takes.
    pub fn to_abi(&self) -> (r: (u32, u32, u32, Option<&[u8]>))
        ensures
            (r.0, r.1, r.2, slice_bytes(r.3)) == self@.abi(),
            r.3 matches Some(key) ==> valid_header_value(key@),
    {
        match self {
            CacheOverride::Unset => (0, 0, 0, None),
            CacheOverride::Pass => (TAG_PASS, 0, 0, None),
            CacheOverride::Override { ttl, stale_while_revalidate, pci, surrogate_key } => {
                let mut tag: u32 = 0;
                let ttl_value: u32 = match ttl {
                    Some(t) => {
                        tag = tag | TAG_TTL;
                        *t
                    },
                    None => 0,
                };
                let swr_value: u32 = match stale_while_revalidate {
                    Some(s) => {
                        tag = tag | TAG_STALE_WHILE_REVALIDATE;
                        *s
                    },
                    None => 0,
                };
                if *pci {
                    tag = tag | TAG_PCI;
                }
                let sk: Option<&[u8]> = match surrogate_key {
                    Some(key) => Some(key.as_bytes()),
                    None => None,
                };
                proof {
                    let a: u32 = if ttl is Some {
                        TAG_TTL
                    } else {
                        0
                    };
                    let b: u32 = if stale_while_revalidate is Some {
                        TAG_STALE_WHILE_REVALIDATE
                    } else {
                        0
                    };
                    let c: u32 = if *pci {
                        TAG_PCI
                    } else {
                        0
                    };
                    assert(0u32 | a == a) by (bit_vector);
                    assert(a | 0u32 == a) by (bit_vector);
                    assert((a | b) | 0u32 == a | b) by (bit_vector);
                    assert(tag == a | b | c);
                }
                (tag, ttl_value, swr_value, sk)
            },
        }
    }

    /// The override that four values of the host stand for; `None` where the tag has
    /// a bit that is not defined.
    pub fn from_abi(tag: u32, ttl: u32, swr: u32, surrogate_key: Option<HeaderValue>) -> (r:
        Option<Self>)
        ensures
            match r {
                Some(c) => CacheOverrideView::of_abi(tag, ttl, swr, value_bytes(surrogate_key))
                    == Some(c@),
                None => CacheOverrideView::of_abi(tag, ttl, swr, value_bytes(surrogate_key))
                    is None,
            },
    {
        if tag & !TAG_ALL != 0 {
            return None;
        }
        if tag & TAG_PASS != 0 {
            return Some(CacheOverride::Pass);
        }
        if tag == 0 && surrogate_key.is_none() {
            return Some(CacheOverride::Unset);
        }
        let ttl = if tag & TAG_TTL != 0 {
            Some(ttl)
        } else {
            None
        };
        let stale_while_revalidate = if tag & TAG_STALE_WHILE_REVALIDATE != 0 {
            Some(swr)
        } else {
            None
        };
        let pci = tag & TAG_PCI != 0;
        Some(CacheOverride::Override { ttl, stale_while_revalidate, pci, surrogate_key })
    }
}

/// What [`CacheOverride::to_abi`] gives, [`CacheOverride::from_abi`] reads back as the
/// same override, unless it is an override that sets nothing: that one the host's
/// values cannot tell from no override.
pub proof fn lemma_abi_round_trip(c: CacheOverrideView)
    requires
        c.distinct(),
    ensures
        CacheOverrideView::of_abi(c.abi().0, c.abi().1, c.abi().2, c.abi().3) == Some(c),
{
    match c {
        CacheOverrideView::Unset => {
            assert(0u32 & !15u32 == 0) by (bit_vector);
            assert(0u32 & 1u32 == 0) by (bit_vector);
        },
        CacheOverrideView::Pass => {
            assert(1u32 & !15u32 == 0) by (bit_vector);
            assert(1u32 & 1u32 != 0) by (bit_vector);
        },
        CacheOverrideView::Override { ttl, stale_while_revalidate, pci, surrogate_key } => {
            let a: u32 = if ttl is Some {
                2
            } else {
                0
            };
            let b: u32 = if stale_while_revalidate is Some {
                4
            } else {
                0
            };
            let d: u32 = if pci {
                8
            } else {
                0
            };
            let tag = a | b | d;
            assert(c.tag() == tag);
            assert((tag & !15u32 == 0) && (tag & 1u32 == 0) && ((tag & 2u32 != 0) == (a == 2)) && ((
            tag & 4u32 != 0) == (b == 4)) && ((tag & 8u32 != 0) == (d == 8)) && ((tag == 0) == (a
                == 0 && b == 0 && d == 0))) by (bit_vector)
                requires
                    tag == a | b | d,
                    a == 2 || a == 0,
                    b == 4 || b == 0,
                    d == 8 || d == 0,
            ;
        },
    }
}

} // verus!
