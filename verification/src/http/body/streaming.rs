//! A body that is sent while it is written.
//!
//! A [`StreamingBody`] holds the bytes that were written and not handed to the host
//! yet. The program hands them on and closes the handle.

use crate::http::body::streaming::handle::StreamingBodyHandle;
use crate::http::body::Body;
use vstd::prelude::*;
use vstd::string::StringSliceAdditionalSpecFns;

pub mod handle;

verus! {

/// A body that is sent while it is written.
#[derive(Debug)]
pub struct StreamingBody {
    handle: StreamingBodyHandle,
    pending: Vec<u8>,
}

impl StreamingBody {
    /// The number of the handle.
    pub closed spec fn handle_number(&self) -> u32 {
        self.handle@
    }

    /// The bytes that were written and not handed to the host yet.
    pub closed spec fn pending(&self) -> Seq<u8> {
        self.pending@
    }

    /// A streaming body of the given handle, with nothing written.
    pub fn from_handle(handle: StreamingBodyHandle) -> (b: Self)
        ensures
            b.handle_number() == handle@,
            b.pending() == Seq::<u8>::empty(),
    {
        StreamingBody { handle, pending: Vec::new() }
    }

    /// Ends the body: what is left to hand to the host, and the handle to close.
    pub fn finish(self) -> (r: (StreamingBodyHandle, Vec<u8>))
        ensures
            r.0@ == self.handle_number(),
            r.1@ == self.pending(),
    {
        (self.handle, self.pending)
    }

    /// Takes out the bytes that are to be handed to the host.
    pub fn take_pending(&mut self) -> (r: Vec<u8>)
        ensures
            r@ == old(self).pending(),
            final(self).pending() == Seq::<u8>::empty(),
            final(self).handle_number() == old(self).handle_number(),
    {
        let mut out: Vec<u8> = Vec::new();
        out.append(&mut self.pending);
        out
    }

    /// Writes the bytes of `other` behind what was written.
    pub fn append(&mut self, other: Body)
        ensures
            final(self).pending() == old(self).pending() + other@,
            final(self).handle_number() == old(self).handle_number(),
    {
        let mut bytes = other.into_bytes();
        self.pending.append(&mut bytes);
    }

    /// Writes bytes and returns how many were written: all.
    pub fn write_bytes(&mut self, bytes: &[u8]) -> (n: usize)
        ensures
            final(self).pending() == old(self).pending() + bytes@,
            final(self).handle_number() == old(self).handle_number(),
            n == bytes@.len(),
    {
        self.pending.extend_from_slice(bytes);
        bytes.len()
    }

    /// Writes text and returns how many bytes were written.
    pub fn write_str(&mut self, string: &str) -> (n: usize)
        ensures
            final(self).pending() == old(self).pending() + string.spec_bytes(),
            final(self).handle_number() == old(self).handle_number(),
            n == string.spec_bytes().len(),
    {
        self.write_bytes(string.as_bytes())
    }
}

} // verus!
