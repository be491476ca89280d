//! The handle of a body that the host holds.

use crate::shared::INVALID_BODY_HANDLE;
use vstd::prelude::*;

verus! {

/// The handle of a body that the host holds.
#[derive(Debug, PartialEq, Eq, Hash)]
pub struct BodyHandle {
    handle: u32,
}

impl View for BodyHandle {
    type V = u32;

    closed spec fn view(&self) -> u32 {
        self.handle
    }
}

impl BodyHandle {
    /// The handle that stands for no body.
    pub fn invalid() -> (h: BodyHandle)
        ensures
            h@ == INVALID_BODY_HANDLE,
    {
        BodyHandle { handle: INVALID_BODY_HANDLE }
    }

    /// Whether the handle stands for a body.
    pub fn is_valid(&self) -> (r: bool)
        ensures
            r == (self@ != INVALID_BODY_HANDLE),
    {
        !self.is_invalid()
    }

    /// Whether the handle stands for no body.
    pub fn is_invalid(&self) -> (r: bool)
        ensures
            r == (self@ == INVALID_BODY_HANDLE),
    {
        self.handle == INVALID_BODY_HANDLE
    }

    /// The handle of the given number.
    pub fn from_u32(handle: u32) -> (h: BodyHandle)
        ensures
            h@ == handle,
    {
        BodyHandle { handle }
    }

    /// The number of the handle.
    pub fn as_u32(&self) -> (r: u32)
        ensures
            r == self@,
    {
        self.handle
    }

    /// The place of the number of the handle, for the host to write it.
    pub fn as_u32_mut(&mut self) -> (r: &mut u32)
        ensures
            *r == old(self)@,
            final(self)@ == *final(r),
    {
        &mut self.handle
    }

    /// The number of the handle, the handle given up.
    pub fn into_u32(self) -> (r: u32)
        ensures
            r == self@,
    {
        self.handle
    }
}

} // verus!
