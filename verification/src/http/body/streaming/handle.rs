//! The handle of a body that is sent while it is written.

use crate::error::HandleError;
use crate::http::body::handle::BodyHandle;
use crate::shared::{FastlyStatus, STATUS_BADF, STATUS_OK};
use vstd::prelude::*;

verus! {

/// The handle of a body that is sent while it is written.
#[derive(Debug, PartialEq, Eq, Hash)]
pub struct StreamingBodyHandle {
    handle: BodyHandle,
}

impl View for StreamingBodyHandle {
    type V = u32;

    closed spec fn view(&self) -> u32 {
        self.handle@
    }
}

impl StreamingBodyHandle {
    /// The streaming handle of a body.
    pub fn from_body_handle(body_handle: BodyHandle) -> (h: Self)
        ensures
            h@ == body_handle@,
    {
        StreamingBodyHandle { handle: body_handle }
    }

    /// The number of the handle.
    pub fn as_u32(&self) -> (r: u32)
        ensures
            r == self@,
    {
        self.handle.as_u32()
    }

    /// The number of the handle, the handle given up.
    pub fn into_u32(self) -> (r: u32)
        ensures
            r == self@,
    {
        self.handle.into_u32()
    }

    /// What the host's answer to closing the body means. The status has to be one
    /// that the host gives for closing: success, or "bad handle".
    pub fn finish(self, status: FastlyStatus) -> (r: Result<(), HandleError>)
        requires
            status.code == STATUS_OK || status.code == STATUS_BADF,
        ensures
            r == if status.code == STATUS_OK {
                Ok::<(), HandleError>(())
            } else {
                Err::<(), HandleError>(HandleError::InvalidHandle)
            },
    {
        if status.code == STATUS_OK {
            Ok(())
        } else {
            Err(HandleError::InvalidHandle)
        }
    }
}

} // verus!
