//! The handle of a request that was sent and not answered yet, and what the host's
//! answers about it mean.

use crate::http::body::handle::BodyHandle;
use crate::http::request::{SendErrorCause, SendErrorCauseView};
use crate::http::response::handle::ResponseHandle;
use crate::shared::{
    FastlyStatus, INVALID_BODY_HANDLE, INVALID_PENDING_REQUEST_HANDLE, INVALID_RESPONSE_HANDLE,
    MAX_PENDING_REQS, STATUS_OK,
};
use vstd::prelude::*;
use vstd::string::StringExecFns;

verus! {

/// The handle of a request that was sent and not answered yet.
#[derive(Debug, PartialEq, Eq, Hash)]
pub struct PendingRequestHandle {
    handle: u32,
}

impl View for PendingRequestHandle {
    type V = u32;

    closed spec fn view(&self) -> u32 {
        self.handle
    }
}

/// What polling a pending request gave.
#[derive(Debug)]
pub enum PollHandleResult {
    /// There is no response yet.
    Pending(PendingRequestHandle),
    /// The response is there, or has failed.
    Done(Result<(ResponseHandle, BodyHandle), SendErrorCause>),
}

/// The numbers of two handles, or the cause of an error.
pub open spec fn handles_view(r: Result<(ResponseHandle, BodyHandle), SendErrorCause>) -> Result<
    (u32, u32),
    SendErrorCauseView,
> {
    match r {
        Ok((resp, body)) => Ok((resp@, body@)),
        Err(e) => Err(e@),
    }
}

/// The numbers of the handles.
pub open spec fn handle_numbers(handles: Seq<PendingRequestHandle>) -> Seq<u32> {
    Seq::new(handles.len(), |i: int| handles[i]@)
}

/// The sequence without the item at `index`, the last item put in its place.
pub open spec fn swap_removed<T>(items: Seq<T>, index: int) -> Seq<T> {
    items.update(index, items.last()).drop_last()
}

impl PendingRequestHandle {
    /// The handle that stands for no pending request.
    pub fn invalid() -> (h: Self)
        ensures
            h@ == INVALID_PENDING_REQUEST_HANDLE,
    {
        PendingRequestHandle { handle: INVALID_PENDING_REQUEST_HANDLE }
    }

    /// Whether the handle stands for no pending request.
    pub fn is_invalid(&self) -> (r: bool)
        ensures
            r == (self@ == INVALID_PENDING_REQUEST_HANDLE),
    {
        self.handle == INVALID_PENDING_REQUEST_HANDLE
    }

    /// The handle of the given number.
    pub fn from_u32(handle: u32) -> (h: Self)
        ensures
            h@ == handle,
    {
        PendingRequestHandle { handle }
    }

    /// The number of the handle.
    pub fn as_u32(&self) -> (r: u32)
        ensures
            r == self@,
    {
        self.handle
    }

    /// Another handle of the same number.
    pub fn copy(&self) -> (h: Self)
        ensures
            h@ == self@,
    {
        PendingRequestHandle { handle: self.handle }
    }

    /// What the host's answer to polling means. A failure status is the cause of an
    /// error. On success `is_done` is zero while the response is pending and one when
    /// it is there; a response without valid handles has failed.
    pub fn poll(
        self,
        status: FastlyStatus,
        is_done: i32,
        resp_handle: ResponseHandle,
        body_handle: BodyHandle,
    ) -> (r: PollHandleResult)
        requires
            status.code == STATUS_OK ==> 0 <= is_done <= 1,
        ensures
            match r {
                PollHandleResult::Pending(h) => status.code == STATUS_OK && is_done == 0 && h@
                    == self@,
                PollHandleResult::Done(done) => handles_view(done) == if status.code
                    != STATUS_OK {
                    Err::<(u32, u32), SendErrorCauseView>(
                        SendErrorCauseView::of_status(status.code),
                    )
                } else if resp_handle@ == INVALID_RESPONSE_HANDLE || body_handle@
                    == INVALID_BODY_HANDLE {
                    Err::<(u32, u32), SendErrorCauseView>(
                        SendErrorCauseView::Generic("asynchronous request failed"@),
                    )
                } else {
                    Ok::<(u32, u32), SendErrorCauseView>((resp_handle@, body_handle@))
                } && (status.code == STATUS_OK ==> is_done == 1),
            },
    {
        if status.is_err() {
            return PollHandleResult::Done(Err(SendErrorCause::status(status)));
        }
        if is_done == 0 {
            return PollHandleResult::Pending(self);
        }
        if resp_handle.is_invalid() || body_handle.is_invalid() {
            PollHandleResult::Done(
                Err(SendErrorCause::Generic(String::from_str("asynchronous request failed"))),
            )
        } else {
            PollHandleResult::Done(Ok((resp_handle, body_handle)))
        }
    }

    /// What the host's answer to waiting means: the handles of the response, or the
    /// cause that a failure status stands for. Handles that come with success have to
    /// be valid.
    pub fn wait(self, status: FastlyStatus, resp_handle: ResponseHandle, body_handle: BodyHandle) -> (r:
        Result<(ResponseHandle, BodyHandle), SendErrorCause>)
        requires
            status.code == STATUS_OK ==> resp_handle@ != INVALID_RESPONSE_HANDLE && body_handle@
                != INVALID_BODY_HANDLE,
        ensures
            handles_view(r) == if status.code == STATUS_OK {
                Ok::<(u32, u32), SendErrorCauseView>((resp_handle@, body_handle@))
            } else {
                Err::<(u32, u32), SendErrorCauseView>(SendErrorCauseView::of_status(status.code))
            },
    {
        if status.is_err() {
            return Err(SendErrorCause::status(status));
        }
        Ok((resp_handle, body_handle))
    }
}

/// The numbers of the handles, as they are handed to the host to select among them.
pub fn handle_list(pending_reqs: &Vec<PendingRequestHandle>) -> (r: Vec<u32>)
    ensures
        r@ == handle_numbers(pending_reqs@),
{
    let mut numbers: Vec<u32> = Vec::new();
    let mut i: usize = 0;
    while i < pending_reqs.len()
        invariant
            0 <= i <= pending_reqs.len(),
            numbers.len() == i,
            forall|j: int| 0 <= j < i ==> numbers[j] == pending_reqs[j]@,
        decreases pending_reqs.len() - i,
    {
        numbers.push(pending_reqs[i].as_u32());
        i = i + 1;
    }
    assert(numbers@ =~= handle_numbers(pending_reqs@));
    numbers
}

/// What the host's answer to selecting among pending requests means. `done_index` is
/// the place of the request that is done; its response has failed where the handles
/// are not valid. The other requests stay pending: the last of them takes the place of
/// the one that is done.
pub fn select_handles(
    pending_reqs: Vec<PendingRequestHandle>,
    done_index: usize,
    resp_handle: ResponseHandle,
    body_handle: BodyHandle,
) -> (r: (Result<(ResponseHandle, BodyHandle), SendErrorCause>, usize, Vec<PendingRequestHandle>))
    requires
        0 < pending_reqs.len() <= MAX_PENDING_REQS,
        done_index < pending_reqs.len(),
    ensures
        handles_view(r.0) == if resp_handle@ == INVALID_RESPONSE_HANDLE || body_handle@
            == INVALID_BODY_HANDLE {
            Err::<(u32, u32), SendErrorCauseView>(
                SendErrorCauseView::Generic("selected request failed"@),
            )
        } else {
            Ok::<(u32, u32), SendErrorCauseView>((resp_handle@, body_handle@))
        },
        r.1 == done_index,
        r.2@ == swap_removed(pending_reqs@, done_index as int),
{
    let mut remaining = pending_reqs;
    let _ = remaining.swap_remove(done_index);
    let res = if resp_handle.is_invalid() || body_handle.is_invalid() {
        Err(SendErrorCause::Generic(String::from_str("selected request failed")))
    } else {
        Ok((resp_handle, body_handle))
    };
    (res, done_index, remaining)
}

} // verus!
