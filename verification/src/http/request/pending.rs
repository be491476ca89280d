//! Requests that were sent and not answered yet.

use crate::http::request::pending::handle::{swap_removed, PendingRequestHandle};
use crate::http::request::{Request, RequestView, SendError, SendErrorCause};
use crate::http::response::{FastlyResponseMetadata, Response, ResponseView};
use vstd::prelude::*;

pub mod handle;

verus! {

/// A request that was sent and not answered yet.
#[derive(Debug)]
pub struct PendingRequest {
    handle: PendingRequestHandle,
    metadata: FastlyResponseMetadata,
}

/// What polling a pending request gave.
#[derive(Debug)]
pub enum PollResult {
    /// There is no response yet.
    Pending(PendingRequest),
    /// The response is there, or has failed.
    Done(Result<Response, SendError>),
}

/// What the host said of a pending request: still pending, or done with a response
/// that was read, or failed.
#[derive(Debug)]
pub enum Polled {
    Pending,
    Done(Result<Response, SendErrorCause>),
}

/// Whether `r` is what is made of the outcome `answer` for a request that was pending
/// with the backend `backend` and the request `sent`: a response with that backend and
/// request noted in it, or an error that names them.
pub open spec fn settled(
    r: Result<Response, SendError>,
    answer: Result<Response, SendErrorCause>,
    backend: Seq<char>,
    sent: RequestView,
) -> bool {
    match (answer, r) {
        (Ok(resp), Ok(noted)) => noted@ == (ResponseView {
            backend: Some(backend),
            sent_req: Some(sent),
            ..resp@
        }),
        (Err(cause), Err(e)) => e.backend() == backend && e.request() == sent && e.cause()
            == cause@,
        _ => false,
    }
}

impl PendingRequest {
    /// The number of the handle.
    pub closed spec fn handle_number(&self) -> u32 {
        self.handle@
    }

    /// The name of the backend that the request went to.
    pub closed spec fn backend_name(&self) -> Seq<char> {
        self.metadata.backend_name()
    }

    /// The request that was sent.
    pub closed spec fn sent(&self) -> Option<RequestView> {
        self.metadata.sent()
    }

    /// What holds of every pending request: the request that was sent is held.
    pub open spec fn wf(&self) -> bool {
        self.sent() is Some
    }

    /// A pending request of the given handle. The metadata has to hold the request
    /// that was sent.
    pub fn new(handle: PendingRequestHandle, metadata: FastlyResponseMetadata) -> (p: Self)
        requires
            metadata.sent() is Some,
        ensures
            p.wf(),
            p.handle_number() == handle@,
            p.backend_name() == metadata.backend_name(),
            p.sent() == metadata.sent(),
    {
        PendingRequest { handle, metadata }
    }

    /// The handle of the pending request.
    pub fn handle(&self) -> (r: &PendingRequestHandle)
        ensures
            r@ == self.handle_number(),
    {
        &self.handle
    }

    fn settle(self, answer: Result<Response, SendErrorCause>) -> (r: Result<Response, SendError>)
        requires
            self.wf(),
        ensures
            settled(r, answer, self.backend_name(), self.sent()->0),
    {
        match answer {
            Ok(resp) => {
                let mut resp = resp;
                resp.set_fastly_metadata(self.metadata);
                Ok(resp)
            },
            Err(cause) => Err(SendError::from_resp_metadata(self.metadata, cause)),
        }
    }

    /// What polling means for this request: it stays pending, or is done with a
    /// response in which its backend and request are noted, or with an error that
    /// names them.
    pub fn poll(self, polled: Polled) -> (r: PollResult)
        requires
            self.wf(),
        ensures
            match (polled, r) {
                (Polled::Pending, PollResult::Pending(p)) => p.wf() && p.handle_number()
                    == self.handle_number() && p.backend_name() == self.backend_name() && p.sent()
                    == self.sent(),
                (Polled::Done(answer), PollResult::Done(done)) => settled(
                    done,
                    answer,
                    self.backend_name(),
                    self.sent()->0,
                ),
                _ => false,
            },
    {
        match polled {
            Polled::Pending => PollResult::Pending(self),
            Polled::Done(answer) => PollResult::Done(self.settle(answer)),
        }
    }

    /// What waiting for this request gave: a response in which its backend and request
    /// are noted, or an error that names them.
    pub fn wait(self, answer: Result<Response, SendErrorCause>) -> (r: Result<Response, SendError>)
        requires
            self.wf(),
        ensures
            settled(r, answer, self.backend_name(), self.sent()->0),
    {
        self.settle(answer)
    }

    /// The request that was sent.
    pub fn sent_req(&self) -> (r: &Request)
        requires
            self.wf(),
        ensures
            Some(r@) == self.sent(),
    {
        match self.metadata.sent_req() {
            Some(req) => req,
            None => vstd::pervasive::unreached(),
        }
    }
}

/// What selecting among pending requests gave. `done_index` is the place of the
/// request that is done and `answer` its response or failure. The other requests stay
/// pending: the last of them takes the place of the one that is done.
pub fn select(
    pending_reqs: Vec<PendingRequest>,
    done_index: usize,
    answer: Result<Response, SendErrorCause>,
) -> (r: (Result<Response, SendError>, Vec<PendingRequest>))
    requires
        done_index < pending_reqs.len(),
        forall|i: int| 0 <= i < pending_reqs.len() ==> (#[trigger] pending_reqs[i]).wf(),
    ensures
        settled(
            r.0,
            answer,
            pending_reqs[done_index as int].backend_name(),
            pending_reqs[done_index as int].sent()->0,
        ),
        r.1@ == swap_removed(pending_reqs@, done_index as int),
{
    let mut remaining = pending_reqs;
    let done = remaining.swap_remove(done_index);
    (done.settle(answer), remaining)
}

} // verus!
