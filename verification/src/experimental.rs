//! Parts of the interface that may still change.

use crate::backend::builder::{BackendBuilder, BackendBuilderView};
use crate::backend::Backend;
use crate::digest::{hex_upper, hex_upper_bytes, sha256};
use crate::http::header::{fastly_xqd_cache_key, HeaderName, HeaderValue};
use crate::http::request::handle::RequestHandle;
use crate::http::request::{
    Request, RequestView, SendError, SendErrorCause, SendErrorCauseView,
};
use crate::shared::{status_name, FastlyStatus, STATUS_OK};
use crate::sys::BackendHealth;
use crate::text::{string_from_utf8_lossy, utf8_lossy};
use vstd::prelude::*;
use vstd::string::{StringExecFns, StringSliceAdditionalSpecFns};

verus! {

/// The bytes that are put behind a text before it is digested into a cache key.
pub open spec fn cache_key_salt() -> Seq<u8> {
    seq![0u8, 240, 159, 167, 130, 0]
}

/// The cache key of a text: the SHA-256 digest of the text and the salt.
pub open spec fn cache_key_of(key_str: Seq<u8>) -> Seq<u8> {
    sha256(key_str + cache_key_salt())
}

/// Requests whose cache key can be set.
pub trait RequestCacheKey: Sized {
    /// The cache key that is set, if one is.
    spec fn cache_key(&self) -> Option<Seq<u8>>;

    /// Sets the cache key.
    fn set_cache_key(&mut self, key: [u8; 32])
        ensures
            final(self).cache_key() == Some(key@),
    ;

    /// The request with the cache key.
    fn with_cache_key(self, key: [u8; 32]) -> (r: Self)
        ensures
            r.cache_key() == Some(key@),
    ;

    /// Sets the cache key to the digest of a text.
    fn set_cache_key_str(&mut self, key_str: &[u8])
        ensures
            final(self).cache_key() == Some(cache_key_of(key_str@)),
    ;

    /// The request with the digest of a text as its cache key.
    fn with_cache_key_str(self, key_str: &[u8]) -> (r: Self)
        ensures
            r.cache_key() == Some(cache_key_of(key_str@)),
    ;
}

/// Request handles whose cache key can be set.
pub trait RequestHandleCacheKey {
    /// The header that tells the host the cache key: the name `fastly-xqd-cache-key`
    /// and the key in upper-case hexadecimal.
    fn set_cache_key(&mut self, key: &[u8; 32]) -> (header: (HeaderName, HeaderValue))
        ensures
            header.0@ == "fastly-xqd-cache-key".spec_bytes(),
            header.1@ == hex_upper(key@),
    ;
}

impl RequestHandleCacheKey for RequestHandle {
    fn set_cache_key(&mut self, key: &[u8; 32]) -> (header: (HeaderName, HeaderValue)) {
        let hex = hex_upper_bytes(key.as_slice());
        let value = match HeaderValue::from_bytes(hex.as_slice()) {
            Ok(v) => v,
            Err(_) => vstd::pervasive::unreached(),
        };
        (fastly_xqd_cache_key(), value)
    }
}

/// Whether `r` is what the status of handing a request over means: success, or the
/// error of sending the request to `backend`.
pub open spec fn handoff_result(
    r: Result<(), SendError>,
    status: FastlyStatus,
    backend: Seq<char>,
    req: RequestView,
) -> bool {
    match r {
        Ok(_) => status.code == STATUS_OK,
        Err(e) => status.code != STATUS_OK && e.backend() == backend && e.request() == req
            && e.cause() == SendErrorCauseView::of_status(status.code),
    }
}

/// Requests that can be handed over to a proxy of the host.
pub trait RequestUpgradeWebsocket: Sized {
    /// What the host's answer to handing the request over to the websocket proxy
    /// means.
    fn handoff_websocket(self, backend: &str, status: FastlyStatus) -> Result<(), SendError>;

    /// What the host's answer to handing the request over to the fanout proxy means.
    fn handoff_fanout(self, backend: &str, status: FastlyStatus) -> Result<(), SendError>;
}

fn handed_over(req: Request, backend: &str, status: FastlyStatus) -> (r: Result<(), SendError>)
    ensures
        handoff_result(r, status, backend@, req@),
{
    if status.is_err() {
        Err(SendError::new(backend, req, SendErrorCause::status(status)))
    } else {
        Ok(())
    }
}

impl RequestUpgradeWebsocket for Request {
    fn handoff_websocket(self, backend: &str, status: FastlyStatus) -> (r: Result<(), SendError>)
        ensures
            handoff_result(r, status, backend@, self@),
    {
        handed_over(self, backend, status)
    }

    fn handoff_fanout(self, backend: &str, status: FastlyStatus) -> (r: Result<(), SendError>)
        ensures
            handoff_result(r, status, backend@, self@),
    {
        handed_over(self, backend, status)
    }
}

/// Whether `r` is what the status of handing a request handle over means.
pub open spec fn handle_handoff_result(r: Result<(), SendErrorCause>, status: FastlyStatus) -> bool {
    match r {
        Ok(_) => status.code == STATUS_OK,
        Err(e) => status.code != STATUS_OK && e@ == SendErrorCauseView::of_status(status.code),
    }
}

/// Request handles that can be handed over to a proxy of the host.
pub trait RequestHandleUpgradeWebsocket {
    /// What the host's answer to handing the request over to the websocket proxy
    /// means.
    fn handoff_websocket(&mut self, status: FastlyStatus) -> (r: Result<(), SendErrorCause>)
        ensures
            handle_handoff_result(r, status),
    ;

    /// What the host's answer to handing the request over to the fanout proxy means.
    fn handoff_fanout(&mut self, status: FastlyStatus) -> (r: Result<(), SendErrorCause>)
        ensures
            handle_handoff_result(r, status),
    ;
}

impl RequestHandleUpgradeWebsocket for RequestHandle {
    fn handoff_websocket(&mut self, status: FastlyStatus) -> (r: Result<(), SendErrorCause>) {
        if status.code == STATUS_OK {
            Ok(())
        } else {
            Err(SendErrorCause::status(status))
        }
    }

    fn handoff_fanout(&mut self, status: FastlyStatus) -> (r: Result<(), SendErrorCause>) {
        if status.code == STATUS_OK {
            Ok(())
        } else {
            Err(SendErrorCause::status(status))
        }
    }
}

/// More that can be asked of a backend.
pub trait BackendExt {
    /// Starts the description of a backend that is to be registered while the
    /// program runs.
    fn builder(name: &str, target: &str) -> (b: BackendBuilder)
        ensures
            b@ == BackendBuilderView::initial(name@, target@),
    ;

    /// What the host's answer to asking for the health of the backend means.
    fn is_healthy(&self, status: FastlyStatus, health: BackendHealth) -> (r: Result<
        BackendHealth,
        String,
    >)
        ensures
            match r {
                Ok(h) => status.code == STATUS_OK && h == health,
                Err(text) => status.code != STATUS_OK && text@ == "backend healthcheck error: "@
                    + status_name(status.code),
            },
    ;
}

impl BackendExt for Backend {
    fn builder(name: &str, target: &str) -> (b: BackendBuilder) {
        BackendBuilder::new(name, target)
    }

    fn is_healthy(&self, status: FastlyStatus, health: BackendHealth) -> (r: Result<
        BackendHealth,
        String,
    >) {
        if status.code == STATUS_OK {
            Ok(health)
        } else {
            let mut text = String::from_str("backend healthcheck error: ");
            text.append(status.name());
            Err(text)
        }
    }
}

/// What the host's answer to parsing a user agent means: the family and the three
/// parts of the version, each read as text in which what is not UTF-8 is replaced.
pub fn uap_parse(status: FastlyStatus, family: &[u8], major: &[u8], minor: &[u8], patch: &[u8]) -> (r:
    Result<(String, Option<String>, Option<String>, Option<String>), String>)
    ensures
        match r {
            Ok((f, Some(ma), Some(mi), Some(pa))) => status.code == STATUS_OK && f@ == utf8_lossy(
                family@,
            ) && ma@ == utf8_lossy(major@) && mi@ == utf8_lossy(minor@) && pa@ == utf8_lossy(
                patch@,
            ),
            Ok(_) => false,
            Err(text) => status.code != STATUS_OK && text@ == "fastly_uap::parse failed"@,
        },
{
    if status.is_err() {
        return Err(String::from_str("fastly_uap::parse failed"));
    }
    Ok(
        (
            string_from_utf8_lossy(family),
            Some(string_from_utf8_lossy(major)),
            Some(string_from_utf8_lossy(minor)),
            Some(string_from_utf8_lossy(patch)),
        ),
    )
}

} // verus!
