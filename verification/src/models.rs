//! Records of the management API.

use vstd::prelude::*;

verus! {

/// What the API tells of a dictionary.
#[derive(Clone, Debug, PartialEq)]
pub struct DictionaryInfoResponse {
    pub last_updated: Option<String>,
    pub item_count: Option<i32>,
    pub digest: Option<String>,
}

impl DictionaryInfoResponse {
    /// A record with nothing set.
    pub fn new() -> (r: DictionaryInfoResponse)
        ensures
            r.last_updated is None,
            r.item_count is None,
            r.digest is None,
    {
        DictionaryInfoResponse { last_updated: None, item_count: None, digest: None }
    }
}

/// The tie between a director and a backend.
#[derive(Clone, Debug, PartialEq)]
pub struct DirectorBackend {
    pub created_at: Option<String>,
    pub deleted_at: Option<String>,
    pub updated_at: Option<String>,
    pub service_id: Option<Box<String>>,
    pub version: Option<Box<i32>>,
    pub backend_name: Option<String>,
    pub director: Option<String>,
}

impl DirectorBackend {
    /// A record with nothing set.
    pub fn new() -> (r: DirectorBackend)
        ensures
            r.created_at is None,
            r.deleted_at is None,
            r.updated_at is None,
            r.service_id is None,
            r.version is None,
            r.backend_name is None,
            r.director is None,
    {
        DirectorBackend {
            created_at: None,
            deleted_at: None,
            updated_at: None,
            service_id: None,
            version: None,
            backend_name: None,
            director: None,
        }
    }
}

/// A domain of a service.
#[derive(Clone, Debug, PartialEq)]
pub struct Domain {
    pub comment: Option<String>,
    pub name: Option<String>,
}

impl Domain {
    /// A record with nothing set.
    pub fn new() -> (r: Domain)
        ensures
            r.comment is None,
            r.name is None,
    {
        Domain { comment: None, name: None }
    }
}

/// A service.
#[derive(Clone, Debug, PartialEq)]
pub struct Service {
    pub comment: Option<String>,
    pub name: Option<String>,
    pub customer_id: Option<String>,
}

impl Service {
    /// A record with nothing set.
    pub fn new() -> (r: Service)
        ensures
            r.comment is None,
            r.name is None,
            r.customer_id is None,
    {
        Service { comment: None, name: None, customer_id: None }
    }
}

} // verus!
