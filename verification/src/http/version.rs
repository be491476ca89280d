//! Versions of the HTTP protocol.

use crate::shared::HttpVersion;
use vstd::prelude::*;

verus! {

/// A version of the HTTP protocol.
#[allow(non_camel_case_types)]
#[derive(Clone, Copy, Debug, PartialEq, Eq, Hash, Structural)]
pub enum Version {
    HTTP_09,
    HTTP_10,
    HTTP_11,
    HTTP_2,
    HTTP_3,
}

impl Version {
    /// The version as the host knows it.
    pub open spec fn host_version(self) -> HttpVersion {
        match self {
            Version::HTTP_09 => HttpVersion::Http09,
            Version::HTTP_10 => HttpVersion::Http10,
            Version::HTTP_11 => HttpVersion::Http11,
            Version::HTTP_2 => HttpVersion::H2,
            Version::HTTP_3 => HttpVersion::H3,
        }
    }

    /// The version that the host knows as `v`.
    pub open spec fn of_host_version(v: HttpVersion) -> Version {
        match v {
            HttpVersion::Http09 => Version::HTTP_09,
            HttpVersion::Http10 => Version::HTTP_10,
            HttpVersion::Http11 => Version::HTTP_11,
            HttpVersion::H2 => Version::HTTP_2,
            HttpVersion::H3 => Version::HTTP_3,
        }
    }

    /// The version as the host knows it.
    pub fn to_host(self) -> (v: HttpVersion)
        ensures
            v == self.host_version(),
            Version::of_host_version(v) == self,
    {
        match self {
            Version::HTTP_09 => HttpVersion::Http09,
            Version::HTTP_10 => HttpVersion::Http10,
            Version::HTTP_11 => HttpVersion::Http11,
            Version::HTTP_2 => HttpVersion::H2,
            Version::HTTP_3 => HttpVersion::H3,
        }
    }

    /// The version that the host knows as `v`.
    pub fn from_host(v: HttpVersion) -> (r: Version)
        ensures
            r == Version::of_host_version(v),
            r.host_version() == v,
    {
        match v {
            HttpVersion::Http09 => Version::HTTP_09,
            HttpVersion::Http10 => Version::HTTP_10,
            HttpVersion::Http11 => Version::HTTP_11,
            HttpVersion::H2 => Version::HTTP_2,
            HttpVersion::H3 => Version::HTTP_3,
        }
    }
}

impl HttpVersion {
    /// The host's version for a version of this library.
    pub fn from(v: Version) -> (r: HttpVersion)
        ensures
            r == v.host_version(),
    {
        v.to_host()
    }
}

} // verus!
