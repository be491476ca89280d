//! Limits on the sizes of the parts of a message that is read from the host.
//!
//! The limits are plain values: the program keeps one set for requests and one for
//! responses and hands them to the functions that read messages.

use vstd::prelude::*;

verus! {

/// The buffer size that is first offered for a header name.
pub const INITIAL_HEADER_NAME_BUF_SIZE: usize = 128;

/// The limit on header names unless another is set.
pub const DEFAULT_MAX_HEADER_NAME_BYTES: usize = 8192;

/// The buffer size that is first offered for a header value.
pub const INITIAL_HEADER_VALUE_BUF_SIZE: usize = 4096;

/// The limit on header values unless another is set.
pub const DEFAULT_MAX_HEADER_VALUE_BYTES: usize = 8192;

/// The buffer size that is first offered for a method.
pub const INITIAL_METHOD_BUF_SIZE: usize = 8;

/// The limit on methods unless another is set.
pub const DEFAULT_MAX_METHOD_BYTES: usize = 8192;

/// The buffer size that is first offered for a URL.
pub const INITIAL_URL_BUF_SIZE: usize = 4096;

/// The limit on URLs unless another is set.
pub const DEFAULT_MAX_URL_BYTES: usize = 8192;

/// The buffer size that is first offered for geolocation data.
pub const INITIAL_GEO_BUF_SIZE: usize = 1024;

/// The buffer size that is first offered for the plaintext of a secret.
pub const INITIAL_SECRET_PLAINTEXT_BUF_SIZE: usize = 1024;

/// The limits on the parts of a request; `None` is no limit.
#[derive(Clone, Copy, Debug, PartialEq, Eq, Structural)]
pub struct RequestLimits {
    pub max_header_name_bytes: Option<usize>,
    pub max_header_value_bytes: Option<usize>,
    pub max_method_bytes: Option<usize>,
    pub max_url_bytes: Option<usize>,
}

impl RequestLimits {
    /// The limits that hold unless others are set: 8192 bytes for each part.
    pub open spec fn standard() -> Self {
        RequestLimits {
            max_header_name_bytes: Some(DEFAULT_MAX_HEADER_NAME_BYTES),
            max_header_value_bytes: Some(DEFAULT_MAX_HEADER_VALUE_BYTES),
            max_method_bytes: Some(DEFAULT_MAX_METHOD_BYTES),
            max_url_bytes: Some(DEFAULT_MAX_URL_BYTES),
        }
    }

    /// No limit on any part.
    pub open spec fn disabled() -> Self {
        RequestLimits {
            max_header_name_bytes: None,
            max_header_value_bytes: None,
            max_method_bytes: None,
            max_url_bytes: None,
        }
    }

    /// Sets every limit to its default.
    pub fn set_all_default(&mut self)
        ensures
            *final(self) == Self::standard(),
    {
        self.max_header_name_bytes = Some(DEFAULT_MAX_HEADER_NAME_BYTES);
        self.max_header_value_bytes = Some(DEFAULT_MAX_HEADER_VALUE_BYTES);
        self.max_method_bytes = Some(DEFAULT_MAX_METHOD_BYTES);
        self.max_url_bytes = Some(DEFAULT_MAX_URL_BYTES);
    }

    /// Lifts every limit.
    pub fn set_all_disabled(&mut self)
        ensures
            *final(self) == Self::disabled(),
    {
        self.max_header_name_bytes = None;
        self.max_header_value_bytes = None;
        self.max_method_bytes = None;
        self.max_url_bytes = None;
    }

    pub fn get_max_header_name_bytes(&self) -> (r: Option<usize>)
        ensures
            r == self.max_header_name_bytes,
    {
        self.max_header_name_bytes
    }

    pub fn set_max_header_name_bytes(&mut self, max: Option<usize>)
        ensures
            *final(self) == (RequestLimits { max_header_name_bytes: max, ..*old(self) }),
    {
        self.max_header_name_bytes = max;
    }

    pub fn get_max_header_value_bytes(&self) -> (r: Option<usize>)
        ensures
            r == self.max_header_value_bytes,
    {
        self.max_header_value_bytes
    }

    pub fn set_max_header_value_bytes(&mut self, max: Option<usize>)
        ensures
            *final(self) == (RequestLimits { max_header_value_bytes: max, ..*old(self) }),
    {
        self.max_header_value_bytes = max;
    }

    pub fn get_max_method_bytes(&self) -> (r: Option<usize>)
        ensures
            r == self.max_method_bytes,
    {
        self.max_method_bytes
    }

    pub fn set_max_method_bytes(&mut self, max: Option<usize>)
        ensures
            *final(self) == (RequestLimits { max_method_bytes: max, ..*old(self) }),
    {
        self.max_method_bytes = max;
    }

    pub fn get_max_url_bytes(&self) -> (r: Option<usize>)
        ensures
            r == self.max_url_bytes,
    {
        self.max_url_bytes
    }

    pub fn set_max_url_bytes(&mut self, max: Option<usize>)
        ensures
            *final(self) == (RequestLimits { max_url_bytes: max, ..*old(self) }),
    {
        self.max_url_bytes = max;
    }
}

impl Default for RequestLimits {
    fn default() -> (r: Self)
        ensures
            r == RequestLimits::standard(),
    {
        RequestLimits {
            max_header_name_bytes: Some(DEFAULT_MAX_HEADER_NAME_BYTES),
            max_header_value_bytes: Some(DEFAULT_MAX_HEADER_VALUE_BYTES),
            max_method_bytes: Some(DEFAULT_MAX_METHOD_BYTES),
            max_url_bytes: Some(DEFAULT_MAX_URL_BYTES),
        }
    }
}

/// The limits on the parts of a response; `None` is no limit.
#[derive(Clone, Copy, Debug, PartialEq, Eq, Structural)]
pub struct ResponseLimits {
    pub max_header_name_bytes: Option<usize>,
    pub max_header_value_bytes: Option<usize>,
}

impl ResponseLimits {
    /// The limits that hold unless others are set: none.
    pub open spec fn standard() -> Self {
        ResponseLimits { max_header_name_bytes: None, max_header_value_bytes: None }
    }

    /// Sets every limit to its default, which is no limit.
    pub fn set_all_default(&mut self)
        ensures
            *final(self) == Self::standard(),
    {
        self.max_header_name_bytes = None;
        self.max_header_value_bytes = None;
    }

    /// Lifts every limit.
    pub fn set_all_disabled(&mut self)
        ensures
            *final(self) == Self::standard(),
    {
        self.max_header_name_bytes = None;
        self.max_header_value_bytes = None;
    }

    pub fn get_max_header_name_bytes(&self) -> (r: Option<usize>)
        ensures
            r == self.max_header_name_bytes,
    {
        self.max_header_name_bytes
    }

    pub fn set_max_header_name_bytes(&mut self, max: Option<usize>)
        ensures
            *final(self) == (ResponseLimits { max_header_name_bytes: max, ..*old(self) }),
    {
        self.max_header_name_bytes = max;
    }

    pub fn get_max_header_value_bytes(&self) -> (r: Option<usize>)
        ensures
            r == self.max_header_value_bytes,
    {
        self.max_header_value_bytes
    }

    pub fn set_max_header_value_bytes(&mut self, max: Option<usize>)
        ensures
            *final(self) == (ResponseLimits { max_header_value_bytes: max, ..*old(self) }),
    {
        self.max_header_value_bytes = max;
    }
}

impl Default for ResponseLimits {
    fn default() -> (r: Self)
        ensures
            r == ResponseLimits::standard(),
    {
        ResponseLimits { max_header_name_bytes: None, max_header_value_bytes: None }
    }
}

} // verus!
