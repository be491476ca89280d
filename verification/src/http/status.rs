//! Status codes of HTTP responses.

use vstd::prelude::*;

verus! {

/// Whether a number can be a status code: three digits, the first not zero.
pub open spec fn valid_status(code: u16) -> bool {
    100 <= code < 1000
}

/// Tests a number as a status code.
///
/// Wraps `http::StatusCode::from_u16`, which accepts the numbers from 100 to 999.
#[verifier::external_body]
fn accepts_status(code: u16) -> (r: bool)
    ensures
        r == valid_status(code),
{
    http::StatusCode::from_u16(code).is_ok()
}

/// The reason phrase of a status code.
///
/// Wraps `http::StatusCode::canonical_reason`, which knows a phrase for the registered
/// codes and none for the others. The result is named.
#[verifier::external_body]
fn reason_of(code: u16) -> (r: Option<&'static str>)
    requires
        valid_status(code),
    ensures
        match r {
            Some(s) => canonical_reason(code) == Some(s@),
            None => canonical_reason(code) is None,
        },
{
    http::StatusCode::from_u16(code).ok().and_then(|status| status.canonical_reason())
}

/// The reason phrase that `http::StatusCode::canonical_reason` gives for a code.
pub uninterp spec fn canonical_reason(code: u16) -> Option<Seq<char>>;

/// The error of reading a number that is no status code.
#[derive(Clone, Copy, Debug, PartialEq, Eq, Structural)]
pub struct InvalidStatusCode {}

/// The status code of a response.
#[derive(Clone, Copy, Debug, PartialEq, Eq, Hash)]
pub struct StatusCode {
    code: u16,
}

impl View for StatusCode {
    type V = u16;

    closed spec fn view(&self) -> u16 {
        self.code
    }
}

/// Status 200.
pub const OK: u16 = 200;

/// Status 303.
pub const SEE_OTHER: u16 = 303;

/// Status 307.
pub const TEMPORARY_REDIRECT: u16 = 307;

/// Status 308.
pub const PERMANENT_REDIRECT: u16 = 308;

/// Status 400.
pub const BAD_REQUEST: u16 = 400;

/// Status 404.
pub const NOT_FOUND: u16 = 404;

/// Status 500.
pub const INTERNAL_SERVER_ERROR: u16 = 500;

impl StatusCode {
    #[verifier::type_invariant]
    closed spec fn inv(&self) -> bool {
        valid_status(self.code)
    }

    /// The status of the given number, from 100 to 999.
    pub fn from_u16(src: u16) -> (r: Result<StatusCode, InvalidStatusCode>)
        ensures
            r is Ok <==> valid_status(src),
            r matches Ok(s) ==> s@ == src,
    {
        if accepts_status(src) {
            Ok(StatusCode { code: src })
        } else {
            Err(InvalidStatusCode {  })
        }
    }

    /// The number of the status.
    pub fn as_u16(&self) -> (r: u16)
        ensures
            r == self@,
            valid_status(r),
    {
        proof {
            use_type_invariant(self);
        }
        self.code
    }

    /// The reason phrase of a registered status.
    pub fn canonical_reason(&self) -> (r: Option<&'static str>)
        ensures
            match r {
                Some(s) => canonical_reason(self@) == Some(s@),
                None => canonical_reason(self@) is None,
            },
    {
        proof {
            use_type_invariant(self);
        }
        reason_of(self.code)
    }

    /// Whether the status is in the range 100 to 199.
    pub fn is_informational(&self) -> (r: bool)
        ensures
            r == (100 <= self@ < 200),
    {
        100 <= self.code && self.code < 200
    }

    /// Whether the status is in the range 200 to 299.
    pub fn is_success(&self) -> (r: bool)
        ensures
            r == (200 <= self@ < 300),
    {
        200 <= self.code && self.code < 300
    }

    /// Whether the status is in the range 300 to 399.
    pub fn is_redirection(&self) -> (r: bool)
        ensures
            r == (300 <= self@ < 400),
    {
        300 <= self.code && self.code < 400
    }

    /// Whether the status is in the range 400 to 499.
    pub fn is_client_error(&self) -> (r: bool)
        ensures
            r == (400 <= self@ < 500),
    {
        400 <= self.code && self.code < 500
    }

    /// Whether the status is in the range 500 to 599.
    pub fn is_server_error(&self) -> (r: bool)
        ensures
            r == (500 <= self@ < 600),
    {
        500 <= self.code && self.code < 600
    }
}

} // verus!
