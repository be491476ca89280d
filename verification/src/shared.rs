//! Scalar types that cross the boundary between guest and host.

use vstd::prelude::*;

verus! {

/// The largest number of requests that may be pending at one time.
pub const MAX_PENDING_REQS: u32 = 16384;

/// The handle value that stands for "no request".
pub const INVALID_REQUEST_HANDLE: u32 = 4294967294;

/// The handle value that stands for "no pending request".
pub const INVALID_PENDING_REQUEST_HANDLE: u32 = 4294967294;

/// The handle value that stands for "no response".
pub const INVALID_RESPONSE_HANDLE: u32 = 4294967294;

/// The handle value that stands for "no body".
pub const INVALID_BODY_HANDLE: u32 = 4294967294;

/// The handle value that stands for "no dictionary".
pub const INVALID_DICTIONARY_HANDLE: u32 = 4294967294;

/// The handle value that stands for "no key-value store".
pub const INVALID_KV_STORE_HANDLE: u32 = 4294967294;

/// The older name of [`INVALID_KV_STORE_HANDLE`].
pub const INVALID_OBJECT_STORE_HANDLE: u32 = 4294967294;

/// The handle value that stands for "no secret store".
pub const INVALID_SECRET_STORE_HANDLE: u32 = 4294967294;

/// The handle value that stands for "no secret".
pub const INVALID_SECRET_HANDLE: u32 = 4294967294;

/// The handle value that stands for "no cache entry".
pub const INVALID_CACHE_HANDLE: u32 = 4294967294;

/// The version of the host interface that this library speaks.
pub const FASTLY_ABI_VERSION: u64 = 1;

/// Status code: the call succeeded.
pub const STATUS_OK: i32 = 0;

/// Status code: an unspecified failure.
pub const STATUS_ERROR: i32 = 1;

/// Status code: an argument was invalid.
pub const STATUS_INVAL: i32 = 2;

/// Status code: a handle was invalid.
pub const STATUS_BADF: i32 = 3;

/// Status code: the buffer that the guest offered was too small.
pub const STATUS_BUFLEN: i32 = 4;

/// Status code: the operation is not supported.
pub const STATUS_UNSUPPORTED: i32 = 5;

/// Status code: a pointer was misaligned.
pub const STATUS_BADALIGN: i32 = 6;

/// Status code: an HTTP message could not be parsed.
pub const STATUS_HTTPINVALID: i32 = 7;

/// Status code: an HTTP error caused by the guest program.
pub const STATUS_HTTPUSER: i32 = 8;

/// Status code: an HTTP message ended early.
pub const STATUS_HTTPINCOMPLETE: i32 = 9;

/// Status code: an optional value was absent.
pub const STATUS_NONE: i32 = 10;

/// Status code: the head of an HTTP message was too large.
pub const STATUS_HTTPHEADTOOLARGE: i32 = 11;

/// Status code: the status line of an HTTP response was invalid.
pub const STATUS_HTTPINVALIDSTATUS: i32 = 12;

/// Status code: a resource limit was exceeded.
pub const STATUS_LIMITEXCEEDED: i32 = 13;

/// A TLS protocol version, as the host numbers them.
#[allow(non_camel_case_types)]
#[derive(Clone, Copy, Debug, PartialEq, Eq, Structural)]
pub enum SslVersion {
    TLS1,
    TLS1_1,
    TLS1_2,
    TLS1_3,
}

impl SslVersion {
    /// The number that the host uses for this version.
    pub open spec fn number(self) -> u32 {
        match self {
            SslVersion::TLS1 => 0,
            SslVersion::TLS1_1 => 1,
            SslVersion::TLS1_2 => 2,
            SslVersion::TLS1_3 => 3,
        }
    }

    /// The version that the host numbers `x`, if there is one.
    pub open spec fn of_number(x: u32) -> Option<SslVersion> {
        if x == 0 {
            Some(SslVersion::TLS1)
        } else if x == 1 {
            Some(SslVersion::TLS1_1)
        } else if x == 2 {
            Some(SslVersion::TLS1_2)
        } else if x == 3 {
            Some(SslVersion::TLS1_3)
        } else {
            None
        }
    }

    pub fn as_u32(&self) -> (n: u32)
        ensures
            n == self.number(),
            SslVersion::of_number(n) == Some(*self),
    {
        match self {
            SslVersion::TLS1 => 0,
            SslVersion::TLS1_1 => 1,
            SslVersion::TLS1_2 => 2,
            SslVersion::TLS1_3 => 3,
        }
    }

    /// Reads a version from the host's number for it. An unknown number is
    /// answered with a message that quotes it.
    pub fn try_from(x: u32) -> (r: Result<SslVersion, String>)
        ensures
            match r {
                Ok(v) => SslVersion::of_number(x) == Some(v),
                Err(msg) => SslVersion::of_number(x) is None && msg@ == unknown_value_message(
                    "unknown ssl version enum value: "@,
                    x,
                ),
            },
    {
        if x == 0 {
            Ok(SslVersion::TLS1)
        } else if x == 1 {
            Ok(SslVersion::TLS1_1)
        } else if x == 2 {
            Ok(SslVersion::TLS1_2)
        } else if x == 3 {
            Ok(SslVersion::TLS1_3)
        } else {
            Err(describe_unknown_value("unknown ssl version enum value: ", x))
        }
    }
}

/// The decimal digits of `n`, most significant first.
pub open spec fn decimal_digits(n: nat) -> Seq<char>
    decreases n,
{
    if n < 10 {
        seq![digit_char(n)]
    } else {
        decimal_digits(n / 10).push(digit_char(n % 10))
    }
}

/// The character of a single decimal digit.
pub open spec fn digit_char(d: nat) -> char
    recommends
        d < 10,
{
    if d == 0 {
        '0'
    } else if d == 1 {
        '1'
    } else if d == 2 {
        '2'
    } else if d == 3 {
        '3'
    } else if d == 4 {
        '4'
    } else if d == 5 {
        '5'
    } else if d == 6 {
        '6'
    } else if d == 7 {
        '7'
    } else if d == 8 {
        '8'
    } else {
        '9'
    }
}

/// The text of a complaint about an unknown number: a prefix, then the number in decimal.
pub open spec fn unknown_value_message(prefix: Seq<char>, x: u32) -> Seq<char> {
    prefix + decimal_digits(x as nat)
}

fn digit_to_char(d: u64) -> (c: char)
    requires
        d < 10,
    ensures
        c == digit_char(d as nat),
{
    if d == 0 {
        '0'
    } else if d == 1 {
        '1'
    } else if d == 2 {
        '2'
    } else if d == 3 {
        '3'
    } else if d == 4 {
        '4'
    } else if d == 5 {
        '5'
    } else if d == 6 {
        '6'
    } else if d == 7 {
        '7'
    } else if d == 8 {
        '8'
    } else {
        '9'
    }
}

/// Appends one character to a string.
///
/// Wraps `String::push`: the string afterwards is the string before with `c` at its end.
#[verifier::external_body]
pub(crate) fn push_char(s: &mut String, c: char)
    ensures
        final(s)@ == old(s)@.push(c),
{
    s.push(c)
}

/// Writes `x` in decimal at the end of `out`.
pub(crate) fn append_decimal(out: &mut String, x: u64)
    ensures
        final(out)@ == old(out)@ + decimal_digits(x as nat),
    decreases x,
{
    if x < 10 {
        push_char(out, digit_to_char(x));
    } else {
        append_decimal(out, x / 10);
        push_char(out, digit_to_char(x % 10));
        assert(final(out)@ =~= old(out)@ + decimal_digits(x as nat));
    }
}

/// The decimal digits of an integer, with a minus sign before those of a negative one.
pub open spec fn signed_decimal_digits(x: int) -> Seq<char> {
    if x < 0 {
        seq!['-'] + decimal_digits((-x) as nat)
    } else {
        decimal_digits(x as nat)
    }
}

/// Writes `x` in decimal at the end of `out`, with a minus sign if it is negative.
pub(crate) fn append_signed_decimal(out: &mut String, x: i32)
    ensures
        final(out)@ == old(out)@ + signed_decimal_digits(x as int),
{
    if x < 0 {
        push_char(out, '-');
        let magnitude: u64 = (-(x as i64)) as u64;
        append_decimal(out, magnitude);
        assert(final(out)@ =~= old(out)@ + signed_decimal_digits(x as int));
    } else {
        append_decimal(out, x as u64);
    }
}

fn describe_unknown_value(prefix: &str, x: u32) -> (msg: String)
    ensures
        msg@ == unknown_value_message(prefix@, x),
{
    let mut msg = prefix.to_owned();
    append_decimal(&mut msg, x as u64);
    msg
}

/// The status code that every host call returns.
#[derive(Clone, Copy, Debug, PartialEq, Eq, Structural)]
pub struct FastlyStatus {
    pub code: i32,
}

impl FastlyStatus {
    /// The status with the given code.
    pub fn from_code(code: i32) -> (s: FastlyStatus)
        ensures
            s.code == code,
    {
        FastlyStatus { code }
    }

    /// Whether this status reports success.
    pub fn is_ok(&self) -> (r: bool)
        ensures
            r == (self.code == STATUS_OK),
    {
        self.code == STATUS_OK
    }

    /// Whether this status reports a failure.
    pub fn is_err(&self) -> (r: bool)
        ensures
            r == (self.code != STATUS_OK),
    {
        !self.is_ok()
    }

    /// Success as `Ok`, every other status as itself in `Err`.
    pub fn result(self) -> (r: Result<(), FastlyStatus>)
        ensures
            self.code == STATUS_OK ==> r == Ok::<(), FastlyStatus>(()),
            self.code != STATUS_OK ==> r == Err::<(), FastlyStatus>(self),
    {
        if self.code == STATUS_OK {
            Ok(())
        } else {
            Err(self)
        }
    }

    /// The name under which the status is reported, `UNKNOWN` for a code that has none.
    pub fn name(&self) -> (r: &'static str)
        ensures
            r@ == status_name(self.code),
    {
        let c = self.code;
        if c == STATUS_OK {
            "OK"
        } else if c == STATUS_ERROR {
            "ERROR"
        } else if c == STATUS_INVAL {
            "INVAL"
        } else if c == STATUS_BADF {
            "BADF"
        } else if c == STATUS_BUFLEN {
            "BUFLEN"
        } else if c == STATUS_UNSUPPORTED {
            "UNSUPPORTED"
        } else if c == STATUS_BADALIGN {
            "BADALIGN"
        } else if c == STATUS_HTTPINVALID {
            "HTTP_INVALID_ERROR"
        } else if c == STATUS_HTTPUSER {
            "HTTP_USER_ERROR"
        } else if c == STATUS_HTTPINCOMPLETE {
            "HTTP_INCOMPLETE_MESSAGE"
        } else if c == STATUS_NONE {
            "NONE"
        } else if c == STATUS_HTTPHEADTOOLARGE {
            "HTTP_HEAD_TOO_LARGE"
        } else if c == STATUS_HTTPINVALIDSTATUS {
            "HTTP_INVALID_STATUS"
        } else if c == STATUS_LIMITEXCEEDED {
            "LIMIT_EXCEEDED"
        } else {
            "UNKNOWN"
        }
    }
}

/// The name under which a status code is reported.
pub open spec fn status_name(code: i32) -> Seq<char> {
    if code == STATUS_OK {
        "OK"@
    } else if code == STATUS_ERROR {
        "ERROR"@
    } else if code == STATUS_INVAL {
        "INVAL"@
    } else if code == STATUS_BADF {
        "BADF"@
    } else if code == STATUS_BUFLEN {
        "BUFLEN"@
    } else if code == STATUS_UNSUPPORTED {
        "UNSUPPORTED"@
    } else if code == STATUS_BADALIGN {
        "BADALIGN"@
    } else if code == STATUS_HTTPINVALID {
        "HTTP_INVALID_ERROR"@
    } else if code == STATUS_HTTPUSER {
        "HTTP_USER_ERROR"@
    } else if code == STATUS_HTTPINCOMPLETE {
        "HTTP_INCOMPLETE_MESSAGE"@
    } else if code == STATUS_NONE {
        "NONE"@
    } else if code == STATUS_HTTPHEADTOOLARGE {
        "HTTP_HEAD_TOO_LARGE"@
    } else if code == STATUS_HTTPINVALIDSTATUS {
        "HTTP_INVALID_STATUS"@
    } else if code == STATUS_LIMITEXCEEDED {
        "LIMIT_EXCEEDED"@
    } else {
        "UNKNOWN"@
    }
}

/// An HTTP protocol version, as the host numbers them.
#[derive(Clone, Copy, Debug, PartialEq, Eq, Hash, Structural)]
pub enum HttpVersion {
    Http09,
    Http10,
    Http11,
    H2,
    H3,
}

impl HttpVersion {
    /// The number that the host uses for this version.
    pub open spec fn number(self) -> u32 {
        match self {
            HttpVersion::Http09 => 0,
            HttpVersion::Http10 => 1,
            HttpVersion::Http11 => 2,
            HttpVersion::H2 => 3,
            HttpVersion::H3 => 4,
        }
    }

    /// The version that the host numbers `x`, if there is one.
    pub open spec fn of_number(x: u32) -> Option<HttpVersion> {
        if x == 0 {
            Some(HttpVersion::Http09)
        } else if x == 1 {
            Some(HttpVersion::Http10)
        } else if x == 2 {
            Some(HttpVersion::Http11)
        } else if x == 3 {
            Some(HttpVersion::H2)
        } else if x == 4 {
            Some(HttpVersion::H3)
        } else {
            None
        }
    }

    pub fn as_u32(&self) -> (n: u32)
        ensures
            n == self.number(),
            HttpVersion::of_number(n) == Some(*self),
    {
        match self {
            HttpVersion::Http09 => 0,
            HttpVersion::Http10 => 1,
            HttpVersion::Http11 => 2,
            HttpVersion::H2 => 3,
            HttpVersion::H3 => 4,
        }
    }

    /// Reads a version from the host's number for it. An unknown number is
    /// answered with a message that quotes it.
    pub fn try_from(x: u32) -> (r: Result<HttpVersion, String>)
        ensures
            match r {
                Ok(v) => HttpVersion::of_number(x) == Some(v),
                Err(msg) => HttpVersion::of_number(x) is None && msg@ == unknown_value_message(
                    "unknown http version enum value: "@,
                    x,
                ),
            },
    {
        if x == 0 {
            Ok(HttpVersion::Http09)
        } else if x == 1 {
            Ok(HttpVersion::Http10)
        } else if x == 2 {
            Ok(HttpVersion::Http11)
        } else if x == 3 {
            Ok(HttpVersion::H2)
        } else if x == 4 {
            Ok(HttpVersion::H3)
        } else {
            Err(describe_unknown_value("unknown http version enum value: ", x))
        }
    }
}

/// The end of a body at which bytes are written.
#[derive(Clone, Copy, Debug, PartialEq, Eq, Hash, Structural)]
pub enum BodyWriteEnd {
    Back,
    Front,
}

/// Who decides the framing headers (`Content-Length`, `Transfer-Encoding`) of a message.
#[derive(Clone, Copy, Debug, PartialEq, Eq, Hash, Structural)]
pub enum FramingHeadersMode {
    /// The host derives them from the body.
    Automatic,
    /// They are taken from the message's headers as the guest set them.
    ManuallyFromHeaders,
}

impl Default for FramingHeadersMode {
    fn default() -> (r: Self)
        ensures
            r == FramingHeadersMode::Automatic,
    {
        FramingHeadersMode::Automatic
    }
}

/// Whether the connection may be kept for further messages.
#[derive(Clone, Copy, Debug, PartialEq, Eq, Hash, Structural)]
pub enum HttpKeepaliveMode {
    Automatic,
    NoKeepalive,
}

impl Default for HttpKeepaliveMode {
    fn default() -> (r: Self)
        ensures
            r == HttpKeepaliveMode::Automatic,
    {
        HttpKeepaliveMode::Automatic
    }
}

/// What the host found when it verified a client's certificate.
#[derive(Clone, Copy, Debug, PartialEq, Eq, Structural)]
pub enum ClientCertVerifyResult {
    /// The certificate was accepted.
    Accepted,
    BadCertificate,
    CertificateRevoked,
    CertificateExpired,
    UnknownCa,
    CertificateMissing,
    CertificateUnknown,
}

impl ClientCertVerifyResult {
    /// The result that the host numbers `value`; every number above five means "unknown".
    pub open spec fn of_number(value: u32) -> ClientCertVerifyResult {
        if value == 0 {
            ClientCertVerifyResult::Accepted
        } else if value == 1 {
            ClientCertVerifyResult::BadCertificate
        } else if value == 2 {
            ClientCertVerifyResult::CertificateRevoked
        } else if value == 3 {
            ClientCertVerifyResult::CertificateExpired
        } else if value == 4 {
            ClientCertVerifyResult::UnknownCa
        } else if value == 5 {
            ClientCertVerifyResult::CertificateMissing
        } else {
            ClientCertVerifyResult::CertificateUnknown
        }
    }

    pub fn from_u32(value: u32) -> (r: ClientCertVerifyResult)
        ensures
            r == ClientCertVerifyResult::of_number(value),
    {
        match value {
            0 => ClientCertVerifyResult::Accepted,
            1 => ClientCertVerifyResult::BadCertificate,
            2 => ClientCertVerifyResult::CertificateRevoked,
            3 => ClientCertVerifyResult::CertificateExpired,
            4 => ClientCertVerifyResult::UnknownCa,
            5 => ClientCertVerifyResult::CertificateMissing,
            _ => ClientCertVerifyResult::CertificateUnknown,
        }
    }
}

} // verus!
