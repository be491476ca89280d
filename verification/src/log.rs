//! Endpoints that log lines are written to.

use crate::shared::{FastlyStatus, STATUS_INVAL, STATUS_LIMITEXCEEDED, STATUS_OK};
use vstd::prelude::*;
use vstd::string::StrSliceExecFns;

verus! {

/// Why an endpoint could not be had.
#[derive(Copy, Clone, Debug, PartialEq, Eq, Structural)]
pub enum LogError {
    /// There is no such endpoint, or the name is reserved.
    InvalidEndpoint,
    /// The name is empty or holds a newline or a colon.
    MalformedEndpointName,
    /// The name is too large.
    NameTooLarge,
}

/// A log endpoint.
#[derive(Clone, Debug, PartialEq, Eq, Hash)]
pub struct Endpoint {
    handle: u32,
    name: String,
}

/// Whether a text can be the name of an endpoint: not empty, without newline and colon.
pub open spec fn well_formed_name(name: Seq<char>) -> bool {
    &&& name.len() > 0
    &&& forall|i: int| 0 <= i < name.len() ==> #[trigger] name[i] != '\n' && name[i] != ':'
}

/// Tests the name of an endpoint: it must not be empty, nor hold a newline or a colon.
pub fn validate_endpoint_name(name: &str) -> (r: Result<(), LogError>)
    ensures
        r == if well_formed_name(name@) {
            Ok::<(), LogError>(())
        } else {
            Err::<(), LogError>(LogError::MalformedEndpointName)
        },
{
    let n = name.unicode_len();
    if n == 0 {
        return Err(LogError::MalformedEndpointName);
    }
    let mut i: usize = 0;
    while i < n
        invariant
            n == name@.len(),
            n > 0,
            0 <= i <= n,
            forall|j: int| 0 <= j < i ==> #[trigger] name@[j] != '\n' && name@[j] != ':',
        decreases n - i,
    {
        let c = name.get_char(i);
        if c == '\n' || c == ':' {
            return Err(LogError::MalformedEndpointName);
        }
        i = i + 1;
    }
    Ok(())
}

/// The error that a failure status of asking for an endpoint stands for, if it stands
/// for one.
pub open spec fn endpoint_error(code: i32) -> Option<LogError> {
    if code == STATUS_INVAL {
        Some(LogError::InvalidEndpoint)
    } else if code == STATUS_LIMITEXCEEDED {
        Some(LogError::NameTooLarge)
    } else {
        None
    }
}

impl Endpoint {
    /// The number of the handle.
    pub closed spec fn handle_number(&self) -> u32 {
        self.handle
    }

    /// The name, as a spec value.
    pub closed spec fn name_text(&self) -> Seq<char> {
        self.name@
    }

    /// The number of the handle.
    pub fn handle(&self) -> (r: u32)
        ensures
            r == self.handle_number(),
    {
        self.handle
    }

    /// The name of the endpoint.
    pub fn name(&self) -> (r: &str)
        ensures
            r@ == self.name_text(),
    {
        self.name.as_str()
    }

    /// The endpoint of the given name. `ask` asks the host for its handle; it is
    /// called for a well-formed name only, and has to succeed for this one.
    pub fn from_name<F: FnOnce() -> (FastlyStatus, u32)>(name: &str, ask: F) -> (r: Self)
        requires
            well_formed_name(name@),
            call_requires(ask, ()),
            forall|o: (FastlyStatus, u32)| call_ensures(ask, (), o) ==> o.0.code == STATUS_OK,
        ensures
            r.name_text() == name@,
            exists|o: (FastlyStatus, u32)| #[trigger]
                call_ensures(ask, (), o) && r.handle_number() == o.1,
    {
        match Self::try_from_name(name, ask) {
            Ok(endpoint) => endpoint,
            Err(_) => vstd::pervasive::unreached(),
        }
    }

    /// The endpoint of the given name, or why there is none. `ask` asks the host for
    /// the handle; it is called for a well-formed name only, and has to answer with a
    /// status that the host gives for this call.
    pub fn try_from_name<F: FnOnce() -> (FastlyStatus, u32)>(name: &str, ask: F) -> (r: Result<
        Self,
        LogError,
    >)
        requires
            call_requires(ask, ()),
            forall|o: (FastlyStatus, u32)|
                call_ensures(ask, (), o) ==> o.0.code == STATUS_OK || endpoint_error(o.0.code)
                    is Some,
        ensures
            !well_formed_name(name@) ==> r == Err::<Self, LogError>(
                LogError::MalformedEndpointName,
            ),
            well_formed_name(name@) ==> exists|o: (FastlyStatus, u32)| #[trigger]
                call_ensures(ask, (), o) && match r {
                    Ok(endpoint) => o.0.code == STATUS_OK && endpoint.handle_number() == o.1
                        && endpoint.name_text() == name@,
                    Err(e) => endpoint_error(o.0.code) == Some(e),
                },
    {
        match validate_endpoint_name(name) {
            Err(e) => {
                return Err(e);
            },
            Ok(_) => {},
        }
        let answer = ask();
        assert(call_ensures(ask, (), answer));
        let code = answer.0.code;
        if code == STATUS_OK {
            Ok(Endpoint { handle: answer.1, name: name.to_owned() })
        } else if code == STATUS_INVAL {
            Err(LogError::InvalidEndpoint)
        } else {
            Err(LogError::NameTooLarge)
        }
    }
}

} // verus!
