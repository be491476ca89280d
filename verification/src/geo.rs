//! What the host knows of the place and the connection of a client.

use crate::abi::single::{sized_exchange, ValueOutcome};
use crate::error::{BufferKind, BufferSizeError};
use crate::limits::INITIAL_GEO_BUF_SIZE;
use crate::shared::{STATUS_BUFLEN, STATUS_OK};
use crate::text::text_is;
use vstd::prelude::*;

verus! {

/// The speed of a connection.
#[derive(Clone, Debug, PartialEq, Eq)]
pub enum ConnSpeed {
    Broadband,
    Cable,
    Dialup,
    Mobile,
    Oc12,
    Oc3,
    Satellite,
    T1,
    T3,
    UltraBroadband,
    Wireless,
    Xdsl,
    /// A speed that this library has no name for.
    Other(String),
}

/// The kind of a connection.
#[derive(Clone, Debug, PartialEq, Eq)]
pub enum ConnType {
    Wired,
    Wifi,
    Mobile,
    Dialup,
    Satellite,
    Unknown,
    /// A kind that this library has no name for.
    Other(String),
}

/// A continent.
#[derive(Clone, Debug, PartialEq, Eq)]
pub enum Continent {
    Africa,
    Antarctica,
    Asia,
    Europe,
    NorthAmerica,
    Oceania,
    SouthAmerica,
    /// A continent that this library has no name for.
    Other(String),
}

impl Continent {
    /// The two-letter code of the continent, `??` for one without a name.
    pub open spec fn code(self) -> Seq<char> {
        match self {
            Continent::Africa => "AF"@,
            Continent::Antarctica => "AN"@,
            Continent::Asia => "AS"@,
            Continent::Europe => "EU"@,
            Continent::NorthAmerica => "NA"@,
            Continent::Oceania => "OC"@,
            Continent::SouthAmerica => "SA"@,
            Continent::Other(_) => "??"@,
        }
    }

    /// The two-letter code of the continent, `??` for one without a name.
    pub fn as_code(&self) -> (r: &'static str)
        ensures
            r@ == self.code(),
    {
        match self {
            Continent::Africa => "AF",
            Continent::Antarctica => "AN",
            Continent::Asia => "AS",
            Continent::Europe => "EU",
            Continent::NorthAmerica => "NA",
            Continent::Oceania => "OC",
            Continent::SouthAmerica => "SA",
            Continent::Other(_) => "??",
        }
    }
}

/// What kind of proxy a client is behind.
#[derive(Clone, Debug, PartialEq, Eq)]
pub enum ProxyDescription {
    Cloud,
    CloudSecurity,
    Dns,
    TorExit,
    TorRelay,
    Vpn,
    WebBrowser,
    Unknown,
    /// A description that this library has no name for.
    Other(String),
}

/// The type of proxy a client is behind.
#[derive(Clone, Debug, PartialEq, Eq)]
pub enum ProxyType {
    Anonymous,
    Aol,
    Blackberry,
    Corporate,
    Edu,
    Hosting,
    Public,
    Transparent,
    Unknown,
    /// A type that this library has no name for.
    Other(String),
}

/// The number that the host gives where it knows no offset from UTC.
pub const NO_UTC_OFFSET: i32 = 9999;

/// The hours and minutes of an offset from UTC that the host gives as one number, hours
/// times a hundred plus minutes; none for the number that stands for "unknown".
///
/// The number is read as the host's interface defines it: as an unsigned number of 16
/// bits, whose hundreds are the hours and whose rest the minutes, each as a signed
/// number of 8 bits.
pub open spec fn utc_offset_of(raw: i32) -> Option<(i8, i8)> {
    if raw == NO_UTC_OFFSET {
        None
    } else {
        Some((((raw as u16) / 100) as i8, ((raw as u16) % 100) as i8))
    }
}

/// The hours and minutes of an offset from UTC; see [`utc_offset_of`].
pub fn utc_offset_parts(raw: i32) -> (r: Option<(i8, i8)>)
    ensures
        r == utc_offset_of(raw),
{
    if raw == NO_UTC_OFFSET {
        None
    } else {
        let low: u16 = #[verifier::truncate]
        (raw as u16);
        let hours: i8 = #[verifier::truncate]
        ((low / 100) as i8);
        let minutes: i8 = #[verifier::truncate]
        ((low % 100) as i8);
        Some((hours, minutes))
    }
}

impl ConnSpeed {
    /// The speed that the host names `name`, if it is one that has a name of its
    /// own here.
    pub open spec fn named(name: Seq<char>) -> Option<ConnSpeed> {
        if name == "broadband"@ {
            Some(ConnSpeed::Broadband)
        } else if name == "cable"@ {
            Some(ConnSpeed::Cable)
        } else if name == "dialup"@ {
            Some(ConnSpeed::Dialup)
        } else if name == "mobile"@ {
            Some(ConnSpeed::Mobile)
        } else if name == "oc12"@ {
            Some(ConnSpeed::Oc12)
        } else if name == "oc3"@ {
            Some(ConnSpeed::Oc3)
        } else if name == "satellite"@ {
            Some(ConnSpeed::Satellite)
        } else if name == "t1"@ {
            Some(ConnSpeed::T1)
        } else if name == "t3"@ {
            Some(ConnSpeed::T3)
        } else if name == "ultrabb"@ {
            Some(ConnSpeed::UltraBroadband)
        } else if name == "wireless"@ {
            Some(ConnSpeed::Wireless)
        } else if name == "xdsl"@ {
            Some(ConnSpeed::Xdsl)
        } else {
            None
        }
    }

    /// The speed that the host names `name`; one without a name of its own here is
    /// kept under the host's name.
    pub fn from_name(name: &str) -> (r: ConnSpeed)
        ensures
            match ConnSpeed::named(name@) {
                Some(known) => r == known,
                None => r matches ConnSpeed::Other(kept) && kept@ == name@,
            },
    {
        if text_is(name, "broadband") {
            ConnSpeed::Broadband
        } else if text_is(name, "cable") {
            ConnSpeed::Cable
        } else if text_is(name, "dialup") {
            ConnSpeed::Dialup
        } else if text_is(name, "mobile") {
            ConnSpeed::Mobile
        } else if text_is(name, "oc12") {
            ConnSpeed::Oc12
        } else if text_is(name, "oc3") {
            ConnSpeed::Oc3
        } else if text_is(name, "satellite") {
            ConnSpeed::Satellite
        } else if text_is(name, "t1") {
            ConnSpeed::T1
        } else if text_is(name, "t3") {
            ConnSpeed::T3
        } else if text_is(name, "ultrabb") {
            ConnSpeed::UltraBroadband
        } else if text_is(name, "wireless") {
            ConnSpeed::Wireless
        } else if text_is(name, "xdsl") {
            ConnSpeed::Xdsl
        } else {
            ConnSpeed::Other(name.to_owned())
        }
    }
}

impl ConnType {
    /// The kind of connection that the host names `name`, if it is one that has a name of its
    /// own here.
    pub open spec fn named(name: Seq<char>) -> Option<ConnType> {
        if name == "wired"@ {
            Some(ConnType::Wired)
        } else if name == "wifi"@ {
            Some(ConnType::Wifi)
        } else if name == "mobile"@ {
            Some(ConnType::Mobile)
        } else if name == "dialup"@ {
            Some(ConnType::Dialup)
        } else if name == "satellite"@ {
            Some(ConnType::Satellite)
        } else if name == "?"@ {
            Some(ConnType::Unknown)
        } else {
            None
        }
    }

    /// The kind of connection that the host names `name`; one without a name of its own here is
    /// kept under the host's name.
    pub fn from_name(name: &str) -> (r: ConnType)
        ensures
            match ConnType::named(name@) {
                Some(known) => r == known,
                None => r matches ConnType::Other(kept) && kept@ == name@,
            },
    {
        if text_is(name, "wired") {
            ConnType::Wired
        } else if text_is(name, "wifi") {
            ConnType::Wifi
        } else if text_is(name, "mobile") {
            ConnType::Mobile
        } else if text_is(name, "dialup") {
            ConnType::Dialup
        } else if text_is(name, "satellite") {
            ConnType::Satellite
        } else if text_is(name, "?") {
            ConnType::Unknown
        } else {
            ConnType::Other(name.to_owned())
        }
    }
}

impl Continent {
    /// The continent that the host names `name`, if it is one that has a name of its
    /// own here.
    pub open spec fn named(name: Seq<char>) -> Option<Continent> {
        if name == "AF"@ {
            Some(Continent::Africa)
        } else if name == "AN"@ {
            Some(Continent::Antarctica)
        } else if name == "AS"@ {
            Some(Continent::Asia)
        } else if name == "EU"@ {
            Some(Continent::Europe)
        } else if name == "NA"@ {
            Some(Continent::NorthAmerica)
        } else if name == "OC"@ {
            Some(Continent::Oceania)
        } else if name == "SA"@ {
            Some(Continent::SouthAmerica)
        } else {
            None
        }
    }

    /// The continent that the host names `name`; one without a name of its own here is
    /// kept under the host's name.
    pub fn from_name(name: &str) -> (r: Continent)
        ensures
            match Continent::named(name@) {
                Some(known) => r == known,
                None => r matches Continent::Other(kept) && kept@ == name@,
            },
    {
        if text_is(name, "AF") {
            Continent::Africa
        } else if text_is(name, "AN") {
            Continent::Antarctica
        } else if text_is(name, "AS") {
            Continent::Asia
        } else if text_is(name, "EU") {
            Continent::Europe
        } else if text_is(name, "NA") {
            Continent::NorthAmerica
        } else if text_is(name, "OC") {
            Continent::Oceania
        } else if text_is(name, "SA") {
            Continent::SouthAmerica
        } else {
            Continent::Other(name.to_owned())
        }
    }
}

impl ProxyDescription {
    /// The description of a proxy that the host names `name`, if it is one that has a name of its
    /// own here.
    pub open spec fn named(name: Seq<char>) -> Option<ProxyDescription> {
        if name == "cloud"@ {
            Some(ProxyDescription::Cloud)
        } else if name == "cloud-security"@ {
            Some(ProxyDescription::CloudSecurity)
        } else if name == "dns"@ {
            Some(ProxyDescription::Dns)
        } else if name == "tor-exit"@ {
            Some(ProxyDescription::TorExit)
        } else if name == "tor-relay"@ {
            Some(ProxyDescription::TorRelay)
        } else if name == "vpn"@ {
            Some(ProxyDescription::Vpn)
        } else if name == "web-browser"@ {
            Some(ProxyDescription::WebBrowser)
        } else if name == "?"@ {
            Some(ProxyDescription::Unknown)
        } else {
            None
        }
    }

    /// The description of a proxy that the host names `name`; one without a name of its own here is
    /// kept under the host's name.
    pub fn from_name(name: &str) -> (r: ProxyDescription)
        ensures
            match ProxyDescription::named(name@) {
                Some(known) => r == known,
                None => r matches ProxyDescription::Other(kept) && kept@ == name@,
            },
    {
        if text_is(name, "cloud") {
            ProxyDescription::Cloud
        } else if text_is(name, "cloud-security") {
            ProxyDescription::CloudSecurity
        } else if text_is(name, "dns") {
            ProxyDescription::Dns
        } else if text_is(name, "tor-exit") {
            ProxyDescription::TorExit
        } else if text_is(name, "tor-relay") {
            ProxyDescription::TorRelay
        } else if text_is(name, "vpn") {
            ProxyDescription::Vpn
        } else if text_is(name, "web-browser") {
            ProxyDescription::WebBrowser
        } else if text_is(name, "?") {
            ProxyDescription::Unknown
        } else {
            ProxyDescription::Other(name.to_owned())
        }
    }
}

impl ProxyType {
    /// The type of proxy that the host names `name`, if it is one that has a name of its
    /// own here.
    pub open spec fn named(name: Seq<char>) -> Option<ProxyType> {
        if name == "anonymous"@ {
            Some(ProxyType::Anonymous)
        } else if name == "aol"@ {
            Some(ProxyType::Aol)
        } else if name == "blackberry"@ {
            Some(ProxyType::Blackberry)
        } else if name == "corporate"@ {
            Some(ProxyType::Corporate)
        } else if name == "edu"@ {
            Some(ProxyType::Edu)
        } else if name == "hosting"@ {
            Some(ProxyType::Hosting)
        } else if name == "public"@ {
            Some(ProxyType::Public)
        } else if name == "transparent"@ {
            Some(ProxyType::Transparent)
        } else if name == "?"@ {
            Some(ProxyType::Unknown)
        } else {
            None
        }
    }

    /// The type of proxy that the host names `name`; one without a name of its own here is
    /// kept under the host's name.
    pub fn from_name(name: &str) -> (r: ProxyType)
        ensures
            match ProxyType::named(name@) {
                Some(known) => r == known,
                None => r matches ProxyType::Other(kept) && kept@ == name@,
            },
    {
        if text_is(name, "anonymous") {
            ProxyType::Anonymous
        } else if text_is(name, "aol") {
            ProxyType::Aol
        } else if text_is(name, "blackberry") {
            ProxyType::Blackberry
        } else if text_is(name, "corporate") {
            ProxyType::Corporate
        } else if text_is(name, "edu") {
            ProxyType::Edu
        } else if text_is(name, "hosting") {
            ProxyType::Hosting
        } else if text_is(name, "public") {
            ProxyType::Public
        } else if text_is(name, "transparent") {
            ProxyType::Transparent
        } else if text_is(name, "?") {
            ProxyType::Unknown
        } else {
            ProxyType::Other(name.to_owned())
        }
    }
}

/// The code of a continent that has a name of its own is read back as that continent.
pub proof fn lemma_continent_code(c: Continent)
    requires
        !(c is Other),
    ensures
        Continent::named(c.code()) == Some(c),
{
    reveal_strlit("AF");
    reveal_strlit("AN");
    reveal_strlit("AS");
    reveal_strlit("EU");
    reveal_strlit("NA");
    reveal_strlit("OC");
    reveal_strlit("SA");
    assert("AF"@[1] == 'F' && "AN"@[1] == 'N' && "AS"@[1] == 'S');
    assert("EU"@[0] == 'E' && "NA"@[0] == 'N' && "OC"@[0] == 'O' && "SA"@[0] == 'S');
    assert("AF"@[0] == 'A' && "AN"@[0] == 'A' && "AS"@[0] == 'A');
}

/// Whether `r` is what the host's answer to a lookup with a buffer of `max_length`
/// bytes means: the bytes that it wrote on success, a size error where the buffer was
/// too small, and no answer for every other status.
pub open spec fn geo_answer_of(
    r: Result<Option<Vec<u8>>, BufferSizeError>,
    o: ValueOutcome,
    max_length: usize,
) -> bool {
    match r {
        Ok(Some(bytes)) => o.status.code == STATUS_OK && bytes@ == o.data@,
        Ok(None) => o.status.code != STATUS_OK && o.status.code != STATUS_BUFLEN,
        Err(e) => o.status.code == STATUS_BUFLEN && e == (BufferSizeError {
            buf_size: max_length,
            needed_buf_size: o.nwritten,
            buffer_kind: BufferKind::Geo,
        }),
    }
}

/// What the host's answer to a lookup with a buffer of `max_length` bytes means; see
/// [`geo_answer_of`]. What the host wrote on success has to fit the buffer.
pub fn geo_answer(o: ValueOutcome, max_length: usize) -> (r: Result<
    Option<Vec<u8>>,
    BufferSizeError,
>)
    requires
        o.status.code == STATUS_OK ==> o.nwritten <= max_length && o.data@.len() == o.nwritten,
    ensures
        geo_answer_of(r, o, max_length),
{
    if o.status.code == STATUS_OK {
        Ok(Some(o.data))
    } else if o.status.code == STATUS_BUFLEN {
        Err(BufferSizeError::geo(max_length, o.nwritten))
    } else {
        Ok(None)
    }
}

/// Whether every successful outcome of `fill` fits the buffer that was offered.
pub open spec fn geo_served<F: Fn(usize) -> ValueOutcome>(fill: F) -> bool {
    &&& forall|capacity: usize| call_requires(fill, (capacity,))
    &&& forall|capacity: usize, o: ValueOutcome| #[trigger]
        call_ensures(fill, (capacity,), o) && o.status.code == STATUS_OK ==> o.nwritten
            <= capacity && o.data@.len() == o.nwritten
}

/// Whether `r` is what a lookup makes of the outcome `last` of its last call: the
/// bytes that the host wrote on success, and no answer for every other status.
pub open spec fn geo_bytes_of(r: Option<Vec<u8>>, last: ValueOutcome) -> bool {
    match r {
        Some(bytes) => last.status.code == STATUS_OK && bytes@ == last.data@,
        None => last.status.code != STATUS_OK,
    }
}

/// What the host knows of an address, as the bytes of its answer. `fill` asks the host
/// with a buffer of the given size: first one of 1024 bytes and, where that is too
/// small, once more one of the size that the host asked for. Every failure but "too
/// small" at the first call means that the host has no answer.
pub fn geo_lookup_raw<F: Fn(usize) -> ValueOutcome>(fill: F) -> (r: Option<Vec<u8>>)
    requires
        geo_served(fill),
    ensures
        exists|first: ValueOutcome, second: ValueOutcome|
            {
                &&& #[trigger] sized_exchange(fill, INITIAL_GEO_BUF_SIZE, first, second)
                &&& geo_bytes_of(r, second)
            },
{
    let first = fill(INITIAL_GEO_BUF_SIZE);
    let ghost first_seen = first;
    match geo_answer(first, INITIAL_GEO_BUF_SIZE) {
        Ok(answer) => {
            assert(sized_exchange(fill, INITIAL_GEO_BUF_SIZE, first_seen, first_seen));
            answer
        },
        Err(e) => {
            let second = fill(e.needed_buf_size);
            let ghost second_seen = second;
            let r = match geo_answer(second, e.needed_buf_size) {
                Ok(answer) => answer,
                Err(_) => None,
            };
            assert(sized_exchange(fill, INITIAL_GEO_BUF_SIZE, first_seen, second_seen));
            r
        },
    }
}

} // verus!
