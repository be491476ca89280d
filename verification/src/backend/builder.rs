//! Describing a backend that is registered while the program runs.

use crate::backend::{Backend, MAX_BACKEND_NAME_LEN};
use crate::shared::{FastlyStatus, SslVersion, STATUS_ERROR, STATUS_OK, STATUS_UNSUPPORTED};
use crate::text::byte_len;
use crate::time::Duration;
use vstd::prelude::*;
use vstd::string::StringSliceAdditionalSpecFns;
use vstd::utf8::encode_utf8;

verus! {

/// Option bit: reserved.
pub const OPTION_RESERVED: u32 = 1;

/// Option bit: the `Host` header is overridden.
pub const OPTION_HOST_OVERRIDE: u32 = 2;

/// Option bit: a connect timeout is given.
pub const OPTION_CONNECT_TIMEOUT: u32 = 4;

/// Option bit: a first-byte timeout is given.
pub const OPTION_FIRST_BYTE_TIMEOUT: u32 = 8;

/// Option bit: a between-bytes timeout is given.
pub const OPTION_BETWEEN_BYTES_TIMEOUT: u32 = 16;

/// Option bit: the connection uses TLS.
pub const OPTION_USE_SSL: u32 = 32;

/// Option bit: a minimum TLS version is given.
pub const OPTION_SSL_MIN_VERSION: u32 = 64;

/// Option bit: a maximum TLS version is given.
pub const OPTION_SSL_MAX_VERSION: u32 = 128;

/// Option bit: a hostname to check the certificate against is given.
pub const OPTION_CERT_HOSTNAME: u32 = 256;

/// Option bit: a CA certificate is given.
pub const OPTION_CA_CERT: u32 = 512;

/// Option bit: a list of ciphers is given.
pub const OPTION_CIPHERS: u32 = 1024;

/// Option bit: an SNI hostname is given.
pub const OPTION_SNI_HOSTNAME: u32 = 2048;

/// Option bit: connections are not pooled.
pub const OPTION_DONT_POOL: u32 = 4096;

/// `std::string::FromUtf8Error`, the error of reading bytes that are not UTF-8 as text.
#[verifier::external_type_specification]
#[verifier::external_body]
pub struct ExFromUtf8Error(std::string::FromUtf8Error);

/// Why a backend could not be registered.
#[derive(Debug)]
pub enum BackendCreationError {
    /// The connect timeout is 2^32 milliseconds or more.
    ConnectTimeoutTooLarge(Duration),
    /// The first-byte timeout is 2^32 milliseconds or more.
    FirstByteTimeoutTooLarge(Duration),
    /// The between-bytes timeout is 2^32 milliseconds or more.
    BetweenBytesTimeoutTooLarge(Duration),
    /// The service may not register backends.
    Disallowed,
    /// The host failed with this status.
    HostError(FastlyStatus),
    /// The host sent text that is not UTF-8.
    EncodingError(std::string::FromUtf8Error),
    /// The name is longer than 255 bytes.
    NameTooLong(String),
    /// There is a backend of this name already.
    NameInUse,
}

/// A [`BackendCreationError`] as plain values, but for the encoding error, of which
/// nothing is said.
pub enum CreationErrorView {
    ConnectTimeoutTooLarge(Duration),
    FirstByteTimeoutTooLarge(Duration),
    BetweenBytesTimeoutTooLarge(Duration),
    Disallowed,
    HostError(FastlyStatus),
    EncodingError,
    NameTooLong(Seq<char>),
    NameInUse,
}

impl View for BackendCreationError {
    type V = CreationErrorView;

    open spec fn view(&self) -> CreationErrorView {
        match *self {
            BackendCreationError::ConnectTimeoutTooLarge(d) => {
                CreationErrorView::ConnectTimeoutTooLarge(d)
            },
            BackendCreationError::FirstByteTimeoutTooLarge(d) => {
                CreationErrorView::FirstByteTimeoutTooLarge(d)
            },
            BackendCreationError::BetweenBytesTimeoutTooLarge(d) => {
                CreationErrorView::BetweenBytesTimeoutTooLarge(d)
            },
            BackendCreationError::Disallowed => CreationErrorView::Disallowed,
            BackendCreationError::HostError(s) => CreationErrorView::HostError(s),
            BackendCreationError::EncodingError(_) => CreationErrorView::EncodingError,
            BackendCreationError::NameTooLong(name) => CreationErrorView::NameTooLong(name@),
            BackendCreationError::NameInUse => CreationErrorView::NameInUse,
        }
    }
}

impl CreationErrorView {
    /// The error that a failure status of the host stands for.
    pub open spec fn of_status(status: FastlyStatus) -> Self {
        if status.code == STATUS_UNSUPPORTED {
            CreationErrorView::Disallowed
        } else if status.code == STATUS_ERROR {
            CreationErrorView::NameInUse
        } else {
            CreationErrorView::HostError(status)
        }
    }
}

impl BackendCreationError {
    /// The error that a failure status of the host stands for: "unsupported" means
    /// that the service may not register backends, "error" that the name is taken.
    pub fn from(x: FastlyStatus) -> (e: Self)
        ensures
            e@ == CreationErrorView::of_status(x),
    {
        if x.code == STATUS_UNSUPPORTED {
            BackendCreationError::Disallowed
        } else if x.code == STATUS_ERROR {
            BackendCreationError::NameInUse
        } else {
            BackendCreationError::HostError(x)
        }
    }
}

/// The values that describe a backend to the host, beside its name and target.
#[derive(Debug)]
pub struct DynamicBackendConfig {
    pub host_override: Option<String>,
    pub connect_timeout_ms: u32,
    pub first_byte_timeout_ms: u32,
    pub between_bytes_timeout_ms: u32,
    pub ssl_min_version: u32,
    pub ssl_max_version: u32,
    pub cert_hostname: Option<String>,
    pub ca_cert: Option<String>,
    pub ciphers: Option<String>,
    pub sni_hostname: Option<String>,
}

/// A [`DynamicBackendConfig`] as plain values.
pub struct DynamicBackendConfigView {
    pub host_override: Option<Seq<char>>,
    pub connect_timeout_ms: u32,
    pub first_byte_timeout_ms: u32,
    pub between_bytes_timeout_ms: u32,
    pub ssl_min_version: u32,
    pub ssl_max_version: u32,
    pub cert_hostname: Option<Seq<char>>,
    pub ca_cert: Option<Seq<char>>,
    pub ciphers: Option<Seq<char>>,
    pub sni_hostname: Option<Seq<char>>,
}

/// The characters of an optional string.
pub open spec fn text_of(s: Option<String>) -> Option<Seq<char>> {
    match s {
        Some(t) => Some(t@),
        None => None,
    }
}

impl View for DynamicBackendConfig {
    type V = DynamicBackendConfigView;

    open spec fn view(&self) -> DynamicBackendConfigView {
        DynamicBackendConfigView {
            host_override: text_of(self.host_override),
            connect_timeout_ms: self.connect_timeout_ms,
            first_byte_timeout_ms: self.first_byte_timeout_ms,
            between_bytes_timeout_ms: self.between_bytes_timeout_ms,
            ssl_min_version: self.ssl_min_version,
            ssl_max_version: self.ssl_max_version,
            cert_hostname: text_of(self.cert_hostname),
            ca_cert: text_of(self.ca_cert),
            ciphers: text_of(self.ciphers),
            sni_hostname: text_of(self.sni_hostname),
        }
    }
}

impl Default for DynamicBackendConfig {
    fn default() -> (r: Self)
        ensures
            r@ == (DynamicBackendConfigView {
                host_override: None,
                connect_timeout_ms: 0,
                first_byte_timeout_ms: 0,
                between_bytes_timeout_ms: 0,
                ssl_min_version: 0,
                ssl_max_version: 0,
                cert_hostname: None,
                ca_cert: None,
                ciphers: None,
                sni_hostname: None,
            }),
    {
        DynamicBackendConfig {
            host_override: None,
            connect_timeout_ms: 0,
            first_byte_timeout_ms: 0,
            between_bytes_timeout_ms: 0,
            ssl_min_version: 0,
            ssl_max_version: 0,
            cert_hostname: None,
            ca_cert: None,
            ciphers: None,
            sni_hostname: None,
        }
    }
}

/// What is handed to the host to register a backend.
#[derive(Debug)]
pub struct BackendRegistration {
    pub name: String,
    pub target: String,
    /// The option bits that say which values of `config` are meant.
    pub options: u32,
    pub config: DynamicBackendConfig,
}

/// A [`BackendRegistration`] as plain values.
pub struct BackendRegistrationView {
    pub name: Seq<char>,
    pub target: Seq<char>,
    pub options: u32,
    pub config: DynamicBackendConfigView,
}

impl View for BackendRegistration {
    type V = BackendRegistrationView;

    open spec fn view(&self) -> BackendRegistrationView {
        BackendRegistrationView {
            name: self.name@,
            target: self.target@,
            options: self.options,
            config: self.config@,
        }
    }
}

/// The description of a backend, built up step by step.
#[derive(Debug)]
pub struct BackendBuilder {
    name: String,
    target: String,
    host_override: Option<String>,
    connect_timeout: Option<Duration>,
    first_byte_timeout: Option<Duration>,
    between_bytes_timeout: Option<Duration>,
    use_ssl: bool,
    min_tls_version: Option<SslVersion>,
    max_tls_version: Option<SslVersion>,
    cert_hostname: Option<String>,
    ca_cert: Option<String>,
    ciphers: Option<String>,
    sni_hostname: Option<String>,
    pool_connections: bool,
}

/// A [`BackendBuilder`] as plain values.
pub struct BackendBuilderView {
    pub name: Seq<char>,
    pub target: Seq<char>,
    pub host_override: Option<Seq<char>>,
    pub connect_timeout: Option<Duration>,
    pub first_byte_timeout: Option<Duration>,
    pub between_bytes_timeout: Option<Duration>,
    pub use_ssl: bool,
    pub min_tls_version: Option<SslVersion>,
    pub max_tls_version: Option<SslVersion>,
    pub cert_hostname: Option<Seq<char>>,
    pub ca_cert: Option<Seq<char>>,
    pub ciphers: Option<Seq<char>>,
    pub sni_hostname: Option<Seq<char>>,
    pub pool_connections: bool,
}

impl View for BackendBuilder {
    type V = BackendBuilderView;

    closed spec fn view(&self) -> BackendBuilderView {
        BackendBuilderView {
            name: self.name@,
            target: self.target@,
            host_override: text_of(self.host_override),
            connect_timeout: self.connect_timeout,
            first_byte_timeout: self.first_byte_timeout,
            between_bytes_timeout: self.between_bytes_timeout,
            use_ssl: self.use_ssl,
            min_tls_version: self.min_tls_version,
            max_tls_version: self.max_tls_version,
            cert_hostname: text_of(self.cert_hostname),
            ca_cert: text_of(self.ca_cert),
            ciphers: text_of(self.ciphers),
            sni_hostname: text_of(self.sni_hostname),
            pool_connections: self.pool_connections,
        }
    }
}

/// `mask` with `bit` set where `on` holds.
pub open spec fn with_option(mask: u32, on: bool, bit: u32) -> u32 {
    if on {
        mask | bit
    } else {
        mask
    }
}

/// The milliseconds of an optional timeout, zero where none is given.
pub open spec fn timeout_ms(timeout: Option<Duration>) -> u32 {
    match timeout {
        Some(d) => d.milliseconds() as u32,
        None => 0,
    }
}

/// Whether a timeout is given that does not fit 32 bits of milliseconds.
pub open spec fn timeout_too_large(timeout: Option<Duration>) -> bool {
    timeout matches Some(d) && d.milliseconds() > u32::MAX
}

/// The number of a TLS version that may be absent, zero where it is.
pub open spec fn version_number(version: Option<SslVersion>) -> u32 {
    match version {
        Some(v) => v.number(),
        None => 0,
    }
}

impl BackendBuilderView {
    /// The description that a builder starts with: no TLS, pooled connections, and
    /// nothing else set.
    pub open spec fn initial(name: Seq<char>, target: Seq<char>) -> Self {
        BackendBuilderView {
            name,
            target,
            host_override: None,
            connect_timeout: None,
            first_byte_timeout: None,
            between_bytes_timeout: None,
            use_ssl: false,
            min_tls_version: None,
            max_tls_version: None,
            cert_hostname: None,
            ca_cert: None,
            ciphers: None,
            sni_hostname: None,
            pool_connections: true,
        }
    }

    /// The first thing that is wrong with the description, if anything: the name is
    /// tested first, then the timeouts in the order connect, first byte, between bytes.
    pub open spec fn defect(self) -> Option<CreationErrorView> {
        if encode_utf8(self.name).len() > MAX_BACKEND_NAME_LEN {
            Some(CreationErrorView::NameTooLong(self.name))
        } else if timeout_too_large(self.connect_timeout) {
            Some(CreationErrorView::ConnectTimeoutTooLarge(self.connect_timeout->0))
        } else if timeout_too_large(self.first_byte_timeout) {
            Some(CreationErrorView::FirstByteTimeoutTooLarge(self.first_byte_timeout->0))
        } else if timeout_too_large(self.between_bytes_timeout) {
            Some(CreationErrorView::BetweenBytesTimeoutTooLarge(self.between_bytes_timeout->0))
        } else {
            None
        }
    }

    /// The option bits of the description: one for each value that is given, one for
    /// TLS, and one where connections are not to be pooled.
    pub open spec fn options(self) -> u32 {
        let m0 = with_option(0, self.host_override is Some, OPTION_HOST_OVERRIDE);
        let m1 = with_option(m0, self.connect_timeout is Some, OPTION_CONNECT_TIMEOUT);
        let m2 = with_option(m1, self.first_byte_timeout is Some, OPTION_FIRST_BYTE_TIMEOUT);
        let m3 = with_option(m2, self.between_bytes_timeout is Some, OPTION_BETWEEN_BYTES_TIMEOUT);
        let m4 = with_option(m3, self.use_ssl, OPTION_USE_SSL);
        let m5 = with_option(m4, self.min_tls_version is Some, OPTION_SSL_MIN_VERSION);
        let m6 = with_option(m5, self.max_tls_version is Some, OPTION_SSL_MAX_VERSION);
        let m7 = with_option(m6, self.cert_hostname is Some, OPTION_CERT_HOSTNAME);
        let m8 = with_option(m7, self.ca_cert is Some, OPTION_CA_CERT);
        let m9 = with_option(m8, self.ciphers is Some, OPTION_CIPHERS);
        let m10 = with_option(m9, self.sni_hostname is Some, OPTION_SNI_HOSTNAME);
        with_option(m10, !self.pool_connections, OPTION_DONT_POOL)
    }

    /// The values of the description as the host takes them.
    pub open spec fn config(self) -> DynamicBackendConfigView {
        DynamicBackendConfigView {
            host_override: self.host_override,
            connect_timeout_ms: timeout_ms(self.connect_timeout),
            first_byte_timeout_ms: timeout_ms(self.first_byte_timeout),
            between_bytes_timeout_ms: timeout_ms(self.between_bytes_timeout),
            ssl_min_version: version_number(self.min_tls_version),
            ssl_max_version: version_number(self.max_tls_version),
            cert_hostname: self.cert_hostname,
            ca_cert: self.ca_cert,
            ciphers: self.ciphers,
            sni_hostname: self.sni_hostname,
        }
    }

    /// What is handed to the host for this description.
    pub open spec fn registration(self) -> BackendRegistrationView {
        BackendRegistrationView {
            name: self.name,
            target: self.target,
            options: self.options(),
            config: self.config(),
        }
    }
}

fn copy_text(s: &Option<String>) -> (r: Option<String>)
    ensures
        text_of(r) == text_of(*s),
{
    match s {
        Some(t) => Some(t.clone()),
        None => None,
    }
}

/// The milliseconds of a timeout where they fit 32 bits.
fn millis_u32(d: &Duration) -> (r: Option<u32>)
    ensures
        match r {
            Some(ms) => ms == d.milliseconds(),
            None => d.milliseconds() > u32::MAX,
        },
{
    let ms = d.as_millis();
    if ms > 0xffff_ffff {
        None
    } else {
        Some(ms as u32)
    }
}

impl BackendBuilder {
    /// Starts the description of a backend of the given name that serves from `target`.
    pub fn new(name: &str, target: &str) -> (b: Self)
        ensures
            b@ == BackendBuilderView::initial(name@, target@),
    {
        BackendBuilder {
            name: name.to_owned(),
            target: target.to_owned(),
            host_override: None,
            connect_timeout: None,
            first_byte_timeout: None,
            between_bytes_timeout: None,
            use_ssl: false,
            min_tls_version: None,
            max_tls_version: None,
            cert_hostname: None,
            ca_cert: None,
            ciphers: None,
            sni_hostname: None,
            pool_connections: true,
        }
    }

    /// Sets the `Host` header that requests to the backend carry.
    pub fn override_host(self, name: &str) -> (b: Self)
        ensures
            b@ == (BackendBuilderView { host_override: Some(name@), ..self@ }),
    {
        let mut b = self;
        b.host_override = Some(name.to_owned());
        b
    }

    /// Sets how long a connection may take to be made.
    pub fn connect_timeout(self, timeout: Duration) -> (b: Self)
        ensures
            b@ == (BackendBuilderView { connect_timeout: Some(timeout), ..self@ }),
    {
        let mut b = self;
        b.connect_timeout = Some(timeout);
        b
    }

    /// Sets how long the first byte of a response may take.
    pub fn first_byte_timeout(self, timeout: Duration) -> (b: Self)
        ensures
            b@ == (BackendBuilderView { first_byte_timeout: Some(timeout), ..self@ }),
    {
        let mut b = self;
        b.first_byte_timeout = Some(timeout);
        b
    }

    /// Sets how long the backend may pause between bytes.
    pub fn between_bytes_timeout(self, timeout: Duration) -> (b: Self)
        ensures
            b@ == (BackendBuilderView { between_bytes_timeout: Some(timeout), ..self@ }),
    {
        let mut b = self;
        b.between_bytes_timeout = Some(timeout);
        b
    }

    /// Turns TLS on.
    pub fn enable_ssl(self) -> (b: Self)
        ensures
            b@ == (BackendBuilderView { use_ssl: true, ..self@ }),
    {
        let mut b = self;
        b.use_ssl = true;
        b
    }

    /// Turns TLS off.
    pub fn disable_ssl(self) -> (b: Self)
        ensures
            b@ == (BackendBuilderView { use_ssl: false, ..self@ }),
    {
        let mut b = self;
        b.use_ssl = false;
        b
    }

    /// Sets the lowest TLS version to accept, and turns TLS on.
    pub fn set_min_tls_version(self, minimum: SslVersion) -> (b: Self)
        ensures
            b@ == (BackendBuilderView { use_ssl: true, min_tls_version: Some(minimum), ..self@ }),
    {
        let mut b = self;
        b.use_ssl = true;
        b.min_tls_version = Some(minimum);
        b
    }

    /// Sets the highest TLS version to accept, and turns TLS on.
    pub fn set_max_tls_version(self, maximum: SslVersion) -> (b: Self)
        ensures
            b@ == (BackendBuilderView { use_ssl: true, max_tls_version: Some(maximum), ..self@ }),
    {
        let mut b = self;
        b.use_ssl = true;
        b.max_tls_version = Some(maximum);
        b
    }

    /// Sets the hostname that the backend's certificate has to be for, and turns TLS on.
    pub fn check_certificate(self, hostname: &str) -> (b: Self)
        ensures
            b@ == (BackendBuilderView { use_ssl: true, cert_hostname: Some(hostname@), ..self@ }),
    {
        let mut b = self;
        b.use_ssl = true;
        b.cert_hostname = Some(hostname.to_owned());
        b
    }

    /// Sets the CA certificate to trust, and turns TLS on.
    pub fn ca_certificate(self, value: &str) -> (b: Self)
        ensures
            b@ == (BackendBuilderView { use_ssl: true, ca_cert: Some(value@), ..self@ }),
    {
        let mut b = self;
        b.use_ssl = true;
        b.ca_cert = Some(value.to_owned());
        b
    }

    /// Sets the ciphers to offer, and turns TLS on.
    pub fn tls_ciphers(self, value: &str) -> (b: Self)
        ensures
            b@ == (BackendBuilderView { use_ssl: true, ciphers: Some(value@), ..self@ }),
    {
        let mut b = self;
        b.use_ssl = true;
        b.ciphers = Some(value.to_owned());
        b
    }

    /// Sets the hostname to name in the TLS handshake, and turns TLS on.
    pub fn sni_hostname(self, value: &str) -> (b: Self)
        ensures
            b@ == (BackendBuilderView { use_ssl: true, sni_hostname: Some(value@), ..self@ }),
    {
        let mut b = self;
        b.use_ssl = true;
        b.sni_hostname = Some(value.to_owned());
        b
    }

    /// Says whether connections to the backend are kept for later requests.
    pub fn enable_pooling(self, value: bool) -> (b: Self)
        ensures
            b@ == (BackendBuilderView { pool_connections: value, ..self@ }),
    {
        let mut b = self;
        b.pool_connections = value;
        b
    }

    /// What is to be handed to the host to register the backend, or the first thing
    /// that is wrong with the description.
    pub fn registration(&self) -> (r: Result<BackendRegistration, BackendCreationError>)
        ensures
            match r {
                Ok(reg) => self@.defect() is None && reg@ == self@.registration(),
                Err(e) => self@.defect() == Some(e@),
            },
    {
        if byte_len(self.name.as_str()) > MAX_BACKEND_NAME_LEN {
            return Err(BackendCreationError::NameTooLong(self.name.clone()));
        }
        let mut options: u32 = 0;
        let mut config = DynamicBackendConfig::default();
        if self.host_override.is_some() {
            config.host_override = copy_text(&self.host_override);
            options = options | OPTION_HOST_OVERRIDE;
        }
        if let Some(timeout) = self.connect_timeout {
            match millis_u32(&timeout) {
                Some(ms) => {
                    config.connect_timeout_ms = ms;
                },
                None => {
                    return Err(BackendCreationError::ConnectTimeoutTooLarge(timeout));
                },
            }
            options = options | OPTION_CONNECT_TIMEOUT;
        }
        if let Some(timeout) = self.first_byte_timeout {
            match millis_u32(&timeout) {
                Some(ms) => {
                    config.first_byte_timeout_ms = ms;
                },
                None => {
                    return Err(BackendCreationError::FirstByteTimeoutTooLarge(timeout));
                },
            }
            options = options | OPTION_FIRST_BYTE_TIMEOUT;
        }
        if let Some(timeout) = self.between_bytes_timeout {
            match millis_u32(&timeout) {
                Some(ms) => {
                    config.between_bytes_timeout_ms = ms;
                },
                None => {
                    return Err(BackendCreationError::BetweenBytesTimeoutTooLarge(timeout));
                },
            }
            options = options | OPTION_BETWEEN_BYTES_TIMEOUT;
        }
        if self.use_ssl {
            options = options | OPTION_USE_SSL;
        }
        if let Some(version) = self.min_tls_version {
            config.ssl_min_version = version.as_u32();
            options = options | OPTION_SSL_MIN_VERSION;
        }
        if let Some(version) = self.max_tls_version {
            config.ssl_max_version = version.as_u32();
            options = options | OPTION_SSL_MAX_VERSION;
        }
        if self.cert_hostname.is_some() {
            config.cert_hostname = copy_text(&self.cert_hostname);
            options = options | OPTION_CERT_HOSTNAME;
        }
        if self.ca_cert.is_some() {
            config.ca_cert = copy_text(&self.ca_cert);
            options = options | OPTION_CA_CERT;
        }
        if self.ciphers.is_some() {
            config.ciphers = copy_text(&self.ciphers);
            options = options | OPTION_CIPHERS;
        }
        if self.sni_hostname.is_some() {
            config.sni_hostname = copy_text(&self.sni_hostname);
            options = options | OPTION_SNI_HOSTNAME;
        }
        if !self.pool_connections {
            options = options | OPTION_DONT_POOL;
        }
        Ok(
            BackendRegistration {
                name: self.name.clone(),
                target: self.target.clone(),
                options,
                config,
            },
        )
    }

    /// The result of registering: the backend where the host reported success, else
    /// the error that its status stands for.
    pub fn conclude(self, status: FastlyStatus) -> (r: Result<Backend, BackendCreationError>)
        ensures
            match r {
                Ok(backend) => status.code == STATUS_OK && backend@ == self@.name,
                Err(e) => status.code != STATUS_OK && e@ == CreationErrorView::of_status(status),
            },
    {
        if status.code == STATUS_OK {
            Ok(Backend::from_unchecked_name(self.name))
        } else {
            Err(BackendCreationError::from(status))
        }
    }

    /// Registers the backend: hands the description to `register`, which asks the
    /// host, and goes by the status that comes back. A description with a defect is
    /// not handed on.
    pub fn finish<F: FnOnce(BackendRegistration) -> FastlyStatus>(self, register: F) -> (r: Result<
        Backend,
        BackendCreationError,
    >)
        requires
            forall|reg: BackendRegistration| call_requires(register, (reg,)),
        ensures
            self@.defect() matches Some(e) ==> r matches Err(got) && got@ == e,
            self@.defect() is None ==> exists|reg: BackendRegistration, status: FastlyStatus|
                {
                    &&& reg@ == self@.registration()
                    &&& #[trigger] call_ensures(register, (reg,), status)
                    &&& match r {
                        Ok(backend) => status.code == STATUS_OK && backend@ == self@.name,
                        Err(e) => status.code != STATUS_OK && e@ == CreationErrorView::of_status(
                            status,
                        ),
                    }
                },
    {
        match self.registration() {
            Err(e) => Err(e),
            Ok(reg) => {
                let ghost handed = reg;
                let status = register(reg);
                assert(call_ensures(register, (handed,), status));
                self.conclude(status)
            },
        }
    }
}

} // verus!
