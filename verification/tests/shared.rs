use fastly::backend::builder::{
    BackendBuilder, BackendCreationError, OPTION_CA_CERT, OPTION_CONNECT_TIMEOUT, OPTION_DONT_POOL,
    OPTION_HOST_OVERRIDE, OPTION_SSL_MIN_VERSION, OPTION_USE_SSL,
};
use fastly::backend::Backend;
use fastly::cache_override::CacheOverride;
use fastly::error::{BufferKind, BufferSizeError, HandleError, HandleKind};
use fastly::http::header::HeaderValue;
use fastly::limits::{RequestLimits, ResponseLimits};
use fastly::shared::{
    ClientCertVerifyResult, FastlyStatus, FramingHeadersMode, HttpKeepaliveMode, HttpVersion,
    SslVersion, INVALID_BODY_HANDLE, STATUS_BUFLEN, STATUS_ERROR, STATUS_HTTPINVALID, STATUS_OK,
    STATUS_UNSUPPORTED,
};
use fastly::time::Duration;

#[test]
fn status_results() {
    let ok = FastlyStatus::from_code(STATUS_OK);
    let buflen = FastlyStatus::from_code(STATUS_BUFLEN);
    assert!(ok.is_ok());
    assert!(!ok.is_err());
    assert!(buflen.is_err());
    assert_eq!(ok.result(), Ok(()));
    assert_eq!(buflen.result(), Err(FastlyStatus { code: 4 }));
    assert_eq!(ok.name(), "OK");
    assert_eq!(buflen.name(), "BUFLEN");
    assert_eq!(FastlyStatus::from_code(STATUS_HTTPINVALID).name(), "HTTP_INVALID_ERROR");
    assert_eq!(FastlyStatus::from_code(13).name(), "LIMIT_EXCEEDED");
    assert_eq!(FastlyStatus::from_code(14).name(), "UNKNOWN");
    assert_eq!(FastlyStatus::from_code(-1).name(), "UNKNOWN");
    assert_eq!(INVALID_BODY_HANDLE, u32::MAX - 1);
}

#[test]
fn versions_by_number() {
    assert_eq!(SslVersion::TLS1_2.as_u32(), 2);
    assert_eq!(SslVersion::try_from(3), Ok(SslVersion::TLS1_3));
    assert_eq!(SslVersion::try_from(0), Ok(SslVersion::TLS1));
    assert_eq!(
        SslVersion::try_from(4),
        Err("unknown ssl version enum value: 4".to_string())
    );
    assert_eq!(HttpVersion::H3.as_u32(), 4);
    assert_eq!(HttpVersion::try_from(2), Ok(HttpVersion::Http11));
    assert_eq!(
        HttpVersion::try_from(4294967295),
        Err("unknown http version enum value: 4294967295".to_string())
    );
    assert_eq!(
        HttpVersion::try_from(120),
        Err("unknown http version enum value: 120".to_string())
    );
    assert_eq!(FramingHeadersMode::default(), FramingHeadersMode::Automatic);
    assert_eq!(HttpKeepaliveMode::default(), HttpKeepaliveMode::Automatic);
}

#[test]
fn client_cert_results() {
    assert_eq!(ClientCertVerifyResult::from_u32(0), ClientCertVerifyResult::Accepted);
    assert_eq!(ClientCertVerifyResult::from_u32(1), ClientCertVerifyResult::BadCertificate);
    assert_eq!(ClientCertVerifyResult::from_u32(4), ClientCertVerifyResult::UnknownCa);
    assert_eq!(ClientCertVerifyResult::from_u32(5), ClientCertVerifyResult::CertificateMissing);
    assert_eq!(ClientCertVerifyResult::from_u32(6), ClientCertVerifyResult::CertificateUnknown);
    assert_eq!(ClientCertVerifyResult::from_u32(99), ClientCertVerifyResult::CertificateUnknown);
}

#[test]
fn cache_override_setters() {
    let mut c = CacheOverride::default();
    assert!(!c.is_pass());
    assert_eq!(c.get_ttl(), None);
    c.set_ttl(60);
    assert_eq!(c.get_ttl(), Some(60));
    c.set_stale_while_revalidate(30);
    c.set_pci(true);
    assert_eq!(c.get_ttl(), Some(60));
    assert_eq!(c.get_stale_while_revalidate(), Some(30));
    assert_eq!(c.to_abi(), (2 | 4 | 8, 60, 30, None));
    c.set_pass(false);
    assert_eq!(c.get_ttl(), Some(60));
    c.set_pass(true);
    assert!(c.is_pass());
    assert_eq!(c.to_abi(), (1, 0, 0, None));
    c.set_pass(false);
    assert_eq!(c.to_abi(), (0, 0, 0, None));
    c.set_surrogate_key(HeaderValue::from_bytes(b"key one").unwrap());
    assert_eq!(c.get_surrogate_key().map(|k| k.as_bytes().to_vec()), Some(b"key one".to_vec()));
    assert_eq!(c.to_abi(), (0, 0, 0, Some(&b"key one"[..])));
    c.set_none();
    assert_eq!(c.get_surrogate_key(), None);
    assert_eq!(CacheOverride::pci(false).to_abi(), (0, 0, 0, None));
    assert_eq!(CacheOverride::stale_while_revalidate(7).to_abi(), (4, 0, 7, None));
    assert_eq!(CacheOverride::ttl(0).to_abi(), (2, 0, 0, None));
    assert!(CacheOverride::pass().is_pass());
    assert!(!CacheOverride::none().is_pass());
}

#[test]
fn cache_override_from_abi() {
    assert!(CacheOverride::from_abi(16, 0, 0, None).is_none());
    assert!(CacheOverride::from_abi(1 << 31, 0, 0, None).is_none());
    assert!(CacheOverride::from_abi(1, 5, 6, None).unwrap().is_pass());
    assert!(CacheOverride::from_abi(3, 5, 6, None).unwrap().is_pass());
    let none = CacheOverride::from_abi(0, 5, 6, None).unwrap();
    assert_eq!(none.to_abi(), (0, 0, 0, None));
    assert_eq!(none.get_ttl(), None);
    let c = CacheOverride::from_abi(2 | 8, 5, 6, None).unwrap();
    assert_eq!(c.get_ttl(), Some(5));
    assert_eq!(c.get_stale_while_revalidate(), None);
    assert_eq!(c.to_abi(), (10, 5, 0, None));
    let key = HeaderValue::from_bytes(b"k").unwrap();
    let c = CacheOverride::from_abi(0, 0, 0, Some(key)).unwrap();
    assert_eq!(c.to_abi(), (0, 0, 0, Some(&b"k"[..])));
    let c = CacheOverride::from_abi(4, 1, 2, None).unwrap();
    let abi = c.to_abi();
    let back = CacheOverride::from_abi(abi.0, abi.1, abi.2, None).unwrap();
    assert_eq!(back.to_abi(), (4, 0, 2, None));
    assert_eq!(c.clone().to_abi(), (4, 0, 2, None));
}

#[test]
fn error_messages() {
    let e = BufferSizeError::header_name(128, 300);
    assert_eq!(
        e,
        BufferSizeError { buf_size: 128, needed_buf_size: 300, buffer_kind: BufferKind::HeaderName }
    );
    assert_eq!(
        e.message(),
        "insufficient buffer size 128 for buffer 'header name'; value requires 300 bytes"
    );
    assert_eq!(
        BufferSizeError::url(0, 10).message(),
        "insufficient buffer size 0 for buffer 'URL'; value requires 10 bytes"
    );
    assert_eq!(BufferSizeError::geo(1, 2).buffer_kind, BufferKind::Geo);
    assert_eq!(BufferSizeError::header_value(1, 2).buffer_kind, BufferKind::HeaderValue);
    assert_eq!(BufferSizeError::http_method(1, 2).buffer_kind, BufferKind::HttpMethod);
    assert_eq!(BufferKind::HttpMethod.as_str(), "HTTP method");
    assert_eq!(BufferKind::Geo.as_str(), "Geo");
    assert_eq!(
        HandleError::ClosedHandle(HandleKind::Body).message(),
        "handle for body was already closed"
    );
    assert_eq!(
        HandleError::ClosedHandle(HandleKind::Request).message(),
        "handle for request was already closed"
    );
    assert_eq!(
        HandleError::InvalidHandle.message(),
        "handle did not exist or was the wrong type"
    );
    assert_eq!(HandleKind::Response.as_str(), "response");
}

#[test]
fn limits_are_plain_values() {
    let mut limits = RequestLimits::default();
    assert_eq!(limits.get_max_header_name_bytes(), Some(8192));
    assert_eq!(limits.get_max_header_value_bytes(), Some(8192));
    assert_eq!(limits.get_max_method_bytes(), Some(8192));
    assert_eq!(limits.get_max_url_bytes(), Some(8192));
    limits.set_max_url_bytes(Some(10));
    limits.set_max_method_bytes(None);
    limits.set_max_header_name_bytes(Some(1));
    limits.set_max_header_value_bytes(Some(2));
    assert_eq!(
        limits,
        RequestLimits {
            max_header_name_bytes: Some(1),
            max_header_value_bytes: Some(2),
            max_method_bytes: None,
            max_url_bytes: Some(10)
        }
    );
    limits.set_all_disabled();
    assert_eq!(limits.get_max_header_name_bytes(), None);
    assert_eq!(limits.get_max_url_bytes(), None);
    limits.set_all_default();
    assert_eq!(limits, RequestLimits::default());
    let mut limits = ResponseLimits::default();
    assert_eq!(limits.get_max_header_name_bytes(), None);
    limits.set_max_header_name_bytes(Some(5));
    limits.set_max_header_value_bytes(Some(6));
    assert_eq!(limits.get_max_header_name_bytes(), Some(5));
    assert_eq!(limits.get_max_header_value_bytes(), Some(6));
    limits.set_all_default();
    assert_eq!(limits, ResponseLimits::default());
    limits.set_max_header_value_bytes(Some(6));
    limits.set_all_disabled();
    assert_eq!(limits.get_max_header_value_bytes(), None);
}

#[test]
fn durations() {
    assert_eq!(Duration::from_millis(1500).as_millis(), 1500);
    assert_eq!(Duration::from_millis(1500).as_secs(), 1);
    assert_eq!(Duration::from_millis(1500).subsec_nanos(), 500000000);
    assert_eq!(Duration::from_secs(3).as_millis(), 3000);
    assert_eq!(Duration::new(1, 2_500_000_000).as_secs(), 3);
    assert_eq!(Duration::new(1, 2_500_000_000).subsec_nanos(), 500_000_000);
    assert_eq!(Duration::new(0, 999_999).as_millis(), 0);
    assert_eq!(Duration::from_secs(u64::MAX).as_millis(), (u64::MAX as u128) * 1000);
    assert!(Duration::from_secs(1).same(&Duration::from_millis(1000)));
    assert!(!Duration::from_secs(1).same(&Duration::from_millis(1001)));
}

#[test]
fn builder_registration() {
    let reg = BackendBuilder::new("b", "example.com:443").registration().unwrap();
    assert_eq!(reg.name, "b");
    assert_eq!(reg.target, "example.com:443");
    assert_eq!(reg.options, 0);
    assert_eq!(reg.config.host_override, None);
    let reg = Backend::builder("b", "example.com:443")
        .override_host("h.example.com")
        .connect_timeout(Duration::from_millis(2500))
        .set_min_tls_version(SslVersion::TLS1_2)
        .ca_certificate("CERT")
        .enable_pooling(false)
        .registration()
        .unwrap();
    assert_eq!(
        reg.options,
        OPTION_HOST_OVERRIDE
            | OPTION_CONNECT_TIMEOUT
            | OPTION_USE_SSL
            | OPTION_SSL_MIN_VERSION
            | OPTION_CA_CERT
            | OPTION_DONT_POOL
    );
    assert_eq!(reg.options, 2 + 4 + 32 + 64 + 512 + 4096);
    assert_eq!(reg.config.host_override, Some("h.example.com".to_string()));
    assert_eq!(reg.config.connect_timeout_ms, 2500);
    assert_eq!(reg.config.first_byte_timeout_ms, 0);
    assert_eq!(reg.config.ssl_min_version, 2);
    assert_eq!(reg.config.ssl_max_version, 0);
    assert_eq!(reg.config.ca_cert, Some("CERT".to_string()));
    let reg = BackendBuilder::new("b", "t")
        .enable_ssl()
        .disable_ssl()
        .first_byte_timeout(Duration::from_secs(1))
        .between_bytes_timeout(Duration::from_millis(4294967295))
        .set_max_tls_version(SslVersion::TLS1_3)
        .check_certificate("c")
        .tls_ciphers("x")
        .sni_hostname("s")
        .registration()
        .unwrap();
    assert_eq!(reg.options, 8 + 16 + 32 + 128 + 256 + 1024 + 2048);
    assert_eq!(reg.config.first_byte_timeout_ms, 1000);
    assert_eq!(reg.config.between_bytes_timeout_ms, 4294967295);
    assert_eq!(reg.config.ssl_max_version, 3);
    assert_eq!(reg.config.cert_hostname, Some("c".to_string()));
    assert_eq!(reg.config.ciphers, Some("x".to_string()));
    assert_eq!(reg.config.sni_hostname, Some("s".to_string()));
}

#[test]
fn builder_defects() {
    let long = "a".repeat(256);
    match BackendBuilder::new(&long, "t").connect_timeout(Duration::from_secs(u64::MAX)).registration()
    {
        Err(BackendCreationError::NameTooLong(name)) => assert_eq!(name, long),
        x => panic!("unexpected result: {:?}", x),
    }
    assert!(BackendBuilder::new(&"a".repeat(255), "t").registration().is_ok());
    let too_long = Duration::from_millis(4294967296);
    match BackendBuilder::new("b", "t")
        .first_byte_timeout(too_long)
        .connect_timeout(too_long)
        .registration()
    {
        Err(BackendCreationError::ConnectTimeoutTooLarge(d)) => assert_eq!(d, too_long),
        x => panic!("unexpected result: {:?}", x),
    }
    match BackendBuilder::new("b", "t")
        .first_byte_timeout(too_long)
        .between_bytes_timeout(too_long)
        .registration()
    {
        Err(BackendCreationError::FirstByteTimeoutTooLarge(d)) => assert_eq!(d, too_long),
        x => panic!("unexpected result: {:?}", x),
    }
    match BackendBuilder::new("b", "t").between_bytes_timeout(too_long).registration() {
        Err(BackendCreationError::BetweenBytesTimeoutTooLarge(d)) => assert_eq!(d, too_long),
        x => panic!("unexpected result: {:?}", x),
    }
}

#[test]
fn builder_finish() {
    let seen = std::cell::Cell::new(0u32);
    let backend = BackendBuilder::new("dyn", "origin:80")
        .enable_ssl()
        .finish(|reg| {
            seen.set(reg.options);
            FastlyStatus::from_code(STATUS_OK)
        })
        .unwrap();
    assert_eq!(backend.name(), "dyn");
    assert_eq!(seen.get(), 32);
    let called = std::cell::Cell::new(false);
    let r = BackendBuilder::new(&"n".repeat(300), "origin:80").finish(|_| {
        called.set(true);
        FastlyStatus::from_code(STATUS_OK)
    });
    assert!(matches!(r, Err(BackendCreationError::NameTooLong(_))));
    assert!(!called.get());
    let r = BackendBuilder::new("dyn", "o").finish(|_| FastlyStatus::from_code(STATUS_UNSUPPORTED));
    assert!(matches!(r, Err(BackendCreationError::Disallowed)));
    let r = BackendBuilder::new("dyn", "o").finish(|_| FastlyStatus::from_code(STATUS_ERROR));
    assert!(matches!(r, Err(BackendCreationError::NameInUse)));
    let r = BackendBuilder::new("dyn", "o").finish(|_| FastlyStatus::from_code(7));
    assert!(matches!(r, Err(BackendCreationError::HostError(FastlyStatus { code: 7 }))));
    assert!(matches!(
        BackendCreationError::from(FastlyStatus::from_code(STATUS_OK)),
        BackendCreationError::HostError(FastlyStatus { code: 0 })
    ));
}
