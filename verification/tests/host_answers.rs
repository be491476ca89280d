use fastly::abi::single::{read_value, read_value_adaptive, settle_value, ValueOutcome};
use fastly::backend::Backend;
use fastly::cache::direct;
use fastly::abi::single::read_sized;
use fastly::cache::direct::handle::{CacheHandle, GetBodyOptions, LookupOptions, WriteOptions};
use fastly::http::header::HeaderValue;
use fastly::http::version::Version;
use fastly::shared::SslVersion;
use fastly::time::Duration;
use fastly::cache::simple::{surrogate_key_for_cache_key, CacheError, PurgeOptions, PurgeScope};
use fastly::config_store::handle::{ConfigStoreHandle, LookupError, OpenError};
use fastly::config_store::ConfigStore;
use fastly::dictionary::handle::DictionaryHandle;
use fastly::dictionary::Dictionary;
use fastly::digest::{hex_upper_bytes, hex_upper_string};
use fastly::geo::{
    geo_answer, geo_lookup_raw, utc_offset_parts, ConnSpeed, ConnType, ProxyDescription, ProxyType,
};
use fastly::text::{parse_usize, text_is};
use sha2::{Digest, Sha256};
use fastly::error::{BufferKind, BufferSizeError, HandleError};
use fastly::experimental::{
    uap_parse, BackendExt, RequestCacheKey, RequestHandleCacheKey, RequestHandleUpgradeWebsocket,
    RequestUpgradeWebsocket,
};
use fastly::geo::Continent;
use fastly::http::body::handle::BodyHandle;
use fastly::http::body::streaming::handle::StreamingBodyHandle;
use fastly::http::body::streaming::StreamingBody;
use fastly::http::body::Body;
use fastly::http::method::Method;
use fastly::http::purge::{purge_surrogate_key, soft_purge_surrogate_key};
use fastly::http::request::handle::RequestHandle;
use fastly::http::request::pending::handle::{
    handle_list, select_handles, PendingRequestHandle, PollHandleResult,
};
use fastly::http::request::pending::{select, PendingRequest, PollResult, Polled};
use fastly::http::request::{Request, SendError, SendErrorCause};
use fastly::http::response::handle::ResponseHandle;
use fastly::http::response::{FastlyResponseMetadata, Response};
use fastly::http::url::Url;
use fastly::kv_store::handle::{KVStoreError, StoreHandle};
use fastly::kv_store::KVStore;
use fastly::log::{validate_endpoint_name, Endpoint, LogError};
use fastly::models::{DictionaryInfoResponse, DirectorBackend, Domain, Service};
use fastly::secret_store::handle as secret;
use fastly::secret_store::SecretStore;
use fastly::shared::{FastlyStatus, INVALID_BODY_HANDLE, INVALID_KV_STORE_HANDLE};
use fastly::sys::{BackendHealth, CacheGetBodyOptions};
use std::cell::RefCell;

fn st(code: i32) -> FastlyStatus {
    FastlyStatus::from_code(code)
}

fn value_source(value: &[u8]) -> impl Fn(usize) -> ValueOutcome + '_ {
    move |capacity: usize| {
        if value.len() <= capacity {
            ValueOutcome { status: st(0), data: value.to_vec(), nwritten: value.len() }
        } else {
            ValueOutcome { status: st(4), data: Vec::new(), nwritten: value.len() }
        }
    }
}

#[test]
fn single_values() {
    let r: Result<Method, BufferSizeError> = read_value(8, BufferKind::HttpMethod, value_source(b"GET"));
    assert_eq!(r, Ok(Method::GET));
    let r: Result<Method, BufferSizeError> = read_value(2, BufferKind::HttpMethod, value_source(b"GET"));
    assert_eq!(
        r,
        Err(BufferSizeError { buf_size: 2, needed_buf_size: 3, buffer_kind: BufferKind::HttpMethod })
    );
    let offered = RefCell::new(Vec::new());
    let long = b"A-LONG-METHOD";
    let handle = RequestHandle::from_u32(1);
    let r = handle.get_method_impl(8, Some(64), |capacity: usize| {
        offered.borrow_mut().push(capacity);
        value_source(long)(capacity)
    });
    assert_eq!(r.unwrap().as_str(), "A-LONG-METHOD");
    assert_eq!(*offered.borrow(), vec![8usize, 13]);
    let r = handle.get_method_impl(8, Some(12), value_source(long));
    assert_eq!(
        r,
        Err(BufferSizeError { buf_size: 12, needed_buf_size: 13, buffer_kind: BufferKind::HttpMethod })
    );
    assert_eq!(handle.get_method_impl(8, Some(13), value_source(long)).unwrap().as_str(), "A-LONG-METHOD");
    assert_eq!(handle.get_method_impl(100, Some(13), value_source(long)).unwrap().as_str(), "A-LONG-METHOD");
    assert_eq!(handle.get_method_impl(1, None, value_source(long)).unwrap().as_str(), "A-LONG-METHOD");
    assert_eq!(handle.get_method(3, value_source(b"PUT")), Ok(Method::PUT));
    let url = handle.get_url(64, value_source(b"http://Example.com/a")).unwrap();
    assert_eq!(url.as_str(), "http://example.com/a");
    let r = handle.get_url_impl(4, Some(10), value_source(b"http://example.com/a"));
    assert_eq!(
        r,
        Err(BufferSizeError { buf_size: 10, needed_buf_size: 20, buffer_kind: BufferKind::Url })
    );
    assert_eq!(
        handle.get_url_impl(4, None, value_source(b"http://example.com/a")),
        Ok(Url::parse("http://example.com/a").unwrap())
    );
    // a host that asks for more a second time
    let r: Result<String, BufferSizeError> = read_value_adaptive(4, None, BufferKind::Geo, |capacity: usize| {
        ValueOutcome { status: st(4), data: Vec::new(), nwritten: capacity + 1 }
    });
    assert_eq!(
        r,
        Err(BufferSizeError { buf_size: 5, needed_buf_size: 6, buffer_kind: BufferKind::Geo })
    );
    let r: Result<String, BufferSizeError> = settle_value(
        ValueOutcome { status: st(0), data: "h\u{e9}".as_bytes().to_vec(), nwritten: 3 },
        8,
        BufferKind::Geo,
    );
    assert_eq!(r, Ok("h\u{e9}".to_string()));
}

#[test]
fn config_stores() {
    assert_eq!(ConfigStoreHandle::open(st(0), 5).map(|h| h.as_u32()), Ok(5));
    assert_eq!(ConfigStoreHandle::open(st(10), 5), Err(OpenError::NameEmpty));
    assert_eq!(ConfigStoreHandle::open(st(5), 5), Err(OpenError::NameTooLong));
    assert_eq!(ConfigStoreHandle::open(st(2), 5), Err(OpenError::NameInvalid));
    assert_eq!(ConfigStoreHandle::open(st(3), 5), Err(OpenError::ConfigStoreDoesNotExist));
    let h = ConfigStoreHandle::from_u32(5);
    assert!(h.is_valid());
    assert!(ConfigStoreHandle::invalid().is_invalid());
    assert_eq!(h.get(st(0), b"value"), Ok(Some("value".to_string())));
    assert_eq!(h.get(st(10), b""), Ok(None));
    assert_eq!(h.get(st(1), b""), Err(LookupError::Other));
    assert_eq!(h.get(st(3), b""), Err(LookupError::ConfigStoreInvalid));
    assert_eq!(h.get(st(2), b""), Err(LookupError::KeyInvalid));
    assert_eq!(h.get(st(5), b""), Err(LookupError::KeyTooLong));
    assert_eq!(h.get(st(4), b""), Err(LookupError::ValueTooLong));
    assert_eq!(h.get(st(13), b""), Err(LookupError::TooManyLookups));
    assert_eq!(h.contains(Ok(Some("v".to_string()))), Ok(true));
    assert_eq!(h.contains(Err(LookupError::ValueTooLong)), Ok(true));
    assert_eq!(h.contains(Ok(None)), Ok(false));
    assert_eq!(h.contains(Err(LookupError::KeyInvalid)), Err(LookupError::KeyInvalid));
    let store = ConfigStore::open(ConfigStoreHandle::open(st(0), 9));
    assert_eq!(store.as_handle().as_u32(), 9);
    assert!(ConfigStore::try_open(Err(OpenError::NameEmpty)).is_err());
    assert_eq!(store.get(Ok(Some("v".to_string()))), Some("v".to_string()));
    assert_eq!(store.try_get(Err(LookupError::Other)), Err(LookupError::Other));
    assert!(store.contains(Err(LookupError::ValueTooLong)));
    assert!(!store.contains(Ok(None)));
    let d = Dictionary::open(DictionaryHandle::open(st(0), 4));
    assert_eq!(d.as_handle().as_u32(), 4);
    assert!(d.contains(Ok(Some(String::new()))));
    assert_eq!(
        DictionaryHandle::open(st(3), 0),
        Err(fastly::dictionary::handle::OpenError::DictionaryDoesNotExist)
    );
}

#[test]
fn kv_stores() {
    assert_eq!(StoreHandle::open("s", st(0), 3).map(|h| h.map(|h| h.as_u32())), Ok(Some(3)));
    assert_eq!(StoreHandle::open("s", st(0), INVALID_KV_STORE_HANDLE), Ok(None));
    assert_eq!(StoreHandle::open("s", st(2), 3), Err(KVStoreError::KVStoreNotFound("s".to_string())));
    assert_eq!(StoreHandle::open("s", st(3), 3), Err(KVStoreError::Unexpected(st(3))));
    let mut h = StoreHandle::from_u32(3);
    assert_eq!(h.lookup(st(0), 8), Ok(Some(BodyHandle::from_u32(8))));
    assert_eq!(h.lookup(st(0), INVALID_BODY_HANDLE), Ok(None));
    assert_eq!(h.lookup(st(3), 8), Err(KVStoreError::InvalidKVStoreHandle));
    assert_eq!(h.lookup(st(2), 8), Err(KVStoreError::InvalidKey));
    assert_eq!(h.lookup(st(1), 8), Err(KVStoreError::Unexpected(st(1))));
    assert_eq!(h.insert(st(0)), Ok(()));
    assert_eq!(h.insert(st(2)), Err(KVStoreError::InvalidKey));
    assert_eq!(h.insert(st(3)), Err(KVStoreError::InvalidKVStoreHandle));
    assert_eq!(KVStoreError::from(st(9)), KVStoreError::Unexpected(st(9)));
    let store = KVStore::open(Ok(Some(h))).unwrap().unwrap();
    assert_eq!(store.as_handle().as_u32(), 3);
    assert_eq!(KVStore::open(Ok(None)), Ok(None));
    assert_eq!(store.lookup_bytes(Ok(Some(Body::from("ab")))), Ok(Some(b"ab".to_vec())));
    assert_eq!(store.lookup_str(Ok(Some(Body::from("ab")))), Ok(Some("ab".to_string())));
    assert_eq!(store.lookup_str(Ok(None)), Ok(None));
    assert_eq!(store.lookup_bytes(Err(KVStoreError::InvalidKey)), Err(KVStoreError::InvalidKey));
}

#[test]
fn secret_stores() {
    assert_eq!(secret::SecretStoreHandle::open("s", st(0), 2).map(|h| h.as_u32()), Ok(2));
    assert_eq!(
        secret::SecretStoreHandle::open("s", st(10), 2),
        Err(secret::OpenError::SecretStoreDoesNotExist("s".to_string()))
    );
    assert_eq!(
        secret::SecretStoreHandle::open("s", st(2), 2),
        Err(secret::OpenError::InvalidSecretStoreName("s".to_string()))
    );
    assert_eq!(
        secret::SecretStoreHandle::open("s", st(1), 2),
        Err(secret::OpenError::Unexpected(st(1)))
    );
    let h = secret::SecretStoreHandle::open("s", st(0), 2).unwrap();
    assert_eq!(h.get("k", st(0), 6), Ok(Some(secret::SecretHandle::from_u32(6))));
    assert_eq!(h.get("k", st(10), 6), Ok(None));
    assert_eq!(h.get("k", st(3), 6), Err(secret::LookupError::InvalidSecretStoreHandle));
    assert_eq!(h.get("k", st(2), 6), Err(secret::LookupError::InvalidSecretName("k".to_string())));
    assert_eq!(h.get("k", st(1), 6), Err(secret::LookupError::Unexpected(st(1))));
    assert_eq!(h.contains(Ok(None)), Ok(false));
    assert_eq!(h.contains(Ok(Some(secret::SecretHandle::from_u32(1)))), Ok(true));
    let store = SecretStore::open(Ok(h)).unwrap();
    assert_eq!(store.as_handle().as_u32(), 2);
    assert_eq!(
        store.contains(Err(secret::LookupError::InvalidSecretHandle)),
        Err(secret::LookupError::InvalidSecretHandle)
    );
    assert!(secret::SecretHandle::invalid().is_invalid());
    let s = secret::SecretHandle::from_u32(6);
    assert!(!s.is_invalid());
    let long = vec![7u8; 3000];
    let offered = RefCell::new(Vec::new());
    let r = s.plaintext(|capacity: usize| {
        offered.borrow_mut().push(capacity);
        value_source(&long)(capacity)
    });
    assert_eq!(r, Ok(long.clone()));
    assert_eq!(*offered.borrow(), vec![1024usize, 3000]);
    assert_eq!(s.plaintext(value_source(b"short")), Ok(b"short".to_vec()));
    let r = s.plaintext(|_: usize| ValueOutcome { status: st(3), data: Vec::new(), nwritten: 0 });
    assert_eq!(r, Err(secret::LookupError::InvalidSecretHandle));
    let r = s.plaintext(|_: usize| ValueOutcome { status: st(4), data: Vec::new(), nwritten: 0 });
    assert_eq!(r, Err(secret::LookupError::Unexpected(st(4))));
    assert_eq!(secret::SecretHandle::new(&vec![0u8; 65537], || (st(0), 1)), Err(st(2)));
    assert_eq!(
        secret::SecretHandle::new(&vec![0u8; 65536], || (st(0), 1)).map(|h| h.as_u32()),
        Ok(1)
    );
    assert_eq!(secret::SecretHandle::new(b"x", || (st(1), 1)), Err(st(1)));
}

#[test]
fn log_endpoints() {
    assert_eq!(validate_endpoint_name("my_endpoint"), Ok(()));
    assert_eq!(validate_endpoint_name(""), Err(LogError::MalformedEndpointName));
    assert_eq!(validate_endpoint_name("a\nb"), Err(LogError::MalformedEndpointName));
    assert_eq!(validate_endpoint_name("a:b"), Err(LogError::MalformedEndpointName));
    assert_eq!(validate_endpoint_name("\u{e9}"), Ok(()));
    let e = Endpoint::from_name("e", || (st(0), 4));
    assert_eq!(e.name(), "e");
    assert_eq!(e.handle(), 4);
    let asked = std::cell::Cell::new(false);
    let r = Endpoint::try_from_name("a:b", || {
        asked.set(true);
        (st(0), 4)
    });
    assert_eq!(r, Err(LogError::MalformedEndpointName));
    assert!(!asked.get());
    assert_eq!(Endpoint::try_from_name("e", || (st(2), 0)), Err(LogError::InvalidEndpoint));
    assert_eq!(Endpoint::try_from_name("e", || (st(13), 0)), Err(LogError::NameTooLarge));
}

#[test]
fn utc_offsets() {
    assert_eq!(utc_offset_parts(9999), None);
    assert_eq!(utc_offset_parts(0), Some((0, 0)));
    assert_eq!(utc_offset_parts(200), Some((2, 0)));
    assert_eq!(utc_offset_parts(1245), Some((12, 45)));
    assert_eq!(utc_offset_parts(530), Some((5, 30)));
    // a negative offset is read as the unsigned number that its bits spell
    assert_eq!(utc_offset_parts(-500), Some(((65036u16 / 100) as i8, 36)));
    assert_eq!(utc_offset_parts(65536 + 100), Some((1, 0)));
}

#[test]
fn small_records() {
    assert_eq!(Continent::Europe.as_code(), "EU");
    assert_eq!(Continent::Africa.as_code(), "AF");
    assert_eq!(Continent::Antarctica.as_code(), "AN");
    assert_eq!(Continent::Asia.as_code(), "AS");
    assert_eq!(Continent::NorthAmerica.as_code(), "NA");
    assert_eq!(Continent::Oceania.as_code(), "OC");
    assert_eq!(Continent::SouthAmerica.as_code(), "SA");
    assert_eq!(Continent::Other("ZZ".to_string()).as_code(), "??");
    assert_eq!(Service::new().name, None);
    assert_eq!(Domain::new(), Domain { comment: None, name: None });
    assert_eq!(DictionaryInfoResponse::new().item_count, None);
    assert_eq!(DirectorBackend::new().version, None);
}

#[test]
fn digests() {
    assert_eq!(
        surrogate_key_for_cache_key(b"", PurgeScope::Global, None),
        "E3B0C44298FC1C149AFBF4C8996FB92427AE41E4649B934CA495991B7852B855"
    );
    assert_eq!(hex_upper_bytes(&[0x00, 0x9a, 0xff, 0x10]), b"009AFF10".to_vec());
    assert_eq!(hex_upper_string(&[]), "");
    assert_eq!(
        surrogate_key_for_cache_key(b"abc", PurgeScope::Global, Some(b"IAD")),
        "BA7816BF8F01CFEA414140DE5DAE2223B00361A396177A9CB410FF61F20015AD"
    );
    assert_eq!(
        surrogate_key_for_cache_key(b"abc", PurgeScope::Pop, None),
        "BA7816BF8F01CFEA414140DE5DAE2223B00361A396177A9CB410FF61F20015AD"
    );
    assert_eq!(
        surrogate_key_for_cache_key(b"a", PurgeScope::Pop, Some(b"bc")),
        "BA7816BF8F01CFEA414140DE5DAE2223B00361A396177A9CB410FF61F20015AD"
    );
    assert_eq!(PurgeOptions::pop_scope().scope, PurgeScope::Pop);
    assert_eq!(PurgeOptions::global_scope().scope, PurgeScope::Global);
    assert_eq!(PurgeOptions::default(), PurgeOptions::pop_scope());
}

#[test]
fn cache_options() {
    assert_eq!(direct::CacheError::from(st(5)), direct::CacheError::Unsupported);
    assert_eq!(direct::CacheError::from(st(13)), direct::CacheError::LimitExceeded);
    assert_eq!(direct::CacheError::from(st(3)), direct::CacheError::InvalidOperation);
    assert_eq!(direct::CacheError::from(st(1)), direct::CacheError::Other(st(1)));
    assert_eq!(CacheError::from(direct::CacheError::Unsupported), CacheError::Unsupported);
    assert_eq!(CacheError::from(direct::CacheError::LimitExceeded), CacheError::LimitExceeded);
    assert_eq!(CacheError::from(direct::CacheError::InvalidOperation), CacheError::InvalidOperation);
    assert_eq!(CacheError::from(direct::CacheError::Other(st(7))), CacheError::Other(st(7)));
    let (mask, abi) = LookupOptions { request_headers: None }.as_abi();
    assert_eq!((mask, abi.request_headers), (0, u32::MAX - 1));
    let (mask, abi) = LookupOptions { request_headers: Some(RequestHandle::from_u32(4)) }.as_abi();
    assert_eq!((mask, abi.request_headers), (2, 4));
    let (mask, abi) = GetBodyOptions { from: Some(5), to: None }.as_abi();
    assert_eq!((mask, abi), (2, CacheGetBodyOptions { from: 5, to: 0 }));
    let (mask, abi) = GetBodyOptions { from: None, to: Some(9) }.as_abi();
    assert_eq!((mask, abi), (4, CacheGetBodyOptions { from: 0, to: 9 }));
    let (mask, abi) = GetBodyOptions { from: Some(1), to: Some(2) }.as_abi();
    assert_eq!((mask, abi.from, abi.to), (6, 1, 2));
    let options = WriteOptions {
        max_age_ns: 10,
        request_headers: None,
        vary_rule: Some("accept".to_string()),
        initial_age_ns: None,
        stale_while_revalidate_ns: Some(3),
        surrogate_keys: None,
        length: Some(100),
        user_metadata: Some(vec![1, 2]),
        sensitive_data: true,
    };
    let (mask, abi) = options.as_abi();
    assert_eq!(mask, 4 + 16 + 64 + 128 + 256);
    assert_eq!(abi.max_age_ns, 10);
    assert_eq!(abi.request_headers, u32::MAX - 1);
    assert_eq!(abi.vary_rule, Some("accept".to_string()));
    assert_eq!(abi.initial_age_ns, 0);
    assert_eq!(abi.stale_while_revalidate_ns, 3);
    assert_eq!(abi.surrogate_keys, None);
    assert_eq!(abi.length, 100);
    assert_eq!(abi.user_metadata, Some(vec![1, 2]));
    let options = WriteOptions {
        max_age_ns: 0,
        request_headers: Some(RequestHandle::from_u32(1)),
        vary_rule: None,
        initial_age_ns: Some(7),
        stale_while_revalidate_ns: None,
        surrogate_keys: Some("a b".to_string()),
        length: None,
        user_metadata: None,
        sensitive_data: false,
    };
    let (mask, abi) = options.as_abi();
    assert_eq!(mask, 2 + 8 + 32);
    assert_eq!(abi.request_headers, 1);
    assert_eq!(abi.initial_age_ns, 7);
    assert_eq!(abi.surrogate_keys, Some("a b".to_string()));
}

#[test]
fn purges() {
    let seen = std::cell::Cell::new(99u32);
    let r = purge_surrogate_key(|mask: u32| {
        seen.set(mask);
        st(0)
    });
    assert_eq!((r, seen.get()), (Ok(()), 0));
    let r = soft_purge_surrogate_key(|mask: u32| {
        seen.set(mask);
        st(0)
    });
    assert_eq!((r, seen.get()), (Ok(()), 1));
    assert_eq!(purge_surrogate_key(|_: u32| st(1)), Err("purge error: ERROR".to_string()));
    assert_eq!(soft_purge_surrogate_key(|_: u32| st(77)), Err("purge error: UNKNOWN".to_string()));
}

#[test]
fn send_errors() {
    assert_eq!(SendErrorCause::status(st(7)), SendErrorCause::Invalid);
    assert_eq!(SendErrorCause::status(st(9)), SendErrorCause::Incomplete);
    assert_eq!(SendErrorCause::status(st(11)), SendErrorCause::HeadTooLarge);
    assert_eq!(SendErrorCause::status(st(12)), SendErrorCause::InvalidStatus);
    assert_eq!(
        SendErrorCause::status(st(1)),
        SendErrorCause::Generic("Error occurred processing send".to_string())
    );
    assert_eq!(
        SendErrorCause::status(st(5)),
        SendErrorCause::Generic("SendError with unknown FastlyStatus code: 5".to_string())
    );
    assert_eq!(
        SendErrorCause::status(st(-12)),
        SendErrorCause::Generic("SendError with unknown FastlyStatus code: -12".to_string())
    );
    assert_eq!(
        SendErrorCause::status(st(i32::MIN)),
        SendErrorCause::Generic("SendError with unknown FastlyStatus code: -2147483648".to_string())
    );
    assert_eq!(SendErrorCause::Invalid.message(), "response was invalid HTTP");
    assert_eq!(SendErrorCause::Incomplete.message(), "response was not a complete HTTP message");
    assert_eq!(SendErrorCause::HeadTooLarge.message(), "response message head was too large");
    assert_eq!(SendErrorCause::InvalidStatus.message(), "response status line was invalid");
    assert_eq!(
        SendErrorCause::BufferSize(BufferSizeError::header_value(10, 20)).message(),
        "response included a header value that exceeded a provided buffer's capacity (needed 20 bytes)"
    );
    assert_eq!(SendErrorCause::Generic("x".to_string()).message(), "generic send error: x");
    let e = SendError::new("origin", Request::get("http://a/"), SendErrorCause::Invalid);
    assert_eq!(e.backend_name(), "origin");
    assert_eq!(e.root_cause(), &SendErrorCause::Invalid);
    assert_eq!(e.into_sent_req().get_url_str(), "http://a/");
    let ok = Request::get("https://a/").validate("origin");
    assert!(ok.is_ok());
    let e = Request::get("ftp://a/x").validate("origin").unwrap_err();
    assert_eq!(e.backend_name(), "origin");
    assert_eq!(
        e.root_cause(),
        &SendErrorCause::Generic(
            "request URIs must have a scheme (http/https) and an authority (host)".to_string()
        )
    );
    assert_eq!(e.into_sent_req().get_url_str(), "ftp://a/x");
    let md = FastlyResponseMetadata::new(Backend::from_name("b").unwrap(), Request::get("http://m/"));
    let e = SendError::from_resp_metadata(md, SendErrorCause::Incomplete);
    assert_eq!(e.backend_name(), "b");
    assert_eq!(e.into_sent_req().get_url_str(), "http://m/");
}

fn pending(handle: u32, backend: &str, url: &str) -> PendingRequest {
    PendingRequest::new(
        PendingRequestHandle::from_u32(handle),
        FastlyResponseMetadata::new(Backend::from_name(backend).unwrap(), Request::get(url)),
    )
}

#[test]
fn pending_requests() {
    let h = PendingRequestHandle::from_u32(3);
    assert_eq!(h.copy().as_u32(), 3);
    assert!(PendingRequestHandle::invalid().is_invalid());
    let resp = || ResponseHandle::from_u32(10);
    let body = || BodyHandle::from_u32(11);
    assert!(matches!(h.copy().poll(st(0), 0, resp(), body()), PollHandleResult::Pending(p) if p.as_u32() == 3));
    assert!(matches!(
        h.copy().poll(st(0), 1, resp(), body()),
        PollHandleResult::Done(Ok((r, b))) if r.as_u32() == 10 && b.as_u32() == 11
    ));
    assert!(matches!(
        h.copy().poll(st(0), 1, ResponseHandle::invalid(), body()),
        PollHandleResult::Done(Err(SendErrorCause::Generic(text))) if text == "asynchronous request failed"
    ));
    assert!(matches!(
        h.copy().poll(st(9), -1, resp(), body()),
        PollHandleResult::Done(Err(SendErrorCause::Incomplete))
    ));
    assert!(matches!(h.copy().wait(st(0), resp(), body()), Ok((r, _)) if r.as_u32() == 10));
    assert_eq!(h.copy().wait(st(7), resp(), body()), Err(SendErrorCause::Invalid));
    let handles: Vec<PendingRequestHandle> =
        vec![1, 2, 3, 4].into_iter().map(PendingRequestHandle::from_u32).collect();
    assert_eq!(handle_list(&handles), vec![1, 2, 3, 4]);
    let (res, index, rest) = select_handles(handles, 1, resp(), body());
    assert!(res.is_ok());
    assert_eq!(index, 1);
    assert_eq!(handle_list(&rest), vec![1, 4, 3]);
    let (res, _, rest) = select_handles(rest, 2, resp(), BodyHandle::invalid());
    assert_eq!(res, Err(SendErrorCause::Generic("selected request failed".to_string())));
    assert_eq!(handle_list(&rest), vec![1, 4]);

    let p = pending(1, "b1", "http://one/");
    assert_eq!(p.handle().as_u32(), 1);
    assert_eq!(p.sent_req().get_url_str(), "http://one/");
    let p = match p.poll(Polled::Pending) {
        PollResult::Pending(p) => p,
        PollResult::Done(_) => panic!("still pending"),
    };
    match p.poll(Polled::Done(Ok(Response::from_status(204)))) {
        PollResult::Done(Ok(resp)) => {
            assert_eq!(resp.get_status().as_u16(), 204);
            assert_eq!(resp.get_backend_name(), Some("b1"));
            assert_eq!(resp.get_backend_request().unwrap().get_url_str(), "http://one/");
        }
        _ => panic!("done"),
    }
    let e = pending(2, "b2", "http://two/").wait(Err(SendErrorCause::HeadTooLarge)).unwrap_err();
    assert_eq!(e.backend_name(), "b2");
    assert_eq!(e.root_cause(), &SendErrorCause::HeadTooLarge);
    let all = vec![pending(1, "b1", "http://one/"), pending(2, "b2", "http://two/"), pending(3, "b3", "http://three/")];
    let (res, rest) = select(all, 0, Ok(Response::new()));
    assert_eq!(res.unwrap().get_backend_name(), Some("b1"));
    assert_eq!(rest.iter().map(|p| p.handle().as_u32()).collect::<Vec<u32>>(), vec![3, 2]);
    let (res, rest) = select(rest, 1, Err(SendErrorCause::Invalid));
    assert_eq!(res.unwrap_err().into_sent_req().get_url_str(), "http://two/");
    assert_eq!(rest.len(), 1);
}

#[test]
fn streaming_bodies() {
    let handle = StreamingBodyHandle::from_body_handle(BodyHandle::from_u32(5));
    assert_eq!(handle.as_u32(), 5);
    let mut body = StreamingBody::from_handle(handle);
    assert_eq!(body.write_bytes(b"ab"), 2);
    assert_eq!(body.write_str("c\u{e9}"), 3);
    assert_eq!(body.take_pending(), "abc\u{e9}".as_bytes().to_vec());
    body.append(Body::from("tail"));
    let (handle, rest) = body.finish();
    assert_eq!(rest, b"tail".to_vec());
    assert_eq!(StreamingBodyHandle::from_body_handle(BodyHandle::from_u32(5)).finish(st(0)), Ok(()));
    assert_eq!(handle.finish(st(3)), Err(HandleError::InvalidHandle));
    assert_eq!(StreamingBodyHandle::from_body_handle(BodyHandle::from_u32(7)).into_u32(), 7);
    let mut b = BodyHandle::invalid();
    assert!(b.is_invalid());
    *b.as_u32_mut() = 12;
    assert!(b.is_valid());
    assert_eq!(b.into_u32(), 12);
    let mut r = RequestHandle::invalid();
    assert!(!r.is_valid());
    *r.as_u32_mut() = 1;
    assert_eq!(r.into_u32(), 1);
    let mut r = ResponseHandle::invalid();
    assert!(r.is_invalid());
    *r.as_u32_mut() = 2;
    assert_eq!(r.as_u32(), 2);
}

#[test]
fn experimental_parts() {
    let mut req = Request::get("http://a/");
    assert_eq!(req.get_cache_key(), None);
    req.set_cache_key([7u8; 32]);
    assert_eq!(req.get_cache_key(), Some([7u8; 32]));
    req.set_cache_key_str(b"key");
    let mut salted = b"key".to_vec();
    salted.extend_from_slice(b"\x00\xf0\x9f\xa7\x82\x00");
    let expected: [u8; 32] = Sha256::digest(&salted).into();
    let unsalted: [u8; 32] = Sha256::digest(b"key").into();
    assert_eq!(req.get_cache_key(), Some(expected));
    assert_ne!(req.get_cache_key(), Some(unsalted));
    let req = Request::get("http://a/").with_cache_key([1u8; 32]).with_cache_key_str(b"");
    let salt_only: [u8; 32] = Sha256::digest(b"\x00\xf0\x9f\xa7\x82\x00").into();
    assert_eq!(req.get_cache_key(), Some(salt_only));
    assert_eq!(req.clone_without_body().get_cache_key(), req.get_cache_key());
    let mut handle = RequestHandle::from_u32(1);
    let mut key = [0u8; 32];
    key[0] = 0xab;
    key[31] = 0x0f;
    let (name, value) = RequestHandleCacheKey::set_cache_key(&mut handle, &key);
    assert_eq!(name.as_str(), "fastly-xqd-cache-key");
    assert_eq!(
        value.to_str().unwrap(),
        "AB0000000000000000000000000000000000000000000000000000000000000F"
    );
    assert_eq!(RequestHandleUpgradeWebsocket::handoff_websocket(&mut handle, st(0)), Ok(()));
    assert_eq!(
        RequestHandleUpgradeWebsocket::handoff_fanout(&mut handle, st(9)),
        Err(SendErrorCause::Incomplete)
    );
    assert!(Request::get("http://a/").handoff_websocket("b", st(0)).is_ok());
    let e = Request::get("http://a/").handoff_fanout("b", st(12)).unwrap_err();
    assert_eq!(e.backend_name(), "b");
    assert_eq!(e.root_cause(), &SendErrorCause::InvalidStatus);
    let backend = Backend::from_name("b").unwrap();
    assert_eq!(backend.is_healthy(st(0), BackendHealth::Healthy), Ok(BackendHealth::Healthy));
    assert_eq!(
        backend.is_healthy(st(3), BackendHealth::Unknown),
        Err("backend healthcheck error: BADF".to_string())
    );
    assert!(<Backend as BackendExt>::builder("n", "t").registration().is_ok());
    assert_eq!(
        uap_parse(st(0), b"Chrome", b"100", b"0", b"\xff"),
        Ok((
            "Chrome".to_string(),
            Some("100".to_string()),
            Some("0".to_string()),
            Some("\u{fffd}".to_string())
        ))
    );
    assert_eq!(uap_parse(st(1), b"", b"", b"", b""), Err("fastly_uap::parse failed".to_string()));
}

#[test]
fn query_parameters() {
    let req = Request::get("https://example.com/page?foo=bar&baz=qux&foo=second&empty=&k");
    assert_eq!(req.get_query_parameter("foo"), Some("bar".to_string()));
    assert_eq!(req.get_query_parameter("baz"), Some("qux".to_string()));
    assert_eq!(req.get_query_parameter("empty"), Some(String::new()));
    assert_eq!(req.get_query_parameter("k"), None);
    assert_eq!(req.get_query_parameter("fo"), None);
    assert_eq!(req.get_query_parameter("ba"), None);
    assert_eq!(req.get_query_parameter("missing"), None);
    assert_eq!(req.get_query_parameter(""), None);
    assert_eq!(Request::get("https://example.com/page").get_query_parameter("foo"), None);
    assert_eq!(Request::get("https://example.com/?=v").get_query_parameter(""), Some("v".to_string()));
    assert_eq!(
        Request::get("https://example.com/?a=1=2&&b=%C3%A9").get_query_parameter("a"),
        Some("1=2".to_string())
    );
    assert_eq!(
        Request::get("https://example.com/?a=1=2&&b=%C3%A9").get_query_parameter("b"),
        Some("%C3%A9".to_string())
    );
}

#[test]
fn sized_reads() {
    let offered = RefCell::new(Vec::new());
    let backend = Backend::from_name("origin").unwrap();
    let host = backend.get_host(|capacity: usize| {
        offered.borrow_mut().push(capacity);
        value_source(b"example.com")(capacity)
    });
    assert_eq!(host, "example.com");
    assert_eq!(*offered.borrow(), vec![0usize, 11]);
    assert_eq!(
        backend.get_host_override(value_source(b"override.example.com")),
        Some(HeaderValue::from_bytes(b"override.example.com").unwrap())
    );
    let none = |_: usize| ValueOutcome { status: st(10), data: Vec::new(), nwritten: 0 };
    assert_eq!(backend.get_host_override(none), None);
    let r: Option<Vec<u8>> = read_sized(4, value_source(b"abc"));
    assert_eq!(r, Some(b"abc".to_vec()));
    let big = vec![9u8; 20000];
    let offered = RefCell::new(Vec::new());
    let handle = CacheHandle::from_u32(2);
    let r = handle.get_user_metadata(|capacity: usize| {
        offered.borrow_mut().push(capacity);
        value_source(&big)(capacity)
    });
    assert_eq!(r, Some(big.clone()));
    assert_eq!(*offered.borrow(), vec![16384usize, 20000]);
    assert_eq!(handle.get_user_metadata(none), None);
    assert_eq!(handle.get_body(st(0), BodyHandle::from_u32(3)), Ok(Some(BodyHandle::from_u32(3))));
    assert_eq!(handle.get_body(st(10), BodyHandle::invalid()), Ok(None));
    assert_eq!(handle.get_body(st(3), BodyHandle::invalid()), Err(st(3)));
    assert_eq!(handle.get_length(st(0), 77), Some(77));
    assert_eq!(handle.get_length(st(10), 77), None);
    assert!(CacheHandle::invalid().as_u32() == u32::MAX - 1);
}

#[test]
fn backend_answers() {
    let backend = Backend::from_name("origin").unwrap();
    assert!(backend.is_known(st(0), 1));
    assert!(!backend.is_known(st(0), 0));
    assert!(!backend.is_known(st(0), 2));
    assert!(backend.is_dynamic(st(0), 1));
    assert!(!backend.is_ssl(st(0), 0));
    assert_eq!(backend.get_connect_timeout(st(0), 1500), Duration::from_millis(1500));
    assert_eq!(backend.get_first_byte_timeout(st(0), 0).as_millis(), 0);
    assert_eq!(backend.get_between_bytes_timeout(st(0), u32::MAX).as_millis(), 4294967295);
    assert_eq!(backend.get_ssl_min_version(st(0), 2), Some(SslVersion::TLS1_2));
    assert_eq!(backend.get_ssl_min_version(st(10), 2), None);
    assert_eq!(backend.get_ssl_max_version(st(0), 3), Some(SslVersion::TLS1_3));
}

#[test]
fn handle_answers() {
    let mut req = RequestHandle::from_u32(1);
    let found = ValueOutcome { status: st(0), data: b"gzip".to_vec(), nwritten: 4 };
    assert_eq!(req.get_header_value(8, found), Ok(Some(HeaderValue::from_bytes(b"gzip").unwrap())));
    let absent = ValueOutcome { status: st(2), data: Vec::new(), nwritten: 0 };
    assert_eq!(req.get_header_value(8, absent), Ok(None));
    let small = ValueOutcome { status: st(4), data: Vec::new(), nwritten: 30 };
    assert_eq!(
        req.get_header_value(8, small),
        Err(BufferSizeError { buf_size: 8, needed_buf_size: 30, buffer_kind: BufferKind::HeaderValue })
    );
    let values = vec![
        HeaderValue::from_bytes(b"a").unwrap(),
        HeaderValue::from_bytes(b"").unwrap(),
        HeaderValue::from_bytes(b"bc").unwrap(),
    ];
    assert_eq!(req.set_header_values(&values), b"a\0\0bc\0".to_vec());
    assert_eq!(req.set_header_values(&Vec::new()), Vec::<u8>::new());
    assert!(req.remove_header(st(0)));
    assert!(!req.remove_header(st(2)));
    assert_eq!(req.get_version(st(0), 2), Version::HTTP_11);
    let mut resp = ResponseHandle::from_u32(2);
    assert_eq!(resp.get_version(st(0), 4), Version::HTTP_3);
    assert_eq!(resp.get_status(st(0), 418).as_u16(), 418);
    assert_eq!(resp.set_header_values(&values), b"a\0\0bc\0".to_vec());
    assert!(resp.remove_header(st(0)));
    let found = ValueOutcome { status: st(0), data: b"x".to_vec(), nwritten: 1 };
    assert_eq!(resp.get_header_value(8, found), Ok(Some(HeaderValue::from_bytes(b"x").unwrap())));
    // what is written as a block is read back as the same values
    let block = req.set_header_values(&values);
    let name = fastly::http::header::HeaderName::from_bytes(b"x").unwrap();
    let read = req.get_header_values(&name, 64, |capacity: usize, cursor: u32| {
        assert_eq!(cursor, 0);
        assert!(block.len() <= capacity);
        fastly::abi::FillOutcome {
            status: st(0),
            data: block.clone(),
            ending_cursor: -1,
            nwritten: block.len(),
        }
    });
    assert_eq!(read, values.into_iter().map(Ok).collect::<Vec<_>>());
}

#[test]
fn cache_write_options() {
    let mut options = direct::WriteOptions::new(Duration::from_secs(60));
    options.vary_by(&vec![
        fastly::http::header::HeaderName::from_bytes(b"Accept").unwrap(),
        fastly::http::header::HeaderName::from_bytes(b"accept-encoding").unwrap(),
    ]);
    assert_eq!(options.vary_rule, Some("accept accept-encoding".to_string()));
    options.vary_by(&Vec::new());
    assert_eq!(options.vary_rule, Some(String::new()));
    options.surrogate_keys(&vec!["one".to_string(), "two".to_string(), "three".to_string()]);
    assert_eq!(options.surrogate_keys, Some("one two three".to_string()));
    options.surrogate_keys(&vec![String::new(), "a".to_string(), String::new(), "b".to_string()]);
    assert_eq!(options.surrogate_keys, Some("a  b".to_string()));
    options.initial_age = Some(Duration::from_millis(1500));
    options.stale_while_revalidate = Some(Duration::from_secs(u64::MAX));
    options.request_headers = Some(RequestHandle::from_u32(9));
    options.length = Some(12);
    options.user_metadata = Some(vec![1, 2, 3]);
    options.sensitive_data = true;
    let low = options.as_handle_options();
    assert_eq!(low.max_age_ns, 60_000_000_000);
    assert_eq!(low.initial_age_ns, Some(1_500_000_000));
    assert_eq!(low.stale_while_revalidate_ns, Some(u64::MAX));
    assert_eq!(low.request_headers, Some(RequestHandle::from_u32(9)));
    assert_eq!(low.vary_rule, Some(String::new()));
    assert_eq!(low.surrogate_keys, Some("a  b".to_string()));
    assert_eq!(low.length, Some(12));
    assert_eq!(low.user_metadata, Some(vec![1, 2, 3]));
    assert!(low.sensitive_data);
    let (mask, abi) = low.as_abi();
    assert_eq!(mask, 2 + 4 + 8 + 16 + 32 + 64 + 128 + 256);
    assert_eq!(abi.initial_age_ns, 1_500_000_000);
    let far = direct::WriteOptions::new(Duration::from_secs(u64::MAX)).as_handle_options();
    assert_eq!(far.max_age_ns, u64::MAX);
    assert_eq!(Duration::from_nanos(2_500_000_001).as_nanos(), 2_500_000_001);
    assert_eq!(Duration::from_nanos(2_500_000_001).as_secs(), 2);
    let state = direct::CacheLookupState { bits: 1 | 4 };
    assert!(state.is_found());
    assert!(!state.is_usable());
    assert!(state.is_stale());
    assert!(!state.must_insert_or_update());
    assert!(direct::CacheLookupState { bits: 8 | 2 }.must_insert_or_update());
    assert!(direct::CacheLookupState { bits: 8 | 2 }.is_usable());
    assert_eq!(CacheHandle::from_u32(1).get_number(st(0), 5), Some(5));
    assert_eq!(CacheHandle::from_u32(1).get_number(st(10), 5), None);
}

#[test]
fn deserialize_partial_geo_responses() {
    let invalid_utc_offset = br#"
    {
        "as_name": "test as",
        "as_number": 11111,
        "area_code": 0,
        "city": "?",
        "conn_speed": "broadband",
        "conn_type": "wired",
        "continent": "OS",
        "country_code": "EA",
        "country_code3": "EAR",
        "country_name": "the entire earth",
        "latitude": 6.5,
        "longitude": -28.8,
        "metro_code": 0,
        "postal_code": "?",
        "proxy_description": "?",
        "proxy_type": "hosting",
        "region": "?",
        "utc_offset": 9999
    }
    "#;
    let raw: serde_json::Value = serde_json::from_slice(invalid_utc_offset).unwrap();
    let offset = raw["utc_offset"].as_i64().unwrap() as i32;
    assert!(utc_offset_parts(offset).is_none());
    assert_eq!(ConnSpeed::from_name(raw["conn_speed"].as_str().unwrap()), ConnSpeed::Broadband);
    assert_eq!(ConnType::from_name(raw["conn_type"].as_str().unwrap()), ConnType::Wired);
    assert_eq!(
        Continent::from_name(raw["continent"].as_str().unwrap()),
        Continent::Other("OS".to_string())
    );
    assert_eq!(
        ProxyDescription::from_name(raw["proxy_description"].as_str().unwrap()),
        ProxyDescription::Unknown
    );
    assert_eq!(ProxyType::from_name(raw["proxy_type"].as_str().unwrap()), ProxyType::Hosting);

    let invalid_variant = br#"
    {
        "as_name": "test as",
        "as_number": 11111,
        "area_code": 0,
        "city": "?",
        "conn_speed": "super_broadband",
        "conn_type": "wired",
        "continent": "OS",
        "country_code": "EA",
        "country_code3": "EAR",
        "country_name": "the entire earth",
        "latitude": 6.5,
        "longitude": -28.8,
        "metro_code": 0,
        "postal_code": "?",
        "proxy_description": "?",
        "proxy_type": "hosting",
        "region": "?",
        "utc_offset": 200
    }
    "#;
    let raw: serde_json::Value = serde_json::from_slice(invalid_variant).unwrap();
    assert_eq!(utc_offset_parts(raw["utc_offset"].as_i64().unwrap() as i32), Some((2, 0)));
    assert_eq!(
        ConnSpeed::from_name(raw["conn_speed"].as_str().unwrap()),
        ConnSpeed::Other("super_broadband".to_string())
    );
}

#[test]
fn geo_names() {
    assert_eq!(ConnSpeed::from_name("ultrabb"), ConnSpeed::UltraBroadband);
    assert_eq!(ConnSpeed::from_name("oc12"), ConnSpeed::Oc12);
    assert_eq!(ConnSpeed::from_name("oc3"), ConnSpeed::Oc3);
    assert_eq!(ConnSpeed::from_name("t1"), ConnSpeed::T1);
    assert_eq!(ConnSpeed::from_name("xdsl"), ConnSpeed::Xdsl);
    assert_eq!(ConnSpeed::from_name("Broadband"), ConnSpeed::Other("Broadband".to_string()));
    assert_eq!(ConnSpeed::from_name(""), ConnSpeed::Other(String::new()));
    assert_eq!(ConnType::from_name("?"), ConnType::Unknown);
    assert_eq!(ConnType::from_name("wifi"), ConnType::Wifi);
    assert_eq!(ConnType::from_name("unknown"), ConnType::Other("unknown".to_string()));
    for code in ["AF", "AN", "AS", "EU", "NA", "OC", "SA"] {
        assert_eq!(Continent::from_name(code).as_code(), code);
    }
    assert_eq!(Continent::from_name("??"), Continent::Other("??".to_string()));
    assert_eq!(Continent::from_name("eu"), Continent::Other("eu".to_string()));
    assert_eq!(ProxyDescription::from_name("cloud-security"), ProxyDescription::CloudSecurity);
    assert_eq!(ProxyDescription::from_name("tor-exit"), ProxyDescription::TorExit);
    assert_eq!(ProxyDescription::from_name("tor-relay"), ProxyDescription::TorRelay);
    assert_eq!(ProxyDescription::from_name("web-browser"), ProxyDescription::WebBrowser);
    assert_eq!(
        ProxyDescription::from_name("cloud_security"),
        ProxyDescription::Other("cloud_security".to_string())
    );
    assert_eq!(ProxyType::from_name("aol"), ProxyType::Aol);
    assert_eq!(ProxyType::from_name("?"), ProxyType::Unknown);
    assert_eq!(ProxyType::from_name("other"), ProxyType::Other("other".to_string()));
    assert!(text_is("caf\u{e9}", "caf\u{e9}"));
    assert!(!text_is("cafe", "caf\u{e9}"));
    assert!(!text_is("a", "ab"));
}

#[test]
fn geo_answers() {
    let ok = ValueOutcome { status: st(0), data: b"{}".to_vec(), nwritten: 2 };
    assert_eq!(geo_answer(ok, 1024), Ok(Some(b"{}".to_vec())));
    let small = ValueOutcome { status: st(4), data: Vec::new(), nwritten: 2000 };
    assert_eq!(
        geo_answer(small, 1024),
        Err(BufferSizeError { buf_size: 1024, needed_buf_size: 2000, buffer_kind: BufferKind::Geo })
    );
    for code in [1, 2, 3, 5, 10, 13, 99] {
        let failed = ValueOutcome { status: st(code), data: Vec::new(), nwritten: 7 };
        assert_eq!(geo_answer(failed, 1024), Ok(None));
    }
    let long = vec![b'x'; 3000];
    let offered = RefCell::new(Vec::new());
    let r = geo_lookup_raw(|capacity: usize| {
        offered.borrow_mut().push(capacity);
        value_source(&long)(capacity)
    });
    assert_eq!(r, Some(long.clone()));
    assert_eq!(*offered.borrow(), vec![1024usize, 3000]);
    assert_eq!(geo_lookup_raw(value_source(b"short")), Some(b"short".to_vec()));
    let r = geo_lookup_raw(|_: usize| ValueOutcome { status: st(2), data: Vec::new(), nwritten: 0 });
    assert_eq!(r, None);
    // a host that is not content with the size it asked for has no answer
    let calls = std::cell::Cell::new(0);
    let r = geo_lookup_raw(|capacity: usize| {
        calls.set(calls.get() + 1);
        ValueOutcome { status: st(4), data: Vec::new(), nwritten: capacity + 1 }
    });
    assert_eq!((r, calls.get()), (None, 2));
    // a failure at the second call
    let r = geo_lookup_raw(|capacity: usize| {
        if capacity == 1024 {
            ValueOutcome { status: st(4), data: Vec::new(), nwritten: 2048 }
        } else {
            ValueOutcome { status: st(1), data: Vec::new(), nwritten: 0 }
        }
    });
    assert_eq!(r, None);
}

#[test]
fn numbers() {
    assert_eq!(parse_usize("0"), Some(0));
    assert_eq!(parse_usize("007"), Some(7));
    assert_eq!(parse_usize("+15"), Some(15));
    assert_eq!(parse_usize("+"), None);
    assert_eq!(parse_usize(""), None);
    assert_eq!(parse_usize("++1"), None);
    assert_eq!(parse_usize("1+"), None);
    assert_eq!(parse_usize("-1"), None);
    assert_eq!(parse_usize(" 1"), None);
    assert_eq!(parse_usize("1a"), None);
    assert_eq!(parse_usize("\u{661}"), None);
    assert_eq!(parse_usize(&usize::MAX.to_string()), Some(usize::MAX));
    assert_eq!(parse_usize(&format!("{}0", usize::MAX)), None);
    assert_eq!(parse_usize(&(usize::MAX as u128 + 1).to_string()), None);
    assert_eq!(parse_usize("18446744073709551615"), "18446744073709551615".parse::<usize>().ok());
    assert_eq!(parse_usize("18446744073709551616"), "18446744073709551616".parse::<usize>().ok());
}
