use fastly::convert::{ToBackend, ToHeaderName, ToHeaderValue, ToMethod, ToUrl, Sealed};
use fastly::http::header::{content_length, content_type, location, HeaderName, HeaderValue, InvalidHeaderName, ToStrError};
use fastly::http::header_map::Headers;
use fastly::http::method::{InvalidMethod, Method};
use fastly::http::mime::Mime;
use fastly::http::status::StatusCode;
use fastly::http::url::Url;
use fastly::http::version::Version;
use fastly::shared::HttpVersion;

fn name(s: &str) -> HeaderName {
    HeaderName::from_str(s).unwrap()
}

fn value(s: &str) -> HeaderValue {
    HeaderValue::from_str(s).unwrap()
}

#[test]
fn header_names() {
    let n = HeaderName::from_bytes(b"Content-Type").unwrap();
    assert_eq!(n.as_bytes(), b"content-type");
    assert_eq!(n.as_str(), "content-type");
    assert!(n.same(&content_type()));
    assert!(!n.same(&content_length()));
    assert_eq!(location().as_str(), "location");
    assert_eq!(HeaderName::from_bytes(b""), Err(InvalidHeaderName {}));
    assert_eq!(HeaderName::from_bytes(b"a b"), Err(InvalidHeaderName {}));
    assert_eq!(HeaderName::from_bytes(b"a:b"), Err(InvalidHeaderName {}));
    assert_eq!(HeaderName::from_bytes(b"a\0"), Err(InvalidHeaderName {}));
    assert_eq!(HeaderName::from_bytes("\u{e9}".as_bytes()), Err(InvalidHeaderName {}));
    assert!(HeaderName::from_bytes(b"!#$%&'*+-.^_`|~09AZaz").is_ok());
    assert_eq!(
        HeaderName::from_bytes(b"!#$%&'*+-.^_`|~09AZaz").unwrap().as_str(),
        "!#$%&'*+-.^_`|~09azaz"
    );
    assert!(HeaderName::from_bytes(&vec![b'a'; 65535]).is_ok());
    assert!(HeaderName::from_bytes(&vec![b'a'; 65536]).is_err());
    assert!(HeaderName::from_bytes(&vec![b'A'; 100]).unwrap().same(&HeaderName::from_bytes(&vec![b'a'; 100]).unwrap()));
    assert_eq!(HeaderName::from_static("x-y").as_str(), "x-y");
    assert_eq!(n.clone(), n);
}

#[test]
fn header_values() {
    let v = HeaderValue::from_bytes(b"text/html; q=1\t").unwrap();
    assert_eq!(v.as_bytes(), b"text/html; q=1\t");
    assert_eq!(v.to_str(), Ok("text/html; q=1\t"));
    assert_eq!(v.len(), 15);
    assert!(!v.is_empty());
    assert!(HeaderValue::from_bytes(b"").unwrap().is_empty());
    assert!(HeaderValue::from_bytes(b"a\nb").is_err());
    assert!(HeaderValue::from_bytes(b"a\x7fb").is_err());
    assert!(HeaderValue::from_bytes(b"\x1f").is_err());
    let high = HeaderValue::from_bytes(b"caf\xe9").unwrap();
    assert_eq!(high.to_str(), Err(ToStrError {}));
    assert_eq!(high.as_bytes(), b"caf\xe9");
    assert!(HeaderValue::from_str("caf\u{e9}").is_ok());
    assert_eq!(HeaderValue::from_name(content_type()).as_bytes(), b"content-type");
    assert!(v.same(&v.clone()));
    assert!(!v.same(&high));
    assert_eq!(HeaderValue::from_static("abc").as_bytes(), b"abc");
}

#[test]
fn methods() {
    assert_eq!(Method::from_bytes(b"GET"), Ok(Method::GET));
    assert_eq!(Method::from_bytes(b"OPTIONS"), Ok(Method::OPTIONS));
    assert_eq!(Method::from_bytes(b"POST"), Ok(Method::POST));
    assert_eq!(Method::from_bytes(b"PUT"), Ok(Method::PUT));
    assert_eq!(Method::from_bytes(b"DELETE"), Ok(Method::DELETE));
    assert_eq!(Method::from_bytes(b"HEAD"), Ok(Method::HEAD));
    assert_eq!(Method::from_bytes(b"TRACE"), Ok(Method::TRACE));
    assert_eq!(Method::from_bytes(b"CONNECT"), Ok(Method::CONNECT));
    assert_eq!(Method::from_bytes(b"PATCH"), Ok(Method::PATCH));
    assert_eq!(Method::from_bytes(b""), Err(InvalidMethod {}));
    assert_eq!(Method::from_bytes(b"GE T"), Err(InvalidMethod {}));
    assert_eq!(Method::from_bytes(b"G#T"), Err(InvalidMethod {}));
    let get = Method::from_bytes(b"get").unwrap();
    assert!(matches!(get, Method::Extension(_)));
    assert_eq!(get.as_str(), "get");
    assert!(!get.same(&Method::GET));
    let purge = Method::from_str("PURGE").unwrap();
    assert_eq!(purge.to_bytes(), b"PURGE".to_vec());
    assert_eq!(purge.clone(), purge);
    assert_eq!(Method::DELETE.as_str(), "DELETE");
    assert_eq!(Method::CONNECT.to_bytes(), b"CONNECT".to_vec());
    assert!(Method::from_bytes(b"A-VERY-LONG-EXTENSION-METHOD.WITH!MARKS*+^_`|~").is_ok());
    assert!(Method::PATCH.same(&Method::from_str("PATCH").unwrap()));
}

#[test]
fn status_codes() {
    assert_eq!(StatusCode::from_u16(200).unwrap().as_u16(), 200);
    assert!(StatusCode::from_u16(99).is_err());
    assert!(StatusCode::from_u16(100).is_ok());
    assert!(StatusCode::from_u16(999).is_ok());
    assert!(StatusCode::from_u16(1000).is_err());
    assert!(StatusCode::from_u16(0).is_err());
    let s = StatusCode::from_u16(404).unwrap();
    assert_eq!(s.canonical_reason(), Some("Not Found"));
    assert_eq!(StatusCode::from_u16(200).unwrap().canonical_reason(), Some("OK"));
    assert_eq!(StatusCode::from_u16(999).unwrap().canonical_reason(), None);
    assert!(s.is_client_error());
    assert!(!s.is_success());
    assert!(StatusCode::from_u16(204).unwrap().is_success());
    assert!(StatusCode::from_u16(301).unwrap().is_redirection());
    assert!(StatusCode::from_u16(503).unwrap().is_server_error());
    assert!(StatusCode::from_u16(101).unwrap().is_informational());
    assert_eq!(404u16.to_status_code().map(|s| s.as_u16()), Some(404));
    assert_eq!(42u16.to_status_code(), None);
    assert_eq!(s.to_status_code(), Some(s));
}

#[test]
fn versions() {
    assert_eq!(Version::HTTP_11.to_host(), HttpVersion::Http11);
    assert_eq!(Version::HTTP_2.to_host(), HttpVersion::H2);
    assert_eq!(Version::from_host(HttpVersion::Http09), Version::HTTP_09);
    assert_eq!(Version::from_host(HttpVersion::H3), Version::HTTP_3);
    assert_eq!(HttpVersion::from(Version::HTTP_10), HttpVersion::Http10);
    assert_eq!(HttpVersion::from(Version::HTTP_3).as_u32(), 4);
}

#[test]
fn mimes() {
    assert_eq!(Mime::text_plain_utf_8().as_str(), "text/plain; charset=utf-8");
    assert_eq!(Mime::text_html_utf_8().as_str(), "text/html; charset=utf-8");
    assert_eq!(Mime::application_octet_stream().as_str(), "application/octet-stream");
    assert_eq!(Mime::application_json().as_str(), "application/json");
    assert_eq!(
        Mime::application_www_form_urlencoded().as_str(),
        "application/x-www-form-urlencoded"
    );
    assert_eq!(Mime::from_str("Text/HTML").unwrap().as_str(), "text/html");
    assert_eq!(
        Mime::from_str("text/plain; charset=utf-8").unwrap(),
        Mime::text_plain_utf_8()
    );
    assert!(Mime::from_str("no mime").is_err());
    assert!(Mime::from_str("").is_err());
    assert_eq!(Mime::from_str("image/png").unwrap().to_header_value().as_bytes(), b"image/png");
}

#[test]
fn urls() {
    let url = Url::parse("HTTP://Example.COM/a b?x=1#frag").unwrap();
    assert_eq!(url.as_str(), "http://example.com/a%20b?x=1#frag");
    assert_eq!(url.path(), "/a%20b");
    assert_eq!(url.query(), Some("x=1".to_string()));
    assert_eq!(url.scheme(), "http");
    assert!(url.has_authority());
    assert!(Url::parse("not a url").is_err());
    assert!(Url::parse("").is_err());
    let data = Url::parse("data:text/plain,Stuff").unwrap();
    assert!(!data.has_authority());
    assert_eq!(data.query(), None);
    let mut url = Url::parse("https://example.com/products").unwrap();
    assert!(url.path_fits_exec("api/some comments"));
    url.set_path("api/some comments");
    assert_eq!(url.as_str(), "https://example.com/api/some%20comments");
    assert!(url.query_fits_exec("page=2"));
    url.set_query(Some("page=2"));
    assert_eq!(url.as_str(), "https://example.com/api/some%20comments?page=2");
    assert_eq!(url.query(), Some("page=2".to_string()));
    url.set_query(None);
    assert_eq!(url.as_str(), "https://example.com/api/some%20comments");
    let mut opaque = Url::parse("mailto:a").unwrap();
    opaque.set_path("x ");
    assert_eq!(opaque.as_str(), "mailto:x");
    assert_eq!(opaque.path(), "x");
    assert_eq!(Url::parse(opaque.as_str()).unwrap(), opaque);
    opaque.set_query(Some("q 1"));
    assert_eq!(Url::parse(opaque.as_str()).unwrap(), opaque);
    assert_eq!(opaque.query(), Some("q%201".to_string()));
    assert!(url.same(&url.clone()));
    assert!(!url.same(&data));
    assert_eq!(url.clone().into_string(), "https://example.com/api/some%20comments");
}

#[test]
fn header_maps() {
    let mut m = Headers::new();
    assert_eq!(m.keys_len(), 0);
    assert!(m.check_room());
    assert!(!m.contains_key(&name("a")));
    assert_eq!(m.get(&name("a")), None);
    assert!(m.get_all(&name("a")).is_empty());
    m.append(name("a"), value("1"));
    m.append(name("A"), value("2"));
    m.append(name("b"), value("3"));
    assert_eq!(m.keys_len(), 2);
    assert!(m.contains_key(&name("a")));
    assert_eq!(m.get(&name("a")), Some(value("1")));
    assert_eq!(m.get_all(&name("a")), vec![value("1"), value("2")]);
    let mut keys = m.keys();
    keys.sort_by(|x, y| x.as_bytes().cmp(y.as_bytes()));
    assert_eq!(keys, vec![name("a"), name("b")]);
    m.insert(name("a"), value("9"));
    assert_eq!(m.get_all(&name("a")), vec![value("9")]);
    assert_eq!(m.keys_len(), 2);
    let copy = m.clone();
    assert_eq!(m.remove(&name("a")), Some(value("9")));
    assert_eq!(m.remove(&name("a")), None);
    assert_eq!(m.keys_len(), 1);
    assert_eq!(copy.get_all(&name("a")), vec![value("9")]);
    assert_eq!(copy.keys_len(), 2);
    m.append(name("b"), value("4"));
    assert_eq!(m.remove(&name("b")), Some(value("3")));
    assert_eq!(m.keys_len(), 0);
}

#[test]
fn header_map_room() {
    let mut m = Headers::new();
    for i in 0..6553 {
        assert!(m.check_room());
        m.insert(name(&format!("h{}", i)), value("v"));
    }
    assert_eq!(m.keys_len(), 6553);
    assert!(m.check_room());
    m.insert(name("last"), value("v"));
    assert_eq!(m.keys_len(), 6554);
    assert!(!m.check_room());
}

#[test]
fn conversions() {
    assert_eq!(ToHeaderName::try_into_owned("X-A").map(|n| n.as_str().to_string()), Some("x-a".to_string()));
    assert_eq!(ToHeaderName::try_into_owned("x a"), None);
    assert_eq!(ToHeaderName::try_into_owned("X-A".to_string()), Some(name("x-a")));
    assert_eq!(ToHeaderName::try_into_owned(&b"X-A"[..]), Some(name("x-a")));
    assert_eq!(ToHeaderName::try_into_owned(b"X-A".to_vec()), Some(name("x-a")));
    assert_eq!(ToHeaderName::try_into_owned(&name("x-a")), Some(name("x-a")));
    assert_eq!(ToHeaderName::try_into_owned(name("x-a")), Some(name("x-a")));
    assert_eq!(ToHeaderValue::try_into_owned("v 1"), Some(value("v 1")));
    assert_eq!(ToHeaderValue::try_into_owned("v\n1"), None);
    assert_eq!(ToHeaderValue::try_into_owned("v".to_string()), Some(value("v")));
    assert_eq!(ToHeaderValue::try_into_owned(&b"v"[..]), Some(value("v")));
    assert_eq!(ToHeaderValue::try_into_owned(b"\x01".to_vec()), None);
    assert_eq!(ToHeaderValue::try_into_owned(name("x-a")), Some(value("x-a")));
    assert_eq!(ToHeaderValue::try_into_owned(&value("v")), Some(value("v")));
    assert_eq!(
        ToHeaderValue::try_into_owned(Url::parse("http://a/b").unwrap()),
        Some(value("http://a/b"))
    );
    assert_eq!(ToMethod::try_into_owned("GET"), Some(Method::GET));
    assert_eq!(ToMethod::try_into_owned("G T"), None);
    assert_eq!(ToMethod::try_into_owned("PUT".to_string()), Some(Method::PUT));
    assert_eq!(ToMethod::try_into_owned(&b"HEAD"[..]), Some(Method::HEAD));
    assert_eq!(ToMethod::try_into_owned(b"POST".to_vec()), Some(Method::POST));
    assert_eq!(ToMethod::try_into_owned(&Method::TRACE), Some(Method::TRACE));
    assert_eq!(
        ToUrl::try_into_owned("http://A/").map(|u| u.into_string()),
        Some("http://a/".to_string())
    );
    assert_eq!(ToUrl::try_into_owned("nope"), None);
    assert_eq!(
        ToUrl::try_into_owned("http://a/".to_string()),
        Some(Url::parse("http://a/").unwrap())
    );
    assert_eq!(
        ToUrl::try_into_owned(&Url::parse("http://a/").unwrap()),
        Some(Url::parse("http://a/").unwrap())
    );
    assert_eq!(ToBackend::try_into_owned("origin").map(|b| b.into_string()), Some("origin".to_string()));
    assert_eq!(ToBackend::try_into_owned(""), None);
    assert_eq!(ToBackend::try_into_owned("b\u{7f}".to_string()), None);
}
