use fastly::backend::Backend;
use fastly::http::body::{Body, Utf8Error};
use fastly::http::header::{HeaderName, HeaderValue};
use fastly::http::method::Method;
use fastly::http::mime::{InvalidMime, Mime};
use fastly::http::request::Request;
use fastly::http::response::{FastlyResponseMetadata, Response};
use fastly::http::url::Url;
use fastly::http::version::Version;
use fastly::shared::{FramingHeadersMode, HttpKeepaliveMode};

fn value(s: &str) -> HeaderValue {
    HeaderValue::from_str(s).unwrap()
}

#[test]
fn body_bytes_and_text() {
    let mut body = Body::new();
    assert_eq!(body.len(), 0);
    assert_eq!(body.write_bytes(b"hello"), 5);
    assert_eq!(body.write_str(" w\u{f6}rld"), 7);
    assert_eq!(body.len(), 12);
    body.append(Body::from("!"));
    body.write_front(b">> ");
    assert_eq!(body.clone().into_bytes(), ">> hello w\u{f6}rld!".as_bytes().to_vec());
    assert_eq!(body.clone().into_string(), ">> hello w\u{f6}rld!");
    assert_eq!(body.try_into_string(), Ok(">> hello w\u{f6}rld!".to_string()));
    let bad = Body::from(vec![0x66, 0xff]);
    assert_eq!(bad.clone().try_into_string(), Err(bad));
    assert_eq!(Body::from(&b"ab"[..]).into_bytes(), b"ab".to_vec());
    assert_eq!(Body::from("ab".to_string()).into_bytes(), b"ab".to_vec());
    assert_eq!(Body::from_bytes(b"xy").into_bytes(), b"xy".to_vec());
    assert_eq!(Body::from_str("xy").len(), 2);
}

#[test]
fn body_chunks() {
    let mut body = Body::from("0123456789");
    assert_eq!(
        body.read_chunks(4),
        vec![b"0123".to_vec(), b"4567".to_vec(), b"89".to_vec()]
    );
    assert_eq!(body.len(), 0);
    assert!(body.read_chunks(4).is_empty());
    let mut body = Body::from("01234567");
    assert_eq!(body.read_chunks(4), vec![b"0123".to_vec(), b"4567".to_vec()]);
    let mut body = Body::from("012");
    assert_eq!(body.read_chunks(usize::MAX), vec![b"012".to_vec()]);
    let mut body = Body::from("012");
    assert!(body.read_chunks(0).is_empty());
    assert_eq!(body.len(), 3);
}

#[test]
fn body_prefixes() {
    let mut body = Body::from("hello world");
    let prefix = body.get_prefix_mut(5);
    assert_eq!(prefix.as_slice(), b"hello");
    assert_eq!(body.clone().into_bytes(), b" world".to_vec());
    prefix.put_back(&mut body);
    assert_eq!(body.clone().into_bytes(), b"hello world".to_vec());
    assert_eq!(body.get_prefix_mut(100).take(), b"hello world".to_vec());
    assert_eq!(body.len(), 0);
    assert_eq!(body.try_get_prefix_mut(3).unwrap().take(), Vec::<u8>::new());
}

#[test]
fn body_text_prefixes() {
    // "é" is two bytes, "€" is three
    let mut body = Body::from("a\u{e9}\u{20ac}b");
    assert!(body.prefix_is_text(2));
    let p = body.try_get_prefix_str_mut(2).unwrap();
    assert_eq!(p.as_str(), "a");
    assert_eq!(body.len(), 6);
    p.put_back(&mut body);
    assert_eq!(body.try_get_prefix_str_mut(3).unwrap().take(), "a\u{e9}");
    assert_eq!(body.clone().into_string(), "\u{20ac}b");
    assert_eq!(body.get_prefix_str_mut(2).take(), "");
    assert_eq!(body.len(), 4);
    assert_eq!(body.get_prefix_str_mut(3).take(), "\u{20ac}");
    assert_eq!(body.get_prefix_str_mut(10).take(), "b");
    assert_eq!(body.len(), 0);
    let mut bad = Body::from(vec![b'a', 0xff, b'b']);
    assert!(!bad.prefix_is_text(3));
    assert!(bad.prefix_is_text(1));
    assert_eq!(
        bad.try_get_prefix_str_mut(3).map(|p| p.take()),
        Err(Utf8Error { valid_up_to: 1, error_len: Some(1) })
    );
    assert_eq!(bad.len(), 3);
    assert_eq!(bad.try_get_prefix_str_mut(1).unwrap().take(), "a");
    assert_eq!(bad.len(), 2);
}

#[test]
fn request_construction() {
    let req = Request::new("PURGE", "http://Example.com/x?y=1");
    assert_eq!(req.get_method_str(), "PURGE");
    assert_eq!(req.get_url_str(), "http://example.com/x?y=1");
    assert_eq!(req.get_version(), Version::HTTP_11);
    assert!(!req.has_body());
    assert!(!req.is_from_client());
    assert!(req.get_header_names().is_empty());
    assert!(req.check_header_room());
    assert_eq!(req.get_framing_headers_mode(), FramingHeadersMode::Automatic);
    assert_eq!(req.get_auto_decompress_response(), 0);
    assert!(!req.get_cache_override().is_pass());
    assert_eq!(Request::get("http://a/").get_method(), &Method::GET);
    assert_eq!(Request::head("http://a/").get_method(), &Method::HEAD);
    assert_eq!(Request::post("http://a/").get_method(), &Method::POST);
    assert_eq!(Request::put("http://a/").get_method(), &Method::PUT);
    assert_eq!(Request::delete("http://a/").get_method(), &Method::DELETE);
    assert_eq!(Request::connect("http://a/").get_method(), &Method::CONNECT);
    assert_eq!(Request::options("http://a/").get_method(), &Method::OPTIONS);
    assert_eq!(Request::trace("http://a/").get_method(), &Method::TRACE);
    assert_eq!(Request::patch(Url::parse("http://a/").unwrap()).get_method(), &Method::PATCH);
}

#[test]
fn request_headers() {
    let mut req = Request::get("http://a/")
        .with_header("Accept", "text/html")
        .with_header("accept", "text/plain")
        .with_set_header("X-One", "1");
    assert!(req.contains_header("ACCEPT"));
    assert!(!req.contains_header("missing"));
    assert_eq!(req.get_header_str("accept"), Some("text/html".to_string()));
    assert_eq!(req.get_header_str("missing"), None);
    assert_eq!(req.get_header("x-one"), Some(value("1")));
    assert_eq!(
        req.get_header_all_str("accept"),
        vec!["text/html".to_string(), "text/plain".to_string()]
    );
    assert_eq!(req.get_header_all("accept"), vec![value("text/html"), value("text/plain")]);
    assert!(req.get_header_all("missing").is_empty());
    let mut names = req.get_header_names_str();
    names.sort();
    assert_eq!(names, vec!["accept".to_string(), "x-one".to_string()]);
    let mut pairs: Vec<(String, String)> = req
        .get_headers()
        .iter()
        .map(|(n, v)| (n.as_str().to_string(), v.to_str().unwrap().to_string()))
        .collect();
    pairs.sort();
    assert_eq!(
        pairs,
        vec![
            ("accept".to_string(), "text/html".to_string()),
            ("accept".to_string(), "text/plain".to_string()),
            ("x-one".to_string(), "1".to_string())
        ]
    );
    req.set_header("accept", "*/*");
    assert_eq!(req.get_header_all_str("accept"), vec!["*/*".to_string()]);
    req.append_header(HeaderName::from_static("x-one"), value("2"));
    assert_eq!(req.remove_header("x-one"), Some(value("1")));
    assert_eq!(req.remove_header("x-one"), None);
    assert_eq!(req.remove_header_str("accept"), Some("*/*".to_string()));
    assert_eq!(req.remove_header_str_lossy("accept"), None);
    req.set_header("bin", &b"caf\xe9"[..]);
    assert_eq!(req.get_header_str_lossy("bin"), Some("caf\u{fffd}".to_string()));
    assert_eq!(req.get_header_all_str_lossy("bin"), vec!["caf\u{fffd}".to_string()]);
    assert_eq!(req.remove_header_str_lossy("bin"), Some("caf\u{fffd}".to_string()));
    assert!(req.get_header_names().is_empty());
}

#[test]
fn request_content_headers() {
    let mut req = Request::post("http://a/");
    assert_eq!(req.get_content_type(), None);
    assert_eq!(req.try_get_content_type(), Ok(None));
    assert_eq!(req.get_content_length(), None);
    req.set_body_text_plain("hi");
    assert_eq!(req.get_content_type(), Some(Mime::text_plain_utf_8()));
    assert_eq!(req.get_header_str("content-type"), Some("text/plain; charset=utf-8".to_string()));
    req.set_body_text_html("<p>");
    assert_eq!(req.try_get_content_type(), Ok(Some(Mime::text_html_utf_8())));
    assert_eq!(req.get_header_all("content-type").len(), 1);
    req.set_body_octet_stream(b"\x00\x01");
    assert_eq!(req.get_content_type(), Some(Mime::application_octet_stream()));
    assert_eq!(req.take_body_bytes(), vec![0u8, 1]);
    req.set_content_type(Mime::application_json());
    assert_eq!(req.get_header("content-type"), Some(value("application/json")));
    req.set_header("content-type", "not a mime");
    assert_eq!(req.try_get_content_type(), Err(InvalidMime {}));
    req.set_header("content-length", "42");
    assert_eq!(req.get_content_length(), Some(42));
    req.set_header("content-length", "+7");
    assert_eq!(req.get_content_length(), Some(7));
    req.set_header("content-length", "-7");
    assert_eq!(req.get_content_length(), None);
    req.set_header("content-length", "4 2");
    assert_eq!(req.get_content_length(), None);
    req.set_header("content-length", "");
    assert_eq!(req.get_content_length(), None);
    req.set_header("content-length", "99999999999999999999999999");
    assert_eq!(req.get_content_length(), None);
    let req = Request::get("http://a/").with_content_type(Mime::from_str("image/png").unwrap());
    assert_eq!(req.get_header("content-type"), Some(value("image/png")));
    let req = Request::get("http://a/").with_body_text_plain("x").with_body_text_html("y");
    assert_eq!(req.get_content_type(), Some(Mime::text_html_utf_8()));
    let req = req.with_body_octet_stream(b"z");
    assert_eq!(req.into_body_bytes(), b"z".to_vec());
}

#[test]
fn request_bodies() {
    let mut req = Request::post("http://a/");
    assert_eq!(req.try_take_body(), None);
    assert_eq!(req.take_body().len(), 0);
    assert_eq!(req.take_body_str(), "");
    assert!(!req.has_body());
    req.append_body(Body::from("ab"));
    req.append_body(Body::from("cd"));
    assert!(req.has_body());
    req.get_body_mut().write_str("ef");
    assert_eq!(req.try_get_body_mut().map(|b| b.len()), Some(6));
    let copy = req.clone_with_body();
    let bare = req.clone_without_body();
    assert!(!bare.has_body());
    assert_eq!(bare.try_into_body(), None);
    assert_eq!(copy.into_body_str(), "abcdef");
    assert_eq!(req.get_body_prefix_mut(2).take(), b"ab".to_vec());
    assert_eq!(req.get_body_prefix_str_mut(1).take(), "c");
    assert_eq!(req.try_get_body_prefix_str_mut(1).unwrap().take(), "d");
    assert_eq!(req.read_body_chunks(1), vec![b"e".to_vec(), b"f".to_vec()]);
    assert!(req.has_body());
    assert_eq!(req.take_body_str_lossy(), "");
    assert!(!req.has_body());
    assert!(req.try_get_body_mut().is_none());
    req.ensure_body();
    assert!(req.has_body());
    req.set_body(Body::from(vec![0x61, 0xff]));
    assert_eq!(
        req.try_get_body_prefix_str_mut(2).map(|p| p.take()),
        Err(Utf8Error { valid_up_to: 1, error_len: Some(1) })
    );
    assert_eq!(req.clone_with_body().into_body_str_lossy(), "a\u{fffd}");
    assert_eq!(req.into_body().into_bytes(), vec![0x61, 0xff]);
    let req = Request::get("http://a/").with_body(Body::from("x"));
    assert_eq!(req.try_into_body(), Some(Body::from("x")));
    assert_eq!(Request::get("http://a/").into_body().len(), 0);
}

#[test]
fn request_target() {
    let mut req = Request::get("https://example.com/a?b=c");
    assert_eq!(req.get_path(), "/a");
    assert_eq!(req.get_query_str(), Some("b=c".to_string()));
    req.set_path("/x y");
    assert_eq!(req.get_url_str(), "https://example.com/x%20y?b=c");
    req.set_query_str("q=1&r=2");
    assert_eq!(req.get_url().as_str(), "https://example.com/x%20y?q=1&r=2");
    req.remove_query();
    assert_eq!(req.get_query_str(), None);
    req.get_url_mut().set_query(Some("z"));
    assert_eq!(req.get_url_str(), "https://example.com/x%20y?z");
    req.set_url("http://other/");
    req.set_method("POST");
    req.set_version(Version::HTTP_2);
    assert_eq!(req.get_url_str(), "http://other/");
    assert_eq!(req.get_method(), &Method::POST);
    assert_eq!(req.get_version(), Version::HTTP_2);
    let req = req
        .with_method(Method::PUT)
        .with_url("http://third/p")
        .with_path("/q")
        .with_query_str("k=v")
        .with_version(Version::HTTP_10);
    assert_eq!(req.get_method_str(), "PUT");
    assert_eq!(req.get_url_str(), "http://third/q?k=v");
    assert_eq!(req.get_version(), Version::HTTP_10);
    assert!(req.is_sendable());
    assert!(Request::get("HTTPS://a/").is_sendable());
    assert!(!Request::get("ftp://a/").is_sendable());
    assert!(!Request::get("data:text/plain,x").is_sendable());
    assert!(!Request::get("httpx://a/").is_sendable());
}

#[test]
fn request_cache_and_modes() {
    let mut req = Request::get("http://a/").with_ttl(60).with_pci(true);
    assert_eq!(req.get_cache_override().to_abi(), (2 | 8, 60, 0, None));
    req.set_stale_while_revalidate(5);
    req.set_surrogate_key(value("k"));
    assert_eq!(req.get_cache_override().to_abi(), (2 | 4 | 8, 60, 5, Some(&b"k"[..])));
    req.set_pass(true);
    assert!(req.get_cache_override().is_pass());
    req.set_pass(false);
    assert_eq!(req.get_cache_override().to_abi(), (0, 0, 0, None));
    req.set_ttl(1);
    req.set_pci(false);
    assert_eq!(req.get_cache_override().to_abi(), (2, 1, 0, None));
    let req = Request::get("http://a/")
        .with_pass(true)
        .with_stale_while_revalidate(9)
        .with_surrogate_key(value("s"));
    assert_eq!(req.get_cache_override().to_abi(), (4, 0, 9, Some(&b"s"[..])));
    let mut req = req
        .with_auto_decompress_gzip(true)
        .with_framing_headers_mode(FramingHeadersMode::ManuallyFromHeaders);
    assert_eq!(req.get_auto_decompress_response(), 1);
    assert_eq!(req.get_framing_headers_mode(), FramingHeadersMode::ManuallyFromHeaders);
    req.set_auto_decompress_gzip(false);
    req.set_framing_headers_mode(FramingHeadersMode::Automatic);
    assert_eq!(req.get_auto_decompress_response(), 0);
    assert_eq!(req.client_data(|| 5u32), None);
    req.set_from_client(true);
    assert!(req.is_from_client());
    assert_eq!(req.client_data(|| 5u32), Some(5));
}

#[test]
fn response_construction() {
    let resp = Response::new();
    assert_eq!(resp.get_status().as_u16(), 200);
    assert_eq!(resp.get_version(), Version::HTTP_11);
    assert!(!resp.has_body());
    assert!(!resp.is_from_backend());
    assert_eq!(resp.get_backend_name(), None);
    assert!(resp.get_backend().is_none());
    assert!(resp.get_backend_request().is_none());
    assert_eq!(resp.get_http_keepalive_mode(), HttpKeepaliveMode::Automatic);
    assert_eq!(Response::from_status(404).get_status().as_u16(), 404);
    assert_eq!(Response::from_body(Body::from("x")).into_body_str(), "x");
    let resp = Response::see_other("http://a/");
    assert_eq!(resp.get_status().as_u16(), 303);
    assert_eq!(resp.get_header_str("location"), Some("http://a/".to_string()));
    let resp = Response::redirect("/next");
    assert_eq!(resp.get_status().as_u16(), 308);
    assert_eq!(resp.get_header_all_str("Location"), vec!["/next".to_string()]);
    let resp = Response::temporary_redirect(Url::parse("http://b/").unwrap());
    assert_eq!(resp.get_status().as_u16(), 307);
    assert_eq!(resp.get_header("location"), Some(value("http://b/")));
    let mut resp = resp
        .with_status(500)
        .with_version(Version::HTTP_3)
        .with_http_keepalive_mode(HttpKeepaliveMode::NoKeepalive)
        .with_framing_headers_mode(FramingHeadersMode::ManuallyFromHeaders);
    assert_eq!(resp.get_status().as_u16(), 500);
    assert_eq!(resp.get_version(), Version::HTTP_3);
    assert_eq!(resp.get_http_keepalive_mode(), HttpKeepaliveMode::NoKeepalive);
    assert_eq!(resp.get_framing_headers_mode(), FramingHeadersMode::ManuallyFromHeaders);
    resp.set_status(201);
    resp.set_version(Version::HTTP_11);
    resp.set_http_keepalive_mode(HttpKeepaliveMode::Automatic);
    resp.set_framing_headers_mode(FramingHeadersMode::Automatic);
    assert_eq!(resp.get_status().as_u16(), 201);
    assert_eq!(resp.get_version(), Version::HTTP_11);
}

#[test]
fn response_headers_and_body() {
    let mut resp = Response::new()
        .with_header("set-cookie", "a=1")
        .with_header("set-cookie", "b=2")
        .with_set_header("x", "y")
        .with_body_text_plain("hello");
    assert!(resp.contains_header("Set-Cookie"));
    assert_eq!(resp.get_header_all_str("set-cookie"), vec!["a=1".to_string(), "b=2".to_string()]);
    assert_eq!(resp.get_header_str("set-cookie"), Some("a=1".to_string()));
    assert_eq!(resp.get_content_type(), Some(Mime::text_plain_utf_8()));
    assert_eq!(resp.get_content_length(), None);
    assert_eq!(resp.get_header_names().len(), 3);
    assert_eq!(resp.get_headers().len(), 4);
    assert_eq!(resp.remove_header_str("set-cookie"), Some("a=1".to_string()));
    assert_eq!(resp.get_header_names_str().len(), 2);
    resp.append_header("content-length", "5");
    assert_eq!(resp.get_content_length(), Some(5));
    assert_eq!(resp.get_body_prefix_mut(2).take(), b"he".to_vec());
    resp.get_body_mut().write_front(b"HE");
    let copy = resp.clone_with_body();
    assert_eq!(copy.into_body_str(), "HEllo");
    assert!(!resp.clone_without_body().has_body());
    assert_eq!(resp.take_body_str(), "HEllo");
    assert!(!resp.has_body());
    resp.set_body_text_html("<b>");
    assert_eq!(resp.try_get_content_type(), Ok(Some(Mime::text_html_utf_8())));
    resp.set_body_octet_stream(b"\x01");
    assert_eq!(resp.read_body_chunks(8), vec![vec![1u8]]);
    resp.set_body(Body::from("q"));
    resp.append_body(Body::from("r"));
    assert_eq!(resp.try_take_body(), Some(Body::from("qr")));
    assert_eq!(resp.into_body_bytes(), Vec::<u8>::new());
}

#[test]
fn response_metadata() {
    let sent = Request::get("http://a/").with_body(Body::from("sent body"));
    let md = FastlyResponseMetadata::new(Backend::from_name("origin").unwrap(), sent);
    assert_eq!(md.backend().map(|b| b.name()), Some("origin"));
    assert!(md.sent_req().unwrap().has_body());
    let mut resp = Response::new();
    resp.set_fastly_metadata(md);
    assert!(resp.is_from_backend());
    assert_eq!(resp.get_backend_name(), Some("origin"));
    assert_eq!(resp.get_backend_request().map(|r| r.get_url_str()), Some("http://a/"));
    let copy = resp.clone_without_body();
    assert!(!copy.get_backend_request().unwrap().has_body());
    assert_eq!(copy.get_backend_name(), Some("origin"));
    let taken = resp.take_backend_request().unwrap();
    assert_eq!(taken.into_body_str(), "sent body");
    assert!(resp.take_backend_request().is_none());
    assert!(resp.is_from_backend());
    assert_eq!(resp.get_backend_name(), Some("origin"));
}
