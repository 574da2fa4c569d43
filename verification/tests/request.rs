use aws_smithy_runtime_api::client::orchestrator::HttpRequest;
use aws_smithy_types::body::SdkBody;
use presigning::headers::drop_host;
use presigning::headers::is_host_name;
use presigning::method::fits_http02x;
use presigning::wire::MAX_HEADER_VALUES;
use presigning::PresignedRequest;
use presigning::PresignedRequestError;

const SIGNED_URI: &str = "https://example.com/object?X-Signature=abc";

fn signed_get() -> HttpRequest {
    let mut request = HttpRequest::get(SIGNED_URI).unwrap();
    request.headers_mut().insert("x-amz-date", "20240101T000000Z");
    request
}

fn handle_of(request: HttpRequest) -> PresignedRequest {
    match PresignedRequest::new(request) {
        Ok(handle) => handle,
        Err(error) => panic!("no handle: {:?}", error),
    }
}

fn error_of(request: HttpRequest) -> PresignedRequestError {
    match PresignedRequest::new(request) {
        Ok(handle) => panic!("a handle on {} {}", handle.method(), handle.uri()),
        Err(error) => error,
    }
}

fn with_values(n: usize) -> HttpRequest {
    let mut request = HttpRequest::get("https://example.com/").unwrap();
    for i in 0..n {
        request.headers_mut().append("x-many", format!("v{}", i));
    }
    request
}

#[test]
fn handle_shows_method_uri_and_headers() {
    let handle = handle_of(signed_get());
    assert_eq!(handle.method(), "GET");
    assert_eq!(handle.uri(), "https://example.com/object?X-Signature=abc");
    assert_eq!(handle.headers(), vec![("x-amz-date", "20240101T000000Z")]);
}

#[test]
fn duplicate_shows_the_same_and_converts_with_the_given_body() {
    let handle = handle_of(signed_get());
    let duplicate = handle.clone();
    assert_eq!(duplicate.method(), handle.method());
    assert_eq!(duplicate.uri(), handle.uri());
    assert_eq!(duplicate.headers(), handle.headers());
    assert_eq!(duplicate.method(), "GET");
    assert_eq!(duplicate.uri(), SIGNED_URI);
    assert_eq!(duplicate.headers(), vec![("x-amz-date", "20240101T000000Z")]);

    let outbound = duplicate.into_http_02x_request("the payload");
    assert_eq!(outbound.method(), http::Method::GET);
    assert_eq!(outbound.method().as_str(), "GET");
    assert_eq!(outbound.uri().to_string(), SIGNED_URI);
    assert_eq!(*outbound.body(), "the payload");
    assert_eq!(outbound.headers().len(), 1);
    assert_eq!(outbound.headers().get("x-amz-date").unwrap(), "20240101T000000Z");
}

#[test]
fn make_request_leaves_the_handle_usable() {
    let handle = handle_of(signed_get());
    let first = handle.make_http_02x_request(vec![1u8, 2, 3]);
    let second = handle.make_http_02x_request(String::from("again"));
    assert_eq!(first.body(), &vec![1u8, 2, 3]);
    assert_eq!(second.body(), "again");
    assert_eq!(first.uri(), second.uri());
    assert_eq!(first.method(), second.method());
    assert_eq!(first.headers(), second.headers());
    assert_eq!(handle.uri(), SIGNED_URI);
}

#[test]
fn round_trip_with_an_empty_body() {
    let handle = handle_of(signed_get());
    let outbound = handle.make_http_02x_request(SdkBody::empty());
    assert_eq!(outbound.method().as_str(), handle.method());
    assert_eq!(outbound.uri().to_string(), handle.uri());
    let rederived: Vec<(&str, &str)> =
        outbound.headers().iter().map(|(name, value)| (name.as_str(), value.to_str().unwrap())).collect();
    assert_eq!(rederived, handle.headers());
    assert_eq!(outbound.body().bytes(), Some(&b""[..]));
}

#[test]
fn round_trip_through_the_runtime_request() {
    let handle = handle_of(signed_get());
    let outbound = handle.make_http_02x_request(SdkBody::empty());
    let back = HttpRequest::try_from(outbound).unwrap();
    assert_eq!(back.method(), handle.method());
    assert_eq!(back.uri(), handle.uri());
    let again = handle_of(back);
    assert_eq!(again.headers(), handle.headers());
}

#[test]
fn the_body_of_the_signed_request_is_not_kept() {
    let mut request = HttpRequest::new(SdkBody::from("secret payload"));
    request.set_uri(SIGNED_URI).unwrap();
    request.set_method("PUT").unwrap();
    let handle = handle_of(request);
    assert_eq!(handle.method(), "PUT");
    let outbound = handle.make_http_02x_request(SdkBody::empty());
    assert_eq!(outbound.body().bytes(), Some(&b""[..]));
    let outbound = handle.into_http_02x_request(());
    assert_eq!(outbound.method().as_str(), "PUT");
}

#[test]
fn a_body_that_cannot_be_made_again_does_not_matter() {
    let mut request = HttpRequest::new(SdkBody::taken());
    request.set_uri(SIGNED_URI).unwrap();
    assert!(request.try_clone().is_none());
    let handle = handle_of(request);
    let duplicate = handle.clone();
    assert_eq!(duplicate.uri(), SIGNED_URI);
    let _ = duplicate.into_http_02x_request("body");
    let _ = handle.into_http_02x_request("body");
}

#[test]
fn headers_come_in_stored_order_with_every_value() {
    let mut request = HttpRequest::get(SIGNED_URI).unwrap();
    request.headers_mut().insert("x-amz-date", "20240101T000000Z");
    request.headers_mut().insert("content-type", "text/plain");
    request.headers_mut().append("x-amz-meta", "one");
    request.headers_mut().append("x-amz-meta", "two");
    request.headers_mut().insert("authorization", "AWS4-HMAC-SHA256 Credential=abc");
    let expected = vec![
        ("x-amz-date", "20240101T000000Z"),
        ("content-type", "text/plain"),
        ("x-amz-meta", "one"),
        ("x-amz-meta", "two"),
        ("authorization", "AWS4-HMAC-SHA256 Credential=abc"),
    ];
    let collected: Vec<(&str, &str)> = request.headers().iter().collect();
    assert_eq!(collected, expected);
    let handle = handle_of(request);
    assert_eq!(handle.headers(), expected);
    assert_eq!(handle.headers().len(), 5);
}

#[test]
fn no_header_is_added_for_the_host() {
    let handle = handle_of(signed_get());
    assert!(handle.headers().iter().all(|(name, _)| !name.eq_ignore_ascii_case("host")));
    let bare = handle_of(HttpRequest::get("https://example.com/").unwrap());
    assert_eq!(bare.headers(), Vec::<(&str, &str)>::new());
}

#[test]
fn reading_twice_gives_the_same() {
    let handle = handle_of(signed_get());
    let first = handle.headers();
    let second = handle.headers();
    assert_eq!(first, second);
    assert_eq!(handle.method(), handle.method());
    assert_eq!(handle.uri(), handle.uri());
    let a = handle.clone();
    let b = handle.clone();
    let c = a.clone();
    assert_eq!(a.headers(), b.headers());
    assert_eq!(c.headers(), handle.headers());
    assert_eq!(a.uri(), b.uri());
    assert_eq!(c.method(), handle.method());
    assert_eq!(handle.headers(), first);
}

#[test]
fn duplicates_are_independent() {
    let handle = handle_of(signed_get());
    let duplicate = handle.clone();
    let _ = handle.into_http_02x_request("gone");
    assert_eq!(duplicate.method(), "GET");
    assert_eq!(duplicate.uri(), SIGNED_URI);
    assert_eq!(duplicate.headers(), vec![("x-amz-date", "20240101T000000Z")]);
}

#[test]
fn extensions_do_not_stand_in_the_way() {
    let mut request = signed_get();
    request.add_extension(5u32);
    let handle = handle_of(request);
    let outbound = handle.make_http_02x_request("body");
    assert_eq!(outbound.uri().to_string(), SIGNED_URI);
    let _ = handle.into_http_02x_request("body");
}

#[test]
fn method_with_a_character_that_http02x_refuses_is_unsupported() {
    let mut request = signed_get();
    request.set_method("PRE#SIGN").unwrap();
    assert!(matches!(error_of(request), PresignedRequestError::UnsupportedMethod));
}

#[test]
fn custom_method_is_kept() {
    let mut request = signed_get();
    request.set_method("PROPFIND").unwrap();
    let handle = handle_of(request);
    assert_eq!(handle.method(), "PROPFIND");
    assert_eq!(handle.into_http_02x_request(()).method().as_str(), "PROPFIND");
}

#[test]
fn uri_that_http02x_refuses_gives_the_conversion_error() {
    let request = HttpRequest::get("http://foo.com/\u{80}").unwrap();
    match error_of(request) {
        PresignedRequestError::Conversion(error) => {
            assert_eq!(error.to_string(), "endpoint is not a valid URI")
        }
        other => panic!("{:?}", other),
    }
}

#[test]
fn too_many_header_values_are_refused() {
    assert!(matches!(
        error_of(with_values(MAX_HEADER_VALUES + 1)),
        PresignedRequestError::TooManyHeaders
    ));
}

#[test]
fn as_many_header_values_as_allowed_convert() {
    assert_eq!(MAX_HEADER_VALUES, 6553);
    let handle = handle_of(with_values(MAX_HEADER_VALUES));
    assert_eq!(handle.headers().len(), 6553);
    let outbound = handle.into_http_02x_request(());
    assert_eq!(outbound.headers().len(), 6553);
}

#[test]
fn unsupported_method_is_reported_before_too_many_headers() {
    let mut request = with_values(MAX_HEADER_VALUES + 1);
    request.set_method("A'B").unwrap();
    assert!(matches!(error_of(request), PresignedRequestError::UnsupportedMethod));
}

#[test]
fn methods_of_http02x() {
    for method in ["GET", "PUT", "POST", "HEAD", "PATCH", "TRACE", "DELETE", "OPTIONS", "CONNECT"] {
        assert!(fits_http02x(method), "{}", method);
    }
    assert!(fits_http02x("QUERY"));
    assert!(fits_http02x("get"));
    assert!(fits_http02x("M-SEARCH"));
    assert!(fits_http02x("!*+-.^_`|~09azAZ"));
    assert!(fits_http02x("A-METHOD-OF-MORE-THAN-FIFTEEN-CHARACTERS"));
}

#[test]
fn texts_that_are_no_method_of_http02x() {
    assert!(!fits_http02x(""));
    for c in ["#", "$", "%", "&", "'"] {
        assert!(!fits_http02x(c), "{}", c);
        assert!(!fits_http02x(&format!("GET{}", c)), "{}", c);
    }
    for method in ["GET ", " GET", "G T", "GET\n", "GÉT", "GET/", "G(T", "G)T", "G,T", "G:T", "G;T", "G<T", "G=T", "G>T", "G?T", "G@T", "G[T", "G\\T", "G]T", "G{T", "G}T", "G\"T", "GET\u{7f}", "GET\0"] {
        assert!(!fits_http02x(method), "{:?}", method);
    }
}

#[test]
fn fits_http02x_agrees_with_http02x() {
    for code in 0u8..=127 {
        let text = String::from(code as char);
        assert_eq!(
            fits_http02x(&text),
            http::Method::from_bytes(text.as_bytes()).is_ok(),
            "code {}",
            code
        );
        let longer = format!("AB{}", text);
        assert_eq!(
            fits_http02x(&longer),
            http::Method::from_bytes(longer.as_bytes()).is_ok(),
            "code {}",
            code
        );
    }
    for text in ["é", "GÉT", "\u{80}", "方法"] {
        assert_eq!(fits_http02x(text), http::Method::from_bytes(text.as_bytes()).is_ok());
    }
}

#[test]
fn debug_text_names_method_uri_and_headers() {
    let handle = handle_of(signed_get());
    assert_eq!(
        handle.to_debug_string(),
        "PresignedRequest { method: \"GET\", uri: \"https://example.com/object?X-Signature=abc\", headers: {\"x-amz-date\": \"20240101T000000Z\"} }"
    );
    assert_eq!(handle.clone().to_debug_string(), handle.to_debug_string());
}

#[test]
fn debug_text_shows_no_body_and_no_credentials() {
    let mut request = HttpRequest::new(SdkBody::from("secret payload"));
    request.set_uri(SIGNED_URI).unwrap();
    request.headers_mut().insert("authorization", "AWS4-HMAC-SHA256 Credential=abc");
    let text = handle_of(request).to_debug_string();
    assert!(!text.contains("body"), "{}", text);
    assert!(!text.contains("secret payload"), "{}", text);
    assert!(!text.contains("Credential=abc"), "{}", text);
    assert!(text.starts_with("PresignedRequest { method: \"GET\", uri: "), "{}", text);
    assert!(text.contains("\"authorization\""), "{}", text);
    assert!(text.ends_with(" }"), "{}", text);
}

#[test]
fn debug_text_escapes_what_it_quotes() {
    let handle = handle_of(HttpRequest::get("https://example.com/a\"b").unwrap());
    assert_eq!(handle.uri(), "https://example.com/a\"b");
    assert_eq!(
        handle.to_debug_string(),
        "PresignedRequest { method: \"GET\", uri: \"https://example.com/a\\\"b\", headers: {} }"
    );
}

#[test]
fn a_host_header_is_not_enumerated() {
    let mut request = HttpRequest::get(SIGNED_URI).unwrap();
    request.headers_mut().insert("x-amz-date", "20240101T000000Z");
    request.headers_mut().insert("host", "example.com");
    request.headers_mut().insert("x-amz-meta", "one");
    request.headers_mut().append("x-amz-meta", "two");
    request.headers_mut().insert("range", "bytes=0-9");
    let stored: Vec<(&str, &str)> = request.headers().iter().collect();
    assert_eq!(stored.len(), 5);
    assert_eq!(stored[1], ("host", "example.com"));
    let handle = handle_of(request);
    assert_eq!(
        handle.headers(),
        vec![
            ("x-amz-date", "20240101T000000Z"),
            ("x-amz-meta", "one"),
            ("x-amz-meta", "two"),
            ("range", "bytes=0-9"),
        ]
    );
    assert_eq!(handle.clone().headers(), handle.headers());
}

#[test]
fn a_host_header_in_capitals_is_not_enumerated() {
    let mut request = HttpRequest::get(SIGNED_URI).unwrap();
    request.headers_mut().insert("Host", "example.com");
    request.headers_mut().insert("X-Amz-Date", "20240101T000000Z");
    let handle = handle_of(request);
    assert_eq!(handle.headers(), vec![("x-amz-date", "20240101T000000Z")]);
}

#[test]
fn header_values_that_are_no_text_are_not_enumerated() {
    let outbound = http::Request::builder()
        .uri(SIGNED_URI)
        .header("x-first", "one")
        .header("x-bytes", http::HeaderValue::from_bytes(&[0xff, 0xfe]).unwrap())
        .header("x-last", "three")
        .body(SdkBody::empty())
        .unwrap();
    let request = HttpRequest::try_from(outbound).unwrap();
    assert_eq!(request.headers().len(), 3);
    let handle = handle_of(request);
    assert_eq!(handle.headers(), vec![("x-first", "one"), ("x-last", "three")]);
    let converted = handle.into_http_02x_request(());
    assert_eq!(converted.headers().len(), 3);
    assert_eq!(converted.headers().get("x-bytes").unwrap().as_bytes(), &[0xff, 0xfe]);
}

#[test]
fn names_of_the_host_header() {
    for name in ["host", "Host", "HOST", "hOsT", "hosT"] {
        assert!(is_host_name(name), "{}", name);
    }
    for name in [
        "", "hos", "hosts", "host ", " host", "h0st", "x-host", "hôst", "ho\u{17f}t", "most",
        "hose", ":authority",
    ] {
        assert!(!is_host_name(name), "{:?}", name);
    }
}

#[test]
fn dropping_the_host_header_keeps_the_others_in_order() {
    assert_eq!(drop_host(Vec::new()), Vec::<(&str, &str)>::new());
    assert_eq!(drop_host(vec![("host", "a")]), Vec::<(&str, &str)>::new());
    assert_eq!(drop_host(vec![("a", "1"), ("b", "2")]), vec![("a", "1"), ("b", "2")]);
    assert_eq!(
        drop_host(vec![
            ("Host", "x"),
            ("b", "2"),
            ("host", "y"),
            ("a", "1"),
            ("b", "3"),
            ("HOST", "z")
        ]),
        vec![("b", "2"), ("a", "1"), ("b", "3")]
    );
    assert_eq!(
        drop_host(vec![("a", "host"), ("hosts", "host")]),
        vec![("a", "host"), ("hosts", "host")]
    );
}

#[test]
fn the_converted_request_has_the_uri_as_http02x_reads_it() {
    let handle = handle_of(HttpRequest::get("https://example.com").unwrap());
    assert_eq!(handle.uri(), "https://example.com");
    let first = handle.make_http_02x_request(());
    let second = handle.into_http_02x_request(());
    assert_eq!(first.uri().to_string(), "https://example.com/");
    assert_eq!(second.uri().to_string(), first.uri().to_string());
    assert_eq!(second.uri(), first.uri());
}

#[test]
fn the_converted_request_carries_every_stored_header() {
    let mut request = HttpRequest::get(SIGNED_URI).unwrap();
    request.headers_mut().insert("x-amz-date", "20240101T000000Z");
    request.headers_mut().insert("host", "example.com");
    request.headers_mut().append("x-amz-meta", "one");
    request.headers_mut().append("x-amz-meta", "two");
    let handle = handle_of(request);
    assert_eq!(handle.headers().len(), 3);
    let first = handle.make_http_02x_request("a");
    let second = handle.into_http_02x_request("b");
    let entries: Vec<(&str, &[u8])> =
        first.headers().iter().map(|(name, value)| (name.as_str(), value.as_bytes())).collect();
    assert_eq!(
        entries,
        vec![
            ("x-amz-date", &b"20240101T000000Z"[..]),
            ("host", &b"example.com"[..]),
            ("x-amz-meta", &b"one"[..]),
            ("x-amz-meta", &b"two"[..]),
        ]
    );
    assert_eq!(first.headers(), second.headers());
    assert_eq!(*first.body(), "a");
    assert_eq!(*second.body(), "b");
    assert_eq!(first.method().as_str(), "GET");
    assert_eq!(second.method().as_str(), "GET");
}
