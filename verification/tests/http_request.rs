use http_server::http_request::{
    Encoding, HTTPMethodError, HTTPPathError, HTTPRequestLineError, HTTPVersionError, Host,
    RequestBody, RequestBodyError, RequestHeader, RequestHeaderError, RequestLine, RequestMethod,
    RequestParts, RequestPath, RequestVersion, UserAgent,
};

#[test]
fn test_request_header_from_valid_str() {
    let request_str = "GET / HTTP/1.1\r\nHost: example.com\r\nUser-Agent: TestAgent\r\n\r\n";
    let header = RequestHeader::from_str(request_str).unwrap();
    assert_eq!(header._host().unwrap().as_str(), "example.com");
    assert_eq!(header.user_agent().unwrap().as_str(), "TestAgent");
}

#[test]
fn test_request_header_from_str_without_host() {
    let request_str = "GET / HTTP/1.1\r\nUser-Agent: TestAgent\r\n\r\n";
    let header = RequestHeader::from_str(request_str).unwrap();
    assert!(header._host().is_none());
    assert_eq!(header.user_agent().unwrap().as_str(), "TestAgent");
}

#[test]
fn test_request_header_from_str_without_user_agent() {
    let request_str = "GET / HTTP/1.1\r\nHost: example.com\r\n\r\n";
    let header = RequestHeader::from_str(request_str).unwrap();
    assert_eq!(header._host().unwrap().as_str(), "example.com");
    assert!(header.user_agent().is_none());
}

#[test]
fn test_request_header_from_str_with_empty_host() {
    let request_str = "GET / HTTP/1.1\r\nHost: \r\nUser-Agent: TestAgent\r\n\r\n";
    let result = RequestHeader::from_str(request_str);
    assert!(matches!(result, Err(RequestHeaderError::InvalidHost)));
}

#[test]
fn test_request_header_from_str_with_empty_user_agent() {
    let request_str = "GET / HTTP/1.1\r\nHost: example.com\r\nUser-Agent: \r\n\r\n";
    let result = RequestHeader::from_str(request_str);
    assert!(matches!(result, Err(RequestHeaderError::InvalidUserAgent)));
}

#[test]
fn test_request_line_from_valid_str() {
    let request_str = "GET / HTTP/1.1";
    let request_line = RequestLine::from_str(request_str).unwrap();
    assert_eq!(request_line.method(), &RequestMethod::Get);
    assert_eq!(request_line.path().as_str(), "/");
    assert_eq!(request_line.version().as_str(), "1.1");
}

#[test]
fn test_request_line_from_str_with_invalid_method() {
    let request_str = "INVALID / HTTP/1.1";
    let result = RequestLine::from_str(request_str);
    assert!(matches!(
        result,
        Err(HTTPRequestLineError::HTTPMethodError(
            HTTPMethodError::InvalidHTTPMethod(_)
        ))
    ));
}

#[test]
fn test_request_line_from_str_with_missing_path() {
    let request_str = "GET HTTP/1.1";
    let result = RequestLine::from_str(request_str);
    assert!(matches!(result, Err(HTTPRequestLineError::MissingPath(_))));
}

#[test]
fn test_request_line_from_str_with_missing_version() {
    let request_str = "GET /";
    let result = RequestLine::from_str(request_str);
    assert!(matches!(
        result,
        Err(HTTPRequestLineError::MissingVersion(_))
    ));
}

#[test]
fn test_request_path_from_valid_str() {
    let path_str = "/test/path";
    let path = RequestPath::from_str(path_str).unwrap();
    assert_eq!(path.as_str(), "/test/path");
}

#[test]
fn test_request_path_from_str_without_leading_slash() {
    let path_str = "test/path";
    let result = RequestPath::from_str(path_str);
    assert!(matches!(result, Err(HTTPPathError::InvalidHTTPPath(_))));
}

#[test]
fn test_request_version_from_valid_str() {
    let version_str = "HTTP/1.1";
    let version = RequestVersion::from_str(version_str).unwrap();
    assert_eq!(version.as_str(), "1.1");
}

#[test]
fn test_request_version_from_str_without_http_prefix() {
    let version_str = "1.1";
    let result = RequestVersion::from_str(version_str);
    assert!(matches!(
        result,
        Err(HTTPVersionError::InvalidHTTPVersionFormat(_))
    ));
}

#[test]
fn test_request_version_from_str_without_version_number() {
    let version_str = "HTTP/";
    let result = RequestVersion::from_str(version_str);
    assert!(matches!(
        result,
        Err(HTTPVersionError::MissingVersionNumber(_))
    ));
}

#[test]
fn test_display_host() {
    let host = Host::new("example.com".to_string());
    assert_eq!(host.to_string(), "example.com");
}

#[test]
fn test_display_user_agent() {
    let user_agent = UserAgent::new("TestAgent".to_string());
    assert_eq!(user_agent.to_string(), "TestAgent");
}

#[test]
fn test_display_request_method() {
    let method = RequestMethod::Get;
    assert_eq!(method.to_string(), "GET");
}

#[test]
fn test_display_request_path() {
    let path = RequestPath::from_str("/test/path").unwrap();
    assert_eq!(path.to_string(), "/test/path");
}

#[test]
fn method_is_matched_in_any_case() {
    assert_eq!(RequestMethod::from_str("get"), Ok(RequestMethod::Get));
    assert_eq!(RequestMethod::from_str("GeT"), Ok(RequestMethod::Get));
    assert_eq!(RequestMethod::from_str("POST"), Ok(RequestMethod::Post));
    assert_eq!(RequestMethod::from_str("pOsT"), Ok(RequestMethod::Post));
    assert_eq!(RequestMethod::Post.to_string(), "POST");
}

#[test]
fn invalid_method_is_reported_in_lower_case() {
    assert_eq!(
        RequestMethod::from_str("PUT"),
        Err(HTTPMethodError::InvalidHTTPMethod("put".to_string()))
    );
    assert_eq!(
        RequestMethod::from_str(""),
        Err(HTTPMethodError::InvalidHTTPMethod(String::new()))
    );
    assert_eq!(
        RequestMethod::from_str("ge\u{212A}"),
        Err(HTTPMethodError::InvalidHTTPMethod("gek".to_string()))
    );
    assert_eq!(
        RequestMethod::from_str("\u{c9}CHO"),
        Err(HTTPMethodError::InvalidHTTPMethod("\u{e9}cho".to_string()))
    );
}

#[test]
fn no_letter_outside_ascii_turns_into_a_letter_of_a_method_name() {
    let mut n: u32 = 0x80;
    while n <= 0x10FFFF {
        if let Some(c) = char::from_u32(n) {
            assert!(c.to_lowercase().any(|l| !"getpos".contains(l)));
        }
        n += 1;
    }
    for token in ["ge\u{212A}", "g\u{c9}t", "p\u{d6}st", "\u{3a3}get", "get\u{3a3}"] {
        assert!(RequestMethod::from_str(token).is_err());
        assert_ne!(token.to_lowercase(), "get");
        assert_ne!(token.to_lowercase(), "post");
    }
}

#[test]
fn invalid_path_is_reported_with_a_sentence() {
    assert_eq!(
        RequestPath::from_str("test/path"),
        Err(HTTPPathError::InvalidHTTPPath(
            "Path 'test/path' does not start with '/'".to_string()
        ))
    );
    assert_eq!(
        RequestPath::from_str(""),
        Err(HTTPPathError::InvalidHTTPPath(
            "Path '' does not start with '/'".to_string()
        ))
    );
}

#[test]
fn path_is_kept_as_it_was_sent() {
    let path = RequestPath::from_str("/a/../b%20c/./").unwrap();
    assert_eq!(path.as_str(), "/a/../b%20c/./");
}

#[test]
fn version_errors_hold_the_token() {
    assert_eq!(
        RequestVersion::from_str("http/1.1"),
        Err(HTTPVersionError::InvalidHTTPVersionFormat("http/1.1".to_string()))
    );
    assert_eq!(
        RequestVersion::from_str("HTTP/ \t"),
        Err(HTTPVersionError::MissingVersionNumber("HTTP/ \t".to_string()))
    );
}

#[test]
fn version_is_not_held_to_exist() {
    assert_eq!(RequestVersion::from_str("HTTP/banana").unwrap().as_str(), "banana");
    assert_eq!(RequestVersion::from_str("HTTP/1.1 \r\n").unwrap().as_str(), "1.1");
    assert_eq!(RequestVersion::from_str("HTTP/1 .1").unwrap().as_str(), "1 .1");
}

#[test]
fn request_line_errors_hold_the_line() {
    assert_eq!(
        RequestLine::from_str(""),
        Err(HTTPRequestLineError::MissingMethod(String::new()))
    );
    assert_eq!(
        RequestLine::from_str(" \t "),
        Err(HTTPRequestLineError::MissingMethod(" \t ".to_string()))
    );
    assert_eq!(
        RequestLine::from_str("GET"),
        Err(HTTPRequestLineError::MissingPath("GET".to_string()))
    );
    assert_eq!(
        RequestLine::from_str("GET HTTP/1.1"),
        Err(HTTPRequestLineError::MissingPath("GET HTTP/1.1".to_string()))
    );
    assert_eq!(
        RequestLine::from_str("GET /"),
        Err(HTTPRequestLineError::MissingVersion("GET /".to_string()))
    );
}

#[test]
fn a_missing_token_is_reported_before_an_invalid_method() {
    assert_eq!(
        RequestLine::from_str("INVALID /"),
        Err(HTTPRequestLineError::MissingVersion("INVALID /".to_string()))
    );
    assert_eq!(
        RequestLine::from_str("INVALID nowhere HTTP/1.1"),
        Err(HTTPRequestLineError::MissingPath(
            "INVALID nowhere HTTP/1.1".to_string()
        ))
    );
    assert_eq!(
        RequestLine::from_str("INVALID / 1.1"),
        Err(HTTPRequestLineError::HTTPMethodError(
            HTTPMethodError::InvalidHTTPMethod("invalid".to_string())
        ))
    );
}

#[test]
fn request_line_version_errors() {
    assert_eq!(
        RequestLine::from_str("GET / 1.1"),
        Err(HTTPRequestLineError::HTTPVersionError(
            HTTPVersionError::InvalidHTTPVersionFormat("1.1".to_string())
        ))
    );
    assert_eq!(
        RequestLine::from_str("GET / HTTP/"),
        Err(HTTPRequestLineError::HTTPVersionError(
            HTTPVersionError::MissingVersionNumber("HTTP/".to_string())
        ))
    );
}

#[test]
fn valid_request_lines_round_trip() {
    for method in ["GET", "get", "Post", "POST"] {
        for path in ["/", "/echo/abc", "/files/a/b.txt", "/\u{e9}t\u{e9}?x=1"] {
            for version in ["HTTP/1.1", "HTTP/2", "HTTP/x"] {
                let line = format!("{method} {path} {version}");
                let parsed = RequestLine::from_str(&line).unwrap();
                let expected = if method.eq_ignore_ascii_case("get") {
                    RequestMethod::Get
                } else {
                    RequestMethod::Post
                };
                assert_eq!(parsed.method(), &expected);
                assert_eq!(parsed.path().as_str(), path);
                assert_eq!(parsed.version().as_str(), &version[5..]);
            }
        }
    }
}

#[test]
fn request_line_takes_any_white_space_between_tokens() {
    let parsed = RequestLine::from_str("  POST\t/files/x \u{a0} HTTP/1.0  extra tokens").unwrap();
    assert_eq!(parsed.method(), &RequestMethod::Post);
    assert_eq!(parsed.path().as_str(), "/files/x");
    assert_eq!(parsed.version().as_str(), "1.0");
}

#[test]
fn empty_header_has_nothing() {
    let header = RequestHeader::_empty();
    assert!(header._host().is_none());
    assert!(header.user_agent().is_none());
    assert!(header.accept_encoding().is_empty());
}

#[test]
fn unknown_headers_are_passed_over() {
    let header = RequestHeader::from_str("X-Other: \r\nhost: lower\r\nAccept: */*\r\n").unwrap();
    assert_eq!(header, RequestHeader::_empty());
    assert_eq!(RequestHeader::from_str("").unwrap(), RequestHeader::_empty());
    assert_eq!(RequestHeader::from_str("\r\n").unwrap(), RequestHeader::_empty());
}

#[test]
fn headers_are_found_in_any_order() {
    let header =
        RequestHeader::from_str("Accept-Encoding: gzip\nUser-Agent: a b\r\nHost: h:1\n").unwrap();
    assert_eq!(header._host().unwrap().as_str(), "h:1");
    assert_eq!(header.user_agent().unwrap().as_str(), "a b");
    assert_eq!(header.accept_encoding(), &[Encoding::Gzip]);
}

#[test]
fn the_first_line_of_a_header_decides() {
    let header = RequestHeader::from_str("Host: first\r\nHost: second\r\nHost: \r\n").unwrap();
    assert_eq!(header._host().unwrap().as_str(), "first");
    assert_eq!(
        RequestHeader::from_str("Host: \r\nHost: second\r\n"),
        Err(RequestHeaderError::InvalidHost)
    );
}

#[test]
fn empty_headers_are_reported_in_a_fixed_order() {
    assert_eq!(
        RequestHeader::from_str("Accept-Encoding: \r\nUser-Agent: \r\nHost: \r\n"),
        Err(RequestHeaderError::InvalidHost)
    );
    assert_eq!(
        RequestHeader::from_str("Accept-Encoding: \r\nUser-Agent: \r\nHost: h\r\n"),
        Err(RequestHeaderError::InvalidUserAgent)
    );
    assert_eq!(
        RequestHeader::from_str("Accept-Encoding: \r\nUser-Agent: u\r\n"),
        Err(RequestHeaderError::InvalidAcceptEncoding)
    );
    assert_eq!(
        RequestHeader::from_str("Accept-Encoding: "),
        Err(RequestHeaderError::InvalidAcceptEncoding)
    );
}

#[test]
fn only_the_first_encoding_is_looked_at() {
    assert_eq!(Encoding::negotiate("gzip"), vec![Encoding::Gzip]);
    assert_eq!(Encoding::negotiate("gzip, deflate"), vec![Encoding::Gzip]);
    assert_eq!(Encoding::negotiate("gzip,deflate"), vec![Encoding::Gzip]);
    assert_eq!(Encoding::negotiate(" gzip deflate"), vec![Encoding::Gzip]);
    assert_eq!(Encoding::negotiate("deflate, gzip"), vec![]);
    assert_eq!(Encoding::negotiate("invalid-encoding"), vec![]);
    assert_eq!(Encoding::negotiate("GZIP"), vec![]);
    assert_eq!(Encoding::negotiate("gzip;q=0.5"), vec![]);
    assert_eq!(Encoding::negotiate(" , "), vec![]);
    assert_eq!(Encoding::negotiate(""), vec![]);
    assert_eq!(Encoding::Gzip.to_string(), "gzip");
}

#[test]
fn request_is_parted_at_its_lines() {
    let parts = RequestParts::from_str(
        "POST /files/x HTTP/1.1\r\nHost: h\r\nUser-Agent: u\r\n\r\nhello\r\n\r\nworld",
    );
    assert_eq!(parts.request_line, "POST /files/x HTTP/1.1");
    assert_eq!(parts.header_block, "Host: h\r\nUser-Agent: u\r\n");
    assert_eq!(parts.body, Some("hello\r\n\r\nworld".to_string()));
}

#[test]
fn request_line_is_the_first_line_that_is_not_empty() {
    let parts = RequestParts::from_str("\r\n\nGET / HTTP/1.1\nHost: h\n\nbody");
    assert_eq!(parts.request_line, "GET / HTTP/1.1");
    assert_eq!(parts.header_block, "Host: h\n");
    assert_eq!(parts.body, Some("body".to_string()));
}

#[test]
fn request_without_an_empty_line_has_no_body() {
    let parts = RequestParts::from_str("GET / HTTP/1.1\r\nHost: h\r\n");
    assert_eq!(parts.request_line, "GET / HTTP/1.1");
    assert_eq!(parts.header_block, "Host: h\r\n");
    assert_eq!(parts.body, None);
    let parts = RequestParts::from_str("GET / HTTP/1.1");
    assert_eq!(parts.request_line, "GET / HTTP/1.1");
    assert_eq!(parts.header_block, "");
    assert_eq!(parts.body, None);
}

#[test]
fn request_of_empty_lines_has_an_empty_request_line() {
    for text in ["", "\r\n", "\n\r\n\n"] {
        let parts = RequestParts::from_str(text);
        assert_eq!(parts.request_line, "");
        assert_eq!(parts.header_block, "");
        assert_eq!(parts.body, None);
    }
}

#[test]
fn body_is_what_stands_behind_the_empty_line() {
    let body = RequestBody::from_str("POST /files/x HTTP/1.1\r\n\r\nhello").unwrap();
    assert_eq!(body.as_str(), "hello");
    assert_eq!(body.to_string(), "hello");
    let body = RequestBody::from_str("POST /files/x HTTP/1.1\r\n\r\n").unwrap();
    assert_eq!(body.as_str(), "");
    assert_eq!(
        RequestBody::from_str("POST /files/x HTTP/1.1\r\nHost: h\r\n"),
        Err(RequestBodyError::MissingBody)
    );
}
