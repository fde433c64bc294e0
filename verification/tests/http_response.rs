use flate2::read::GzDecoder;
use http_server::http_request::Encoding;
use http_server::http_response::{ContentType, HTTPResponse, ResponseStatus};
use std::io::Read;

fn gunzip(bytes: &[u8]) -> Vec<u8> {
    let mut decoder = GzDecoder::new(bytes);
    let mut content = Vec::new();
    decoder.read_to_end(&mut content).unwrap();
    content
}

fn split_head(bytes: &[u8]) -> (String, Vec<u8>) {
    let at = bytes.windows(4).position(|w| w == b"\r\n\r\n").unwrap();
    (
        String::from_utf8(bytes[..at + 4].to_vec()).unwrap(),
        bytes[at + 4..].to_vec(),
    )
}

#[test]
fn status_lines_are_fixed() {
    assert_eq!(ResponseStatus::Http200.to_string(), "HTTP/1.1 200 OK\r\n");
    assert_eq!(ResponseStatus::Http201.to_string(), "HTTP/1.1 201 Created\r\n");
    assert_eq!(ResponseStatus::Http400.to_string(), "HTTP/1.1 400 Bad Request\r\n");
    assert_eq!(ResponseStatus::Http404.to_string(), "HTTP/1.1 404 Not Found\r\n");
    assert_eq!(
        ResponseStatus::Http500.to_string(),
        "HTTP/1.1 500 Internal Server Error\r\n"
    );
}

#[test]
fn content_types_are_fixed() {
    assert_eq!(ContentType::TextPlain.to_string(), "text/plain");
    assert_eq!(ContentType::OctetStream.to_string(), "application/octet-stream");
}

#[test]
fn response_without_a_body_is_a_status_line_and_an_empty_line() {
    let statuses = [
        (ResponseStatus::Http200, "HTTP/1.1 200 OK\r\n\r\n"),
        (ResponseStatus::Http201, "HTTP/1.1 201 Created\r\n\r\n"),
        (ResponseStatus::Http400, "HTTP/1.1 400 Bad Request\r\n\r\n"),
        (ResponseStatus::Http404, "HTTP/1.1 404 Not Found\r\n\r\n"),
        (ResponseStatus::Http500, "HTTP/1.1 500 Internal Server Error\r\n\r\n"),
    ];
    for (status, expected) in statuses {
        let response = HTTPResponse::new_builder(status).build();
        assert_eq!(response.as_http_bytes(), expected.as_bytes());
    }
}

#[test]
fn response_with_a_body_names_type_and_length() {
    let response = HTTPResponse::new_builder(ResponseStatus::Http200)
        .with_body("test", ContentType::TextPlain, &[])
        .unwrap()
        .build();
    assert_eq!(
        response.as_http_bytes(),
        b"HTTP/1.1 200 OK\r\nContent-Type: text/plain\r\nContent-Length: 4\r\n\r\ntest"
    );
}

#[test]
fn length_counts_bytes_not_characters() {
    let response = HTTPResponse::new_builder(ResponseStatus::Http200)
        .with_body("h\u{e9}llo w\u{f6}rld \u{1f600}", ContentType::OctetStream, &[])
        .unwrap()
        .build();
    let expected = "HTTP/1.1 200 OK\r\nContent-Type: application/octet-stream\r\nContent-Length: 18\r\n\r\nh\u{e9}llo w\u{f6}rld \u{1f600}";
    assert_eq!(response.as_http_bytes(), expected.as_bytes());
}

#[test]
fn empty_body_has_length_zero() {
    let response = HTTPResponse::new_builder(ResponseStatus::Http200)
        .with_body("", ContentType::TextPlain, &[])
        .unwrap()
        .build();
    assert_eq!(
        response.as_http_bytes(),
        b"HTTP/1.1 200 OK\r\nContent-Type: text/plain\r\nContent-Length: 0\r\n\r\n"
    );
}

#[test]
fn long_body_has_its_length_in_decimal() {
    let content = "x".repeat(12345);
    let response = HTTPResponse::new_builder(ResponseStatus::Http200)
        .with_body(&content, ContentType::TextPlain, &[])
        .unwrap()
        .build();
    let (head, body) = split_head(&response.as_http_bytes());
    assert_eq!(
        head,
        "HTTP/1.1 200 OK\r\nContent-Type: text/plain\r\nContent-Length: 12345\r\n\r\n"
    );
    assert_eq!(body, content.as_bytes());
}

#[test]
fn location_stands_last_in_the_header() {
    let response = HTTPResponse::new_builder(ResponseStatus::Http201)
        .with_body("made", ContentType::TextPlain, &[])
        .unwrap()
        .with_location("/tmp/data/x".to_string())
        .build();
    assert_eq!(
        response.as_http_bytes(),
        b"HTTP/1.1 201 Created\r\nContent-Type: text/plain\r\nContent-Length: 4\r\nLocation: /tmp/data/x\r\n\r\nmade"
    );
}

#[test]
fn compressed_body_is_named_and_decodes_to_the_content() {
    let content = "hello hello hello hello hello hello";
    let response = HTTPResponse::new_builder(ResponseStatus::Http200)
        .with_body(content, ContentType::TextPlain, &[Encoding::Gzip])
        .unwrap()
        .build();
    let (head, body) = split_head(&response.as_http_bytes());
    assert_ne!(body, content.as_bytes());
    assert_eq!(gunzip(&body), content.as_bytes());
    assert_eq!(
        head,
        format!(
            "HTTP/1.1 200 OK\r\nContent-Encoding: gzip\r\nContent-Type: text/plain\r\nContent-Length: {}\r\n\r\n",
            body.len()
        )
    );
}

#[test]
fn compressed_body_with_location_keeps_the_order_of_the_header() {
    let response = HTTPResponse::new_builder(ResponseStatus::Http201)
        .with_body("made", ContentType::TextPlain, &[Encoding::Gzip])
        .unwrap()
        .with_location("/d/x".to_string())
        .build();
    let (head, body) = split_head(&response.as_http_bytes());
    assert_eq!(gunzip(&body), b"made");
    assert_eq!(
        head,
        format!(
            "HTTP/1.1 201 Created\r\nContent-Encoding: gzip\r\nContent-Type: text/plain\r\nContent-Length: {}\r\nLocation: /d/x\r\n\r\n",
            body.len()
        )
    );
}

#[test]
fn body_without_negotiation_is_not_changed() {
    let response = HTTPResponse::new_builder(ResponseStatus::Http200)
        .with_body("hello hello hello", ContentType::TextPlain, &[])
        .unwrap()
        .build();
    let (head, body) = split_head(&response.as_http_bytes());
    assert!(!head.contains("Content-Encoding"));
    assert_eq!(body, b"hello hello hello");
}

#[test]
fn a_later_body_replaces_the_earlier_one() {
    let response = HTTPResponse::new_builder(ResponseStatus::Http200)
        .with_body("first", ContentType::TextPlain, &[])
        .unwrap()
        .with_location("/gone".to_string())
        .with_body("second!", ContentType::OctetStream, &[])
        .unwrap()
        .build();
    assert_eq!(
        response.as_http_bytes(),
        b"HTTP/1.1 200 OK\r\nContent-Type: application/octet-stream\r\nContent-Length: 7\r\n\r\nsecond!"
    );
}

#[test]
fn serializing_twice_gives_the_same_bytes() {
    let plain = HTTPResponse::new_builder(ResponseStatus::Http404).build();
    assert_eq!(plain.as_http_bytes(), plain.as_http_bytes());
    let builder = HTTPResponse::new_builder(ResponseStatus::Http200)
        .with_body("twice", ContentType::TextPlain, &[Encoding::Gzip])
        .unwrap()
        .with_location("/twice".to_string());
    let response = builder.build();
    assert_eq!(response.as_http_bytes(), response.as_http_bytes());
    assert_eq!(response.as_http_bytes(), response.clone().as_http_bytes());
    assert_eq!(response, builder.clone().build());
}
