use flate2::read::GzDecoder;
use http_server::gzip::{Gzip, GzipError};
use std::io::Read;

fn gunzip(bytes: &[u8]) -> Vec<u8> {
    let mut decoder = GzDecoder::new(bytes);
    let mut content = Vec::new();
    decoder.read_to_end(&mut content).unwrap();
    content
}

#[test]
fn gzip_stream_decodes_to_the_content() {
    for content in ["", "abc", "hello hello hello hello hello", "h\u{e9}llo\r\n"] {
        let gzip = Gzip::parse(content).unwrap();
        assert_ne!(gzip.as_bytes(), content.as_bytes());
        assert_eq!(gunzip(gzip.as_bytes()), content.as_bytes());
    }
}

#[test]
fn gzip_stream_is_one_member_without_name_or_time() {
    assert_eq!(
        &Gzip::parse("").unwrap().as_bytes()[..10],
        &[0x1f, 0x8b, 8, 0, 0, 0, 0, 0, 0, 255]
    );
    let gzip = Gzip::parse("abc").unwrap();
    let bytes = gzip.as_bytes();
    assert_eq!(&bytes[..10], &[0x1f, 0x8b, 8, 0, 0, 0, 0, 0, 0, 255]);
    assert_eq!(&bytes[bytes.len() - 4..], &[3, 0, 0, 0]);
}

#[test]
fn gzip_stream_depends_on_the_content_alone() {
    let first = Gzip::parse("the same content");
    let second = Gzip::parse("the same content");
    assert_eq!(first.unwrap().as_bytes(), second.unwrap().as_bytes());
}

#[test]
fn encoder_outcome_is_handed_on() {
    let gzip = Gzip::from_outcome(Ok(vec![1, 2, 3])).unwrap();
    assert_eq!(gzip.as_bytes(), &[1, 2, 3]);
    let failed = Gzip::from_outcome(Err(std::io::Error::other("full")));
    match failed {
        Err(GzipError::Encoder(cause)) => assert_eq!(cause.to_string(), "full"),
        Ok(_) => panic!("an error of the encoder was passed over"),
    }
}
