//! Compression of a response body into a gzip stream.

use flate2::write::GzEncoder;
use flate2::Compression;
use std::io::Write;
use vstd::prelude::*;
use vstd::utf8::encode_utf8;

verus! {

/// The error type of the standard library's input and output, which the
/// encoder reports its failures with. Nothing is known of its contents.
#[verifier::external_type_specification]
#[verifier::external_body]
pub struct ExIoError(std::io::Error);

/// What the encoder makes of `content`: the bytes of a gzip stream, a single
/// member compressed at the default level, or nothing where the encoder
/// reports an error. The encoder writes into memory, so its outcome depends
/// on the content alone.
pub uninterp spec fn gzip_outcome(content: Seq<u8>) -> Option<Seq<u8>>;

/// Whether the encoder reports an error on `content`.
pub open spec fn gzip_refused(content: Seq<u8>) -> bool {
    gzip_outcome(content) is None
}

/// The gzip stream that the encoder makes of `content`, where it makes one.
pub open spec fn gzip_stream(content: Seq<u8>) -> Seq<u8>
    recommends
        !gzip_refused(content),
{
    gzip_outcome(content).unwrap()
}

/// What every stream of the encoder begins with: the two bytes that mark a
/// gzip stream, the method, no flags, no time, no hint of the level, and an
/// unknown system.
pub open spec fn gzip_header() -> Seq<u8> {
    seq![0x1fu8, 0x8bu8, 8u8, 0u8, 0u8, 0u8, 0u8, 0u8, 0u8, 255u8]
}

/// Whether `bytes` are the gzip stream that the encoder makes of some
/// content, and begin as its streams do.
pub open spec fn is_gzip_stream(bytes: Seq<u8>) -> bool {
    &&& gzip_header().is_prefix_of(bytes)
    &&& exists|content: Seq<u8>| gzip_outcome(content) == Some(bytes)
}

/// Runs `flate2::write::GzEncoder` over `content`: `GzEncoder::new` on an
/// empty vector with `Compression::default()`, `write_all` of the content, then
/// `finish`. Whether the encoder reports an error, and the stream that
/// `finish` hands back when it reports none, are what `gzip_outcome` names.
/// The stream begins with the header that the encoder writes before anything
/// else. Nothing is claimed of the inputs on which it reports an error.
#[verifier::external_body]
fn encode(content: &[u8]) -> (outcome: Result<Vec<u8>, std::io::Error>)
    ensures
        outcome is Err <==> gzip_outcome(content@) is None,
        outcome matches Ok(stream) ==> gzip_outcome(content@) == Some(stream@),
        outcome matches Ok(stream) ==> gzip_header().is_prefix_of(stream@),
{
    let mut encoder = GzEncoder::new(Vec::new(), Compression::default());
    encoder.write_all(content)?;
    encoder.finish()
}

/// Why a body could not be compressed.
#[derive(Debug)]
pub enum GzipError {
    /// The encoder reported this error.
    Encoder(std::io::Error),
}

/// A gzip stream.
pub struct Gzip(Vec<u8>);

impl View for Gzip {
    type V = Seq<u8>;

    closed spec fn view(&self) -> Seq<u8> {
        self.0@
    }
}

impl Gzip {
    /// What becomes of the encoder's outcome: its stream is kept as it is, and
    /// its error is handed on.
    pub fn from_outcome(outcome: Result<Vec<u8>, std::io::Error>) -> (r: Result<Gzip, GzipError>)
        ensures
            match outcome {
                Ok(stream) => r matches Ok(gzip) && gzip@ == stream@,
                Err(e) => r matches Err(GzipError::Encoder(cause)) && cause == e,
            },
    {
        match outcome {
            Ok(stream) => Ok(Gzip(stream)),
            Err(e) => Err(GzipError::Encoder(e)),
        }
    }

    /// Compresses the UTF-8 bytes of `s`. This fails where the encoder
    /// reports an error on them, and nowhere else.
    pub fn parse(s: &str) -> (r: Result<Gzip, GzipError>)
        ensures
            r is Err <==> gzip_refused(encode_utf8(s@)),
            r matches Ok(gzip) ==> gzip@ == gzip_stream(encode_utf8(s@)) && is_gzip_stream(gzip@),
    {
        Gzip::from_outcome(encode(s.as_bytes()))
    }

    /// The bytes of the stream.
    pub fn as_bytes(&self) -> (bytes: &[u8])
        ensures
            bytes@ == self@,
    {
        self.0.as_slice()
    }
}

} // verus!
