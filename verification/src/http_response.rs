//! The response: its status, its header, its body, and the bytes that go on
//! the wire for it.

use crate::gzip::{gzip_refused, gzip_stream, is_gzip_stream, Gzip, GzipError};
use crate::http_request::Encoding;
use crate::text::{decimal, push_decimal};
use vstd::prelude::*;
use vstd::slice::slice_to_vec;
use vstd::utf8::encode_utf8;

verus! {

/// The status of a response. Each stands for one fixed status line.
#[derive(Debug, Clone, Copy, PartialEq, Eq, PartialOrd, Ord)]
pub enum ResponseStatus {
    Http200,
    Http201,
    Http400,
    Http404,
    Http500,
}

impl ResponseStatus {
    /// The status line, with the line break that ends it.
    pub open spec fn line(self) -> Seq<char> {
        match self {
            ResponseStatus::Http200 => "HTTP/1.1 200 OK\r\n"@,
            ResponseStatus::Http201 => "HTTP/1.1 201 Created\r\n"@,
            ResponseStatus::Http400 => "HTTP/1.1 400 Bad Request\r\n"@,
            ResponseStatus::Http404 => "HTTP/1.1 404 Not Found\r\n"@,
            ResponseStatus::Http500 => "HTTP/1.1 500 Internal Server Error\r\n"@,
        }
    }

    /// The status line, with the line break that ends it.
    pub fn to_string(&self) -> (s: String)
        ensures
            s@ == self.line(),
    {
        match self {
            ResponseStatus::Http200 => String::from_str("HTTP/1.1 200 OK\r\n"),
            ResponseStatus::Http201 => String::from_str("HTTP/1.1 201 Created\r\n"),
            ResponseStatus::Http400 => String::from_str("HTTP/1.1 400 Bad Request\r\n"),
            ResponseStatus::Http404 => String::from_str("HTTP/1.1 404 Not Found\r\n"),
            ResponseStatus::Http500 => String::from_str("HTTP/1.1 500 Internal Server Error\r\n"),
        }
    }
}

/// What kind of content a body holds.
#[derive(Debug, Clone, Copy, PartialEq, Eq, PartialOrd, Ord)]
pub enum ContentType {
    TextPlain,
    OctetStream,
}

impl ContentType {
    /// The media type, as it stands in the header.
    pub open spec fn text(self) -> Seq<char> {
        match self {
            ContentType::TextPlain => "text/plain"@,
            ContentType::OctetStream => "application/octet-stream"@,
        }
    }

    /// The media type, as it stands in the header.
    pub fn to_string(&self) -> (s: String)
        ensures
            s@ == self.text(),
    {
        match self {
            ContentType::TextPlain => String::from_str("text/plain"),
            ContentType::OctetStream => String::from_str("application/octet-stream"),
        }
    }
}

/// The bytes of a body, as they go on the wire.
#[derive(Debug, Clone, PartialEq, Eq, PartialOrd, Ord)]
struct ResponseBody(Vec<u8>);

impl ResponseBody {
    fn length(&self) -> (n: usize)
        ensures
            n == self.0@.len(),
    {
        self.0.len()
    }
}

/// The number of bytes of a body.
#[derive(Debug, Clone, Copy, PartialEq, Eq, PartialOrd, Ord)]
struct ContentLength(usize);

impl ContentLength {
    fn from_body(body: &ResponseBody) -> (length: Self)
        ensures
            length.0 == body.0@.len(),
    {
        Self(body.length())
    }

    fn to_string(&self) -> (s: String)
        ensures
            s@ == decimal(self.0 as nat),
    {
        let mut s = String::new();
        push_decimal(&mut s, self.0);
        s
    }
}

/// The header of a response, as a plain value.
pub struct ResponseHeaderView {
    pub content_type: ContentType,
    pub content_length: nat,
    pub content_encoding: Option<Encoding>,
    pub location: Option<Seq<char>>,
}

impl ResponseHeaderView {
    /// The line that names the encoding of the body, if it has one.
    pub open spec fn encoding_line(self) -> Seq<char> {
        match self.content_encoding {
            Some(encoding) => "Content-Encoding: "@ + encoding.token() + "\r\n"@,
            None => Seq::empty(),
        }
    }

    /// The line that names the location, if there is one.
    pub open spec fn location_line(self) -> Seq<char> {
        match self.location {
            Some(location) => "Location: "@ + location + "\r\n"@,
            None => Seq::empty(),
        }
    }

    /// The header lines in their fixed order, and the empty line that ends
    /// the header.
    pub open spec fn text(self) -> Seq<char> {
        self.encoding_line() + "Content-Type: "@ + self.content_type.text() + "\r\n"@
            + "Content-Length: "@ + decimal(self.content_length) + "\r\n"@ + self.location_line()
            + "\r\n"@
    }
}

/// The header of a response.
#[derive(Debug, Clone, PartialEq, Eq, PartialOrd, Ord)]
struct ResponseHeader {
    content_type: ContentType,
    content_length: ContentLength,
    content_encoding: Option<Encoding>,
    location: Option<String>,
}

impl View for ResponseHeader {
    type V = ResponseHeaderView;

    closed spec fn view(&self) -> ResponseHeaderView {
        ResponseHeaderView {
            content_type: self.content_type,
            content_length: self.content_length.0 as nat,
            content_encoding: self.content_encoding,
            location: match self.location {
                Some(location) => Some(location@),
                None => None,
            },
        }
    }
}

impl ResponseHeader {
    fn new(content_type: ContentType, body: &ResponseBody, encoding: Option<Encoding>) -> (header:
        Self)
        ensures
            header@ == (ResponseHeaderView {
                content_type,
                content_length: body.0@.len(),
                content_encoding: encoding,
                location: None,
            }),
    {
        Self {
            content_type,
            content_length: ContentLength::from_body(body),
            location: None,
            content_encoding: encoding,
        }
    }

    fn add_location(&self, location: String) -> (header: Self)
        ensures
            header@ == (ResponseHeaderView { location: Some(location@), ..self@ }),
    {
        Self {
            content_type: self.content_type,
            content_length: self.content_length,
            location: Some(location),
            content_encoding: self.content_encoding,
        }
    }

    fn duplicate(&self) -> (header: Self)
        ensures
            header@ == self@,
    {
        Self {
            content_type: self.content_type,
            content_length: self.content_length,
            location: match &self.location {
                Some(location) => Some(location.clone()),
                None => None,
            },
            content_encoding: self.content_encoding,
        }
    }

    /// The header lines, and the empty line that ends the header.
    fn to_string(&self) -> (s: String)
        ensures
            s@ == self@.text(),
    {
        let mut s = String::new();
        if let Some(encoding) = self.content_encoding {
            s.append("Content-Encoding: ");
            s.append(encoding.to_string().as_str());
            s.append("\r\n");
        }
        s.append("Content-Type: ");
        s.append(self.content_type.to_string().as_str());
        s.append("\r\n");
        s.append("Content-Length: ");
        s.append(self.content_length.to_string().as_str());
        s.append("\r\n");
        if let Some(location) = &self.location {
            s.append("Location: ");
            s.append(location.as_str());
            s.append("\r\n");
        }
        s.append("\r\n");
        s
    }
}

/// A response, or one in the making, as a plain value.
pub struct HTTPResponseView {
    pub status: ResponseStatus,
    pub header: Option<ResponseHeaderView>,
    pub body: Option<Seq<u8>>,
}

impl HTTPResponseView {
    /// A response that has a status and nothing else.
    pub open spec fn bare(status: ResponseStatus) -> Self {
        HTTPResponseView { status, header: None, body: None }
    }

    /// Whether `content` cannot be made a body under the encodings that the
    /// client accepts: it accepts one, and the encoder reports an error on
    /// the UTF-8 bytes of the content.
    pub open spec fn refuses(content: Seq<char>, encoding: Seq<Encoding>) -> bool {
        encoding.len() > 0 && gzip_refused(encode_utf8(content))
    }

    /// The bytes that stand for `content` under the encodings that the client
    /// accepts: its gzip stream where it accepts any, else its UTF-8 bytes.
    pub open spec fn payload(content: Seq<char>, encoding: Seq<Encoding>) -> Seq<u8> {
        if encoding.len() > 0 {
            gzip_stream(encode_utf8(content))
        } else {
            encode_utf8(content)
        }
    }

    /// The response with `content` for its body. The length in the header is
    /// that of the bytes that go on the wire, and the encoding is named only
    /// where the body is encoded.
    pub open spec fn with_body(
        self,
        content: Seq<char>,
        content_type: ContentType,
        encoding: Seq<Encoding>,
    ) -> Self {
        let body = Self::payload(content, encoding);
        HTTPResponseView {
            status: self.status,
            header: Some(
                ResponseHeaderView {
                    content_type,
                    content_length: body.len(),
                    content_encoding: if encoding.len() > 0 {
                        Some(encoding[0])
                    } else {
                        None
                    },
                    location: None,
                },
            ),
            body: Some(body),
        }
    }

    /// The response with `location` in its header, which it must have.
    pub open spec fn with_location(self, location: Seq<char>) -> Self
        recommends
            self.header is Some,
    {
        HTTPResponseView {
            header: Some(ResponseHeaderView { location: Some(location), ..self.header.unwrap() }),
            ..self
        }
    }

    /// Header and body come together, the header gives the length of the
    /// body, and a body whose encoding the header names is a gzip stream.
    pub open spec fn wf(self) -> bool {
        &&& self.header is Some <==> self.body is Some
        &&& self.header matches Some(header) ==> {
            &&& header.content_length == self.body.unwrap().len()
            &&& header.content_encoding is Some ==> is_gzip_stream(self.body.unwrap())
        }
    }

    /// The text before the body: the status line, then the header with its
    /// closing empty line, or that empty line alone where there is no header.
    pub open spec fn head(self) -> Seq<char> {
        self.status.line() + match self.header {
            Some(header) => header.text(),
            None => "\r\n"@,
        }
    }

    /// The bytes on the wire: the head in UTF-8, then the body as it is.
    pub open spec fn wire(self) -> Seq<u8> {
        encode_utf8(self.head()) + match self.body {
            Some(body) => body,
            None => Seq::empty(),
        }
    }
}

/// A body that is given where the client accepts an encoding is the gzip
/// stream of the content, and the header names the encoding that the client
/// put first. A body that is given where the client accepts none is the
/// content itself, and the header has no line for an encoding. Either way the
/// header gives the length of the body as it is sent, and names no location.
pub proof fn lemma_body_encoding(
    response: HTTPResponseView,
    content: Seq<char>,
    content_type: ContentType,
    encoding: Seq<Encoding>,
)
    ensures
        ({
            let built = response.with_body(content, content_type, encoding);
            &&& built.status == response.status
            &&& built.header matches Some(header) && built.body matches Some(body) && {
                &&& header.content_type == content_type
                &&& header.content_length == body.len()
                &&& header.location is None
                &&& encoding.len() > 0 ==> {
                    &&& body == gzip_stream(encode_utf8(content))
                    &&& header.content_encoding == Some(encoding[0])
                    &&& header.encoding_line() == "Content-Encoding: "@ + encoding[0].token()
                        + "\r\n"@
                }
                &&& encoding.len() == 0 ==> {
                    &&& body == encode_utf8(content)
                    &&& header.content_encoding is None
                    &&& header.encoding_line() == Seq::<char>::empty()
                }
            }
        }),
{
}

/// A finished response.
#[derive(Debug, PartialEq, Eq, PartialOrd, Ord)]
pub struct HTTPResponse {
    status: ResponseStatus,
    header: Option<ResponseHeader>,
    body: Option<ResponseBody>,
}

/// A response in the making.
#[derive(Debug, PartialEq, Eq, PartialOrd, Ord)]
pub struct HTTPResponseBuilder {
    status: ResponseStatus,
    header: Option<ResponseHeader>,
    body: Option<ResponseBody>,
}

spec fn view_of(
    status: ResponseStatus,
    header: Option<ResponseHeader>,
    body: Option<ResponseBody>,
) -> HTTPResponseView {
    HTTPResponseView {
        status,
        header: match header {
            Some(header) => Some(header@),
            None => None,
        },
        body: match body {
            Some(body) => Some(body.0@),
            None => None,
        },
    }
}

impl View for HTTPResponse {
    type V = HTTPResponseView;

    closed spec fn view(&self) -> HTTPResponseView {
        view_of(self.status, self.header, self.body)
    }
}

impl View for HTTPResponseBuilder {
    type V = HTTPResponseView;

    closed spec fn view(&self) -> HTTPResponseView {
        view_of(self.status, self.header, self.body)
    }
}

impl Clone for HTTPResponse {
    fn clone(&self) -> (response: Self)
        ensures
            response@ == self@,
    {
        proof {
            use_type_invariant(self);
        }
        let header = match &self.header {
            Some(header) => Some(header.duplicate()),
            None => None,
        };
        let body = match &self.body {
            Some(body) => Some(ResponseBody(body.0.clone())),
            None => None,
        };
        HTTPResponse { status: self.status, header, body }
    }
}

impl Clone for HTTPResponseBuilder {
    fn clone(&self) -> (builder: Self)
        ensures
            builder@ == self@,
    {
        proof {
            use_type_invariant(self);
        }
        let header = match &self.header {
            Some(header) => Some(header.duplicate()),
            None => None,
        };
        let body = match &self.body {
            Some(body) => Some(ResponseBody(body.0.clone())),
            None => None,
        };
        HTTPResponseBuilder { status: self.status, header, body }
    }
}

impl HTTPResponse {
    #[verifier::type_invariant]
    spec fn well_formed(&self) -> bool {
        self@.wf()
    }

    /// Begins a response with `status`, which is not changed afterwards.
    pub fn new_builder(status: ResponseStatus) -> (builder: HTTPResponseBuilder)
        ensures
            builder@ == HTTPResponseView::bare(status),
    {
        HTTPResponseBuilder { status, header: None, body: None }
    }

    /// The bytes that go on the wire for this response. They depend on the
    /// response alone: to serialize it again gives the same bytes.
    pub fn as_http_bytes(&self) -> (bytes: Vec<u8>)
        ensures
            bytes@ == self@.wire(),
            self@.wf(),
    {
        proof {
            use_type_invariant(self);
        }
        let mut head = self.status.to_string();
        match &self.header {
            Some(header) => head.append(header.to_string().as_str()),
            None => head.append("\r\n"),
        }
        let mut buf = slice_to_vec(head.as_str().as_bytes());
        match &self.body {
            Some(body) => {
                let mut i: usize = 0;
                while i < body.0.len()
                    invariant
                        i <= body.0@.len(),
                        buf@ == encode_utf8(head@) + body.0@.take(i as int),
                    decreases body.0@.len() - i,
                {
                    buf.push(body.0[i]);
                    i += 1;
                }
            },
            None => {
            },
        }
        buf
    }
}

impl HTTPResponseBuilder {
    #[verifier::type_invariant]
    spec fn well_formed(&self) -> bool {
        self@.wf()
    }

    /// What becomes of the status once the bytes of the body are known.
    fn with_payload(
        &self,
        payload: Vec<u8>,
        content_type: ContentType,
        encoding: Option<Encoding>,
    ) -> (builder: Self)
        requires
            encoding is Some ==> is_gzip_stream(payload@),
        ensures
            builder@ == (HTTPResponseView {
                status: self@.status,
                header: Some(
                    ResponseHeaderView {
                        content_type,
                        content_length: payload@.len(),
                        content_encoding: encoding,
                        location: None,
                    },
                ),
                body: Some(payload@),
            }),
    {
        let body = ResponseBody(payload);
        let header = ResponseHeader::new(content_type, &body, encoding);
        Self { status: self.status, header: Some(header), body: Some(body) }
    }

    /// Gives the response a body. Where the client accepts an encoding, the
    /// body is compressed, which fails where the encoder reports an error on
    /// the content, and nowhere else; where the client accepts none, the body
    /// is the content as it is, and this cannot fail.
    pub fn with_body(&self, content: &str, content_type: ContentType, encoding: &[Encoding]) -> (r:
        Result<Self, GzipError>)
        ensures
            r is Err <==> HTTPResponseView::refuses(content@, encoding@),
            r matches Ok(builder) ==> builder@ == self@.with_body(
                content@,
                content_type,
                encoding@,
            ) && builder@.wf(),
    {
        if encoding.len() == 0 {
            Ok(self.with_payload(slice_to_vec(content.as_bytes()), content_type, None))
        } else {
            match Gzip::parse(content) {
                Ok(gzip) => Ok(
                    self.with_payload(
                        slice_to_vec(gzip.as_bytes()),
                        content_type,
                        Some(encoding[0]),
                    ),
                ),
                Err(e) => Err(e),
            }
        }
    }

    /// Names the location in the header of a response that has a body.
    pub fn with_location(&self, location: String) -> (builder: Self)
        requires
            self@.header is Some,
        ensures
            builder@ == self@.with_location(location@),
            builder@.wf(),
    {
        proof {
            use_type_invariant(self);
        }
        let header = match &self.header {
            Some(header) => header.add_location(location),
            None => unreached(),
        };
        let body = match &self.body {
            Some(body) => Some(ResponseBody(body.0.clone())),
            None => None,
        };
        Self { status: self.status, header: Some(header), body }
    }

    /// The response as it stands.
    pub fn build(&self) -> (response: HTTPResponse)
        ensures
            response@ == self@,
            response@.wf(),
    {
        proof {
            use_type_invariant(self);
        }
        let header = match &self.header {
            Some(header) => Some(header.duplicate()),
            None => None,
        };
        let body = match &self.body {
            Some(body) => Some(ResponseBody(body.0.clone())),
            None => None,
        };
        HTTPResponse { status: self.status, header, body }
    }
}

} // verus!
