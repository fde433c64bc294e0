//! The handling of one request: from the bytes that were received to the
//! response, by way of the file that the request may ask for.

use crate::gzip::{gzip_stream, GzipError};
use crate::http_request::{
    body_text, header_block, lemma_method_name_is_one_token, lemma_request_line_round_trip,
    lemma_request_line_text, no_whitespace, request_line_text, Encoding, HTTPRequestLineError,
    RequestBody, RequestBodyError, RequestHeader, RequestHeaderError, RequestHeaderView,
    RequestLine, RequestLineView, RequestMethod, RequestParts, RequestPath, RequestVersion,
};
use crate::http_response::{ContentType, HTTPResponse, HTTPResponseView, ResponseStatus};
use crate::text::{
    ascii_lowercase, chars_of, find, first_in, lemma_first_in_is, same_text, starts_with,
    string_of, CharClass,
};
use vstd::prelude::*;
use vstd::slice::slice_to_vec;
use vstd::utf8::{
    decode_utf8, encode_utf8, encode_utf8_decode_utf8, encode_utf8_valid_utf8, valid_utf8,
};

verus! {

/// The size of the buffer that a request is read into. A request that fills
/// it is refused.
pub const BUFFER_SIZE: usize = 4096;

/// The error of the standard library's UTF-8 decoding. Nothing is known of
/// its contents.
#[verifier::external_type_specification]
#[verifier::external_body]
pub struct ExUtf8Error(std::str::Utf8Error);

/// `std::str::from_utf8`: succeeds on the byte sequences that are valid
/// UTF-8, and on no others; the text that it gives has those very bytes.
#[verifier::external_body]
fn text_of(bytes: &[u8]) -> (r: Result<&str, std::str::Utf8Error>)
    ensures
        r is Ok <==> valid_utf8(bytes@),
        r matches Ok(text) ==> encode_utf8(text@) == bytes@,
{
    std::str::from_utf8(bytes)
}

/// Why a GET request could not be handled.
#[derive(Debug)]
pub enum GetCommandError {
    /// The request names no path.
    MissingPath,
}

/// Why the handling of a request was given up.
#[derive(Debug)]
pub enum ClientHandlerError {
    /// Nothing was received.
    NoRequestLineFound,
    /// The connection could not be read.
    UnreadableStream(std::io::Error),
    /// The request line holds nothing.
    EmptyRequestLine,
    /// The response could not be sent. The error holds the request.
    ClientUnreachable(std::io::Error, String),
    /// What was received is not UTF-8. The error holds what was received.
    Utf8Error(std::str::Utf8Error, Vec<u8>),
    /// What was received fills the buffer.
    RequestTooLarge,
    GetCommandError(GetCommandError),
    HTTPRequestLineError(HTTPRequestLineError),
    RequestHeaderError(RequestHeaderError),
    RequestBodyError(RequestBodyError),
    /// The body of the response could not be compressed.
    GzipError(GzipError),
}

/// What a request resolves to, before anything is asked of the file system.
pub enum Plan {
    /// A response with this status and nothing else.
    Bare(ResponseStatus),
    /// A response with this status and this text for its body.
    Text(ResponseStatus, Seq<char>),
    /// The file at this path is to be read, and its content sent.
    ReadFile(Seq<char>),
    /// The file at this path is to be written with this content.
    WriteFile(Seq<char>, Seq<char>),
    /// The request asks for its body to be stored and has none.
    NoBody,
}

/// The path of the file `name` in `directory`: the two with a slash between
/// them, nothing escaped and nothing resolved.
pub open spec fn file_path(directory: Seq<char>, name: Seq<char>) -> Seq<char> {
    directory + "/"@ + name
}

/// What stands behind `prefix` in `path`.
pub open spec fn after_prefix(path: Seq<char>, prefix: Seq<char>) -> Seq<char> {
    path.skip(prefix.len() as int)
}

/// The segment of `path` that follows `/echo/`: what stands behind it, up to
/// the next slash.
pub open spec fn echo_segment(path: Seq<char>) -> Seq<char> {
    let from = "/echo/"@.len() as int;
    path.subrange(from, first_in(path, from, CharClass::Slash))
}

/// What a GET request for `path` resolves to. The first rule that fits
/// decides: `/` itself; a path that begins with `/echo/`; one that begins
/// with `/user-agent`; one that begins with `/files/`; any other path.
pub open spec fn route_get(
    path: Seq<char>,
    user_agent: Option<Seq<char>>,
    directory: Option<Seq<char>>,
) -> Plan {
    if path == "/"@ {
        Plan::Bare(ResponseStatus::Http200)
    } else if "/echo/"@.is_prefix_of(path) {
        Plan::Text(ResponseStatus::Http200, echo_segment(path))
    } else if "/user-agent"@.is_prefix_of(path) {
        match user_agent {
            Some(user_agent) => Plan::Text(ResponseStatus::Http200, user_agent),
            None => Plan::Text(ResponseStatus::Http400, "Missing User-Agent header"@),
        }
    } else if "/files/"@.is_prefix_of(path) {
        let name = after_prefix(path, "/files/"@);
        if name.len() == 0 {
            Plan::Text(ResponseStatus::Http400, "File asked but no filename provided"@)
        } else {
            match directory {
                Some(directory) => Plan::ReadFile(file_path(directory, name)),
                None => Plan::Bare(ResponseStatus::Http404),
            }
        }
    } else {
        Plan::Bare(ResponseStatus::Http404)
    }
}

/// What a POST request for `path` resolves to. Only a path that begins with
/// `/files/` is known. The body is asked for only where a file is to be
/// written.
pub open spec fn route_post(
    path: Seq<char>,
    directory: Option<Seq<char>>,
    body: Option<Seq<char>>,
) -> Plan {
    if "/files/"@.is_prefix_of(path) {
        let name = after_prefix(path, "/files/"@);
        if name.len() == 0 {
            Plan::Text(ResponseStatus::Http400, "No filepath specified"@)
        } else {
            match directory {
                Some(directory) => match body {
                    Some(body) => Plan::WriteFile(file_path(directory, name), body),
                    None => Plan::NoBody,
                },
                None => Plan::Bare(ResponseStatus::Http404),
            }
        }
    } else {
        Plan::Bare(ResponseStatus::Http404)
    }
}

/// What a request resolves to: a function of its method, its path, its
/// headers, the directory that files are served from, and its body.
pub open spec fn route(
    line: RequestLineView,
    header: RequestHeaderView,
    directory: Option<Seq<char>>,
    body: Option<Seq<char>>,
) -> Plan {
    match line.method {
        RequestMethod::Get => route_get(line.path, header.user_agent, directory),
        RequestMethod::Post => route_post(line.path, directory, body),
    }
}

/// The text of an optional string.
pub open spec fn text_view(text: Option<String>) -> Option<Seq<char>> {
    match text {
        Some(text) => Some(text@),
        None => None,
    }
}

/// A file that is to be read, as plain values.
pub struct FileReadView {
    pub path: Seq<char>,
    pub encoding: Seq<Encoding>,
}

/// A file that is to be read before the response is known, and the
/// encodings that the client accepts for it.
#[derive(Debug, Clone, PartialEq, Eq, PartialOrd, Ord)]
pub struct FileRead {
    path: String,
    encoding: Vec<Encoding>,
}

impl View for FileRead {
    type V = FileReadView;

    closed spec fn view(&self) -> FileReadView {
        FileReadView { path: self.path@, encoding: self.encoding@ }
    }
}

/// A file that is to be written, as plain values.
pub struct FileWriteView {
    pub path: Seq<char>,
    pub content: Seq<char>,
    pub encoding: Seq<Encoding>,
}

/// A file that is to be written before the response is known, what is to be
/// written to it, and the encodings that the client accepts.
#[derive(Debug, Clone, PartialEq, Eq, PartialOrd, Ord)]
pub struct FileWrite {
    path: String,
    content: String,
    encoding: Vec<Encoding>,
}

impl View for FileWrite {
    type V = FileWriteView;

    closed spec fn view(&self) -> FileWriteView {
        FileWriteView { path: self.path@, content: self.content@, encoding: self.encoding@ }
    }
}

/// What the handling of a request has come to: the response, or what has to
/// be done to a file before the response is known.
#[derive(Debug, Clone, PartialEq, Eq, PartialOrd, Ord)]
pub enum Routed {
    Response(HTTPResponse),
    ReadFile(FileRead),
    WriteFile(FileWrite),
}

/// Whether `r` is what `expected` asks for: the response itself where its
/// body is not refused, and the error of the compression where it is.
pub open spec fn answers(
    r: Result<HTTPResponse, ClientHandlerError>,
    expected: HTTPResponseView,
    refused: bool,
) -> bool {
    match r {
        Ok(response) => !refused && response@ == expected,
        Err(ClientHandlerError::GzipError(_)) => refused,
        Err(_) => false,
    }
}

/// The response that has `status` and `text` for its body.
pub open spec fn text_response(
    status: ResponseStatus,
    text: Seq<char>,
    content_type: ContentType,
    encoding: Seq<Encoding>,
) -> HTTPResponseView {
    HTTPResponseView::bare(status).with_body(text, content_type, encoding)
}

/// Whether `r` is what `plan` asks for, where the client accepts `encoding`.
pub open spec fn follows(
    r: Result<Routed, ClientHandlerError>,
    plan: Plan,
    encoding: Seq<Encoding>,
) -> bool {
    match plan {
        Plan::Bare(status) => r matches Ok(Routed::Response(response)) && response@
            == HTTPResponseView::bare(status),
        Plan::Text(status, text) => match r {
            Ok(Routed::Response(response)) => !HTTPResponseView::refuses(text, encoding)
                && response@ == text_response(status, text, ContentType::TextPlain, encoding),
            Ok(_) => false,
            Err(ClientHandlerError::GzipError(_)) => HTTPResponseView::refuses(text, encoding),
            Err(_) => false,
        },
        Plan::ReadFile(path) => r matches Ok(Routed::ReadFile(read)) && read@ == (FileReadView {
            path,
            encoding,
        }),
        Plan::WriteFile(path, content) => r matches Ok(Routed::WriteFile(write)) && write@ == (
        FileWriteView { path, content, encoding }),
        Plan::NoBody => r matches Err(
            ClientHandlerError::RequestBodyError(RequestBodyError::MissingBody),
        ),
    }
}

/// The response with `status` and nothing else.
fn bare(status: ResponseStatus) -> (response: HTTPResponse)
    ensures
        response@ == HTTPResponseView::bare(status),
{
    HTTPResponse::new_builder(status).build()
}

/// The response with `status` and `text` for its body, with the location
/// where one is given.
fn with_text(
    status: ResponseStatus,
    text: &str,
    content_type: ContentType,
    encoding: &[Encoding],
    location: Option<String>,
) -> (r: Result<HTTPResponse, ClientHandlerError>)
    ensures
        answers(
            r,
            match location {
                Some(location) => text_response(
                    status,
                    text@,
                    content_type,
                    encoding@,
                ).with_location(location@),
                None => text_response(status, text@, content_type, encoding@),
            },
            HTTPResponseView::refuses(text@, encoding@),
        ),
{
    match HTTPResponse::new_builder(status).with_body(text, content_type, encoding) {
        Ok(builder) => match location {
            Some(location) => Ok(builder.with_location(location).build()),
            None => Ok(builder.build()),
        },
        Err(e) => Err(ClientHandlerError::GzipError(e)),
    }
}

/// The immediate answer to a request, as a step of its handling.
fn text_step(status: ResponseStatus, text: &str, encoding: &[Encoding]) -> (r: Result<
    Routed,
    ClientHandlerError,
>)
    ensures
        follows(r, Plan::Text(status, text@), encoding@),
{
    match with_text(status, text, ContentType::TextPlain, encoding, None) {
        Ok(response) => Ok(Routed::Response(response)),
        Err(e) => Err(e),
    }
}

/// The path of the file `name` in `directory`.
fn join(directory: &str, name: &str) -> (path: String)
    ensures
        path@ == file_path(directory@, name@),
{
    let mut path = String::from_str(directory);
    path.append("/");
    path.append(name);
    path
}

impl FileRead {
    /// The path of the file that is to be read.
    pub fn path(&self) -> (path: &str)
        ensures
            path@ == self@.path,
    {
        self.path.as_str()
    }

    /// The response, once the file has been read: its content where that
    /// went well, and that it was not found where it did not. The content
    /// is compressed where the client accepts an encoding; where the encoder
    /// reports an error on it, so does this.
    pub fn finish(&self, content: Option<String>) -> (r: Result<HTTPResponse, ClientHandlerError>)
        ensures
            match content {
                Some(content) => answers(
                    r,
                    text_response(
                        ResponseStatus::Http200,
                        content@,
                        ContentType::OctetStream,
                        self@.encoding,
                    ),
                    HTTPResponseView::refuses(content@, self@.encoding),
                ),
                None => r matches Ok(response) && response@ == HTTPResponseView::bare(
                    ResponseStatus::Http404,
                ),
            },
    {
        match content {
            Some(content) => with_text(
                ResponseStatus::Http200,
                content.as_str(),
                ContentType::OctetStream,
                self.encoding.as_slice(),
                None,
            ),
            None => Ok(bare(ResponseStatus::Http404)),
        }
    }
}

impl FileWrite {
    /// The path of the file that is to be written.
    pub fn path(&self) -> (path: &str)
        ensures
            path@ == self@.path,
    {
        self.path.as_str()
    }

    /// What is to be written to the file.
    pub fn content(&self) -> (content: &str)
        ensures
            content@ == self@.content,
    {
        self.content.as_str()
    }

    /// The response, once the file has been written or could not be: that
    /// it was created, with its path for the location, or that it could not
    /// be written. The sentence that says so is compressed where the client
    /// accepts an encoding; where the encoder reports an error on it, so
    /// does this.
    pub fn finish(&self, written: bool) -> (r: Result<HTTPResponse, ClientHandlerError>)
        ensures
            answers(
                r,
                if written {
                    text_response(
                        ResponseStatus::Http201,
                        "Resource created successfully"@,
                        ContentType::TextPlain,
                        self@.encoding,
                    ).with_location(self@.path)
                } else {
                    text_response(
                        ResponseStatus::Http500,
                        "Failed to write file"@,
                        ContentType::TextPlain,
                        self@.encoding,
                    )
                },
                HTTPResponseView::refuses(
                    if written {
                        "Resource created successfully"@
                    } else {
                        "Failed to write file"@
                    },
                    self@.encoding,
                ),
            ),
    {
        if written {
            with_text(
                ResponseStatus::Http201,
                "Resource created successfully",
                ContentType::TextPlain,
                self.encoding.as_slice(),
                Some(self.path.clone()),
            )
        } else {
            with_text(
                ResponseStatus::Http500,
                "Failed to write file",
                ContentType::TextPlain,
                self.encoding.as_slice(),
                None,
            )
        }
    }
}

/// The handler of one client's request.
#[derive(Debug, Clone, PartialEq, Eq, PartialOrd, Ord)]
pub struct ClientHandler;

/// Whether `r` is what the bytes `received` are answered with, where files
/// are served from `directory`.
pub open spec fn handles(
    received: Seq<u8>,
    directory: Option<Seq<char>>,
    r: Result<Routed, ClientHandlerError>,
) -> bool {
    if received.len() >= BUFFER_SIZE {
        r matches Err(ClientHandlerError::RequestTooLarge)
    } else if !valid_utf8(received) {
        r matches Err(ClientHandlerError::Utf8Error(_, bytes)) && bytes@ == received
    } else {
        let text = decode_utf8(received);
        if text.len() == 0 {
            r matches Err(ClientHandlerError::NoRequestLineFound)
        } else {
            match RequestLine::spec_from_str(request_line_text(text)) {
                None => r matches Err(ClientHandlerError::HTTPRequestLineError(e))
                    && RequestLine::failure(request_line_text(text), e),
                Some(line) => match RequestHeader::spec_from_str(header_block(text)) {
                    Err(e) => r matches Err(ClientHandlerError::RequestHeaderError(found))
                        && found == e,
                    Ok(header) => follows(
                        r,
                        route(line, header, directory, body_text(text)),
                        header.accept_encoding,
                    ),
                },
            }
        }
    }
}

impl ClientHandler {
    /// Answers what was received of a request. Nothing is read and nothing
    /// is sent: the bytes are decoded, the request line and the headers are
    /// read from them, and the request is routed.
    pub fn parse_request(received: &[u8], directory: Option<String>) -> (r: Result<
        Routed,
        ClientHandlerError,
    >)
        ensures
            handles(received@, text_view(directory), r),
            received@.len() >= BUFFER_SIZE ==> r matches Err(ClientHandlerError::RequestTooLarge),
    {
        if received.len() >= BUFFER_SIZE {
            return Err(ClientHandlerError::RequestTooLarge);
        }
        let buf = match text_of(received) {
            Ok(buf) => buf,
            Err(e) => {
                return Err(ClientHandlerError::Utf8Error(e, slice_to_vec(received)));
            },
        };
        proof {
            encode_utf8_decode_utf8(buf@);
        }
        if buf.is_empty() {
            return Err(ClientHandlerError::NoRequestLineFound);
        }
        let parts = RequestParts::from_str(buf);
        let request_line = match RequestLine::from_str(parts.request_line.as_str()) {
            Ok(request_line) => request_line,
            Err(e) => {
                return Err(ClientHandlerError::HTTPRequestLineError(e));
            },
        };
        let request_header = match RequestHeader::from_str(parts.header_block.as_str()) {
            Ok(request_header) => request_header,
            Err(e) => {
                return Err(ClientHandlerError::RequestHeaderError(e));
            },
        };
        match request_line.method() {
            RequestMethod::Get => Self::get(&request_line, &request_header, directory),
            RequestMethod::Post => Self::post(buf, &request_line, &request_header, directory),
        }
    }

    /// Routes a GET request.
    pub fn get(
        request_line: &RequestLine,
        request_header: &RequestHeader,
        directory: Option<String>,
    ) -> (r: Result<Routed, ClientHandlerError>)
        ensures
            follows(
                r,
                route_get(request_line@.path, request_header@.user_agent, text_view(directory)),
                request_header@.accept_encoding,
            ),
    {
        let encoding = request_header.accept_encoding();
        let path = chars_of(request_line.path().as_str());
        let path = path.as_slice();
        if same_text(path, "/") {
            Ok(Routed::Response(bare(ResponseStatus::Http200)))
        } else if starts_with(path, "/echo/") {
            let from = chars_of("/echo/").len();
            let content = string_of(path, from, find(path, from, CharClass::Slash));
            text_step(ResponseStatus::Http200, content.as_str(), encoding)
        } else if starts_with(path, "/user-agent") {
            match request_header.user_agent() {
                Some(user_agent) => text_step(
                    ResponseStatus::Http200,
                    user_agent.as_str(),
                    encoding,
                ),
                None => text_step(ResponseStatus::Http400, "Missing User-Agent header", encoding),
            }
        } else if starts_with(path, "/files/") {
            let name = string_of(path, chars_of("/files/").len(), path.len());
            if name.as_str().is_empty() {
                text_step(ResponseStatus::Http400, "File asked but no filename provided", encoding)
            } else {
                match directory {
                    Some(directory) => Ok(
                        Routed::ReadFile(
                            FileRead {
                                path: join(directory.as_str(), name.as_str()),
                                encoding: slice_to_vec(encoding),
                            },
                        ),
                    ),
                    None => Ok(Routed::Response(bare(ResponseStatus::Http404))),
                }
            }
        } else {
            Ok(Routed::Response(bare(ResponseStatus::Http404)))
        }
    }

    /// Routes a POST request, whose body is taken from the text of the
    /// request where it is needed.
    pub fn post(
        request: &str,
        request_line: &RequestLine,
        request_header: &RequestHeader,
        directory: Option<String>,
    ) -> (r: Result<Routed, ClientHandlerError>)
        ensures
            follows(
                r,
                route_post(request_line@.path, text_view(directory), body_text(request@)),
                request_header@.accept_encoding,
            ),
    {
        let encoding = request_header.accept_encoding();
        let path = chars_of(request_line.path().as_str());
        let path = path.as_slice();
        if starts_with(path, "/files/") {
            let name = string_of(path, chars_of("/files/").len(), path.len());
            if name.as_str().is_empty() {
                text_step(ResponseStatus::Http400, "No filepath specified", encoding)
            } else {
                match directory {
                    Some(directory) => match RequestBody::from_str(request) {
                        Ok(content) => Ok(
                            Routed::WriteFile(
                                FileWrite {
                                    path: join(directory.as_str(), name.as_str()),
                                    content: content.to_string(),
                                    encoding: slice_to_vec(encoding),
                                },
                            ),
                        ),
                        Err(e) => Err(ClientHandlerError::RequestBodyError(e)),
                    },
                    None => Ok(Routed::Response(bare(ResponseStatus::Http404))),
                }
            }
        } else {
            Ok(Routed::Response(bare(ResponseStatus::Http404)))
        }
    }
}

/// A GET request for `/` is answered with the status 200 and nothing else,
/// whatever its headers say and wherever files are served from.
pub proof fn lemma_get_root(
    r: Result<Routed, ClientHandlerError>,
    version: Seq<char>,
    header: RequestHeaderView,
    directory: Option<Seq<char>>,
    body: Option<Seq<char>>,
)
    requires
        follows(
            r,
            route(
                RequestLineView { method: RequestMethod::Get, path: "/"@, version },
                header,
                directory,
                body,
            ),
            header.accept_encoding,
        ),
    ensures
        r matches Ok(Routed::Response(response)) && response@ == (HTTPResponseView {
            status: ResponseStatus::Http200,
            header: None,
            body: None,
        }),
{
}

/// A GET request for `/echo/` and a segment without a slash resolves to the
/// status 200 with that segment for its text. There is a response unless
/// the client accepts an encoding and the encoder reports an error on the
/// segment. The response says that its body is plain text, and how many
/// bytes it has; the body is the segment itself in UTF-8 where the client
/// accepts no encoding, and its gzip stream where the client accepts one.
pub proof fn lemma_get_echo(
    r: Result<Routed, ClientHandlerError>,
    segment: Seq<char>,
    version: Seq<char>,
    header: RequestHeaderView,
    directory: Option<Seq<char>>,
    body: Option<Seq<char>>,
)
    requires
        forall|i: int| 0 <= i < segment.len() ==> segment[i] != '/',
        follows(
            r,
            route(
                RequestLineView { method: RequestMethod::Get, path: "/echo/"@ + segment, version },
                header,
                directory,
                body,
            ),
            header.accept_encoding,
        ),
    ensures
        route_get("/echo/"@ + segment, header.user_agent, directory) == Plan::Text(
            ResponseStatus::Http200,
            segment,
        ),
        r is Err <==> HTTPResponseView::refuses(segment, header.accept_encoding),
        r matches Ok(routed) ==> routed matches Routed::Response(response) && {
            &&& response@.status == ResponseStatus::Http200
            &&& response@.body == Some(
                if header.accept_encoding.len() == 0 {
                    encode_utf8(segment)
                } else {
                    gzip_stream(encode_utf8(segment))
                },
            )
            &&& response@.header matches Some(h) && {
                &&& h.content_type == ContentType::TextPlain
                &&& h.content_length == response@.body.unwrap().len()
                &&& h.content_encoding is Some <==> header.accept_encoding.len() > 0
                &&& h.location is None
            }
        },
{
    reveal_strlit("/");
    reveal_strlit("/echo/");
    let path = "/echo/"@ + segment;
    lemma_first_in_is(path, 6, CharClass::Slash, path.len() as int);
    assert(path.subrange(6, path.len() as int) =~= segment);
}

/// A GET request for `/user-agent` is answered with the value of the
/// `User-Agent` header where there is one, under the status 200, and with
/// the status 400 and a sentence that says what is missing where there is
/// none. Either way the body is plain text, and there is a response unless
/// the client accepts an encoding and the encoder reports an error on the
/// body.
pub proof fn lemma_get_user_agent(
    r: Result<Routed, ClientHandlerError>,
    version: Seq<char>,
    header: RequestHeaderView,
    directory: Option<Seq<char>>,
    body: Option<Seq<char>>,
)
    requires
        follows(
            r,
            route(
                RequestLineView { method: RequestMethod::Get, path: "/user-agent"@, version },
                header,
                directory,
                body,
            ),
            header.accept_encoding,
        ),
    ensures
        route_get("/user-agent"@, header.user_agent, directory) == match header.user_agent {
            Some(value) => Plan::Text(ResponseStatus::Http200, value),
            None => Plan::Text(ResponseStatus::Http400, "Missing User-Agent header"@),
        },
        r is Err <==> HTTPResponseView::refuses(
            match header.user_agent {
                Some(value) => value,
                None => "Missing User-Agent header"@,
            },
            header.accept_encoding,
        ),
        r matches Ok(routed) ==> routed matches Routed::Response(response) && response@
            == match header.user_agent {
            Some(value) => text_response(
                ResponseStatus::Http200,
                value,
                ContentType::TextPlain,
                header.accept_encoding,
            ),
            None => text_response(
                ResponseStatus::Http400,
                "Missing User-Agent header"@,
                ContentType::TextPlain,
                header.accept_encoding,
            ),
        },
{
    reveal_strlit("/");
    reveal_strlit("/echo/");
    reveal_strlit("/user-agent");
    let path = "/user-agent"@;
    assert(path.subrange(0, 6)[1] != "/echo/"@[1]);
}

/// Where files are served from a directory, a POST request for `/files/`
/// and a name, with a body, has that body written to the file of that name
/// in the directory, and a GET request for the same path has that same file
/// read.
pub proof fn lemma_files_same_path(
    name: Seq<char>,
    directory: Seq<char>,
    body: Seq<char>,
    user_agent: Option<Seq<char>>,
)
    requires
        name.len() > 0,
    ensures
        route_post("/files/"@ + name, Some(directory), Some(body)) == Plan::WriteFile(
            file_path(directory, name),
            body,
        ),
        route_get("/files/"@ + name, user_agent, Some(directory)) == Plan::ReadFile(
            file_path(directory, name),
        ),
{
    reveal_strlit("/");
    reveal_strlit("/echo/");
    reveal_strlit("/user-agent");
    reveal_strlit("/files/");
    let path = "/files/"@ + name;
    assert(path.subrange(0, 6)[1] != "/echo/"@[1]);
    assert(after_prefix(path, "/files/"@) =~= name);
}

/// Once the file of a POST request has been written, the response says that
/// it was created, and names the path of the file as its location, in a line
/// of its own. There is a response unless the client accepts an encoding and
/// the encoder reports an error on the sentence that is sent.
pub proof fn lemma_created(
    r: Result<HTTPResponse, ClientHandlerError>,
    path: Seq<char>,
    encoding: Seq<Encoding>,
)
    requires
        answers(
            r,
            text_response(
                ResponseStatus::Http201,
                "Resource created successfully"@,
                ContentType::TextPlain,
                encoding,
            ).with_location(path),
            HTTPResponseView::refuses("Resource created successfully"@, encoding),
        ),
    ensures
        r is Err <==> HTTPResponseView::refuses("Resource created successfully"@, encoding),
        r matches Ok(response) ==> {
            &&& response@.status == ResponseStatus::Http201
            &&& response@.body == Some(
                HTTPResponseView::payload("Resource created successfully"@, encoding),
            )
            &&& response@.header matches Some(h) && {
                &&& h.location == Some(path)
                &&& h.location_line() == "Location: "@ + path + "\r\n"@
                &&& h.content_type == ContentType::TextPlain
                &&& h.content_length == response@.body.unwrap().len()
            }
        },
{
}

/// A request that begins with a request line as `lemma_request_line_round_trip`
/// describes it, and is shorter than the buffer, is routed by the method and
/// the path that stand in that line; where a header that is understood has
/// no value, it is refused with the error that says so.
pub proof fn lemma_valid_request_line_is_routed(
    method: Seq<char>,
    path: Seq<char>,
    version: Seq<char>,
    tail: Seq<char>,
    directory: Option<Seq<char>>,
    r: Result<Routed, ClientHandlerError>,
)
    requires
        RequestMethod::named(ascii_lowercase(method)) is Some,
        RequestPath::valid(path),
        no_whitespace(path),
        RequestVersion::prefix().is_prefix_of(version),
        version.len() > RequestVersion::prefix().len(),
        no_whitespace(version),
        encode_utf8(method + seq![' '] + path + seq![' '] + version + "\r\n"@ + tail).len()
            < BUFFER_SIZE,
        handles(
            encode_utf8(method + seq![' '] + path + seq![' '] + version + "\r\n"@ + tail),
            directory,
            r,
        ),
    ensures
        ({
            let text = method + seq![' '] + path + seq![' '] + version + "\r\n"@ + tail;
            let line = RequestLineView {
                method: RequestMethod::named(ascii_lowercase(method)).unwrap(),
                path,
                version: version.skip(RequestVersion::prefix().len() as int),
            };
            match RequestHeader::spec_from_str(header_block(text)) {
                Ok(header) => follows(
                    r,
                    route(line, header, directory, body_text(text)),
                    header.accept_encoding,
                ),
                Err(e) => r matches Err(ClientHandlerError::RequestHeaderError(found)) && found
                    == e,
            }
        }),
{
    let line = method + seq![' '] + path + seq![' '] + version;
    let text = line + "\r\n"@ + tail;
    lemma_method_name_is_one_token(method);
    lemma_request_line_round_trip(method, path, version);
    lemma_request_line_text(line, tail);
    encode_utf8_valid_utf8(text);
    encode_utf8_decode_utf8(text);
}

} // verus!
