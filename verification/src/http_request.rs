//! The request: its first line, the headers that are understood, and its body.

use crate::text::{
    after_line, ascii_lower, ascii_lowercase, chars_of, find, first_in, is_whitespace,
    lemma_first_in, lemma_first_in_is, lemma_token_at, line_at, line_span, lines, lowercase,
    same_text, split_lines, split_whitespace, starts_with, string_of, to_ascii_lowercase,
    to_lowercase, tokens, trim_end, trimmed_end, CharClass,
};
use vstd::prelude::*;
use vstd::slice::slice_subrange;

verus! {

/// A way of encoding a response body that a client can ask for.
#[derive(Debug, Clone, Copy, PartialEq, Eq, PartialOrd, Ord)]
pub enum Encoding {
    Gzip,
}

/// The first item of a list whose items are separated by commas or white
/// space; empty where the list has no item.
pub open spec fn first_item(list: Seq<char>) -> Seq<char> {
    let start = first_in(list, 0, CharClass::Item);
    list.subrange(start, first_in(list, start, CharClass::Separator))
}

impl Encoding {
    /// The token that names the encoding in a header.
    pub open spec fn token(self) -> Seq<char> {
        match self {
            Encoding::Gzip => "gzip"@,
        }
    }

    /// The encodings that a client is taken to accept when it sends `list`:
    /// the one that the first item of `list` names, if it names one. Later
    /// items and weights are not looked at.
    pub open spec fn accepted(list: Seq<char>) -> Seq<Encoding> {
        if first_item(list) == Encoding::Gzip.token() {
            seq![Encoding::Gzip]
        } else {
            Seq::empty()
        }
    }

    /// The token that names the encoding in a header.
    pub fn to_string(&self) -> (s: String)
        ensures
            s@ == self.token(),
    {
        match self {
            Encoding::Gzip => String::from_str("gzip"),
        }
    }

    /// The encodings that `Encoding::accepted` describes.
    pub fn negotiate(list: &str) -> (encodings: Vec<Encoding>)
        ensures
            encodings@ == Encoding::accepted(list@),
    {
        let chars = chars_of(list);
        let start = find(chars.as_slice(), 0, CharClass::Item);
        let end = find(chars.as_slice(), start, CharClass::Separator);
        let mut encodings: Vec<Encoding> = Vec::new();
        if same_text(slice_subrange(chars.as_slice(), start, end), "gzip") {
            encodings.push(Encoding::Gzip);
        }
        encodings
    }
}

/// The value of the `Host` header.
#[derive(Debug, Clone, PartialEq, Eq, PartialOrd, Ord)]
pub struct Host(String);

impl View for Host {
    type V = Seq<char>;

    closed spec fn view(&self) -> Seq<char> {
        self.0@
    }
}

impl Host {
    pub fn new(value: String) -> (host: Host)
        ensures
            host@ == value@,
    {
        Host(value)
    }

    pub fn as_str(&self) -> (s: &str)
        ensures
            s@ == self@,
    {
        self.0.as_str()
    }

    pub fn to_string(&self) -> (s: String)
        ensures
            s@ == self@,
    {
        self.0.clone()
    }
}

/// The value of the `User-Agent` header.
#[derive(Debug, Clone, PartialEq, Eq, PartialOrd, Ord)]
pub struct UserAgent(String);

impl View for UserAgent {
    type V = Seq<char>;

    closed spec fn view(&self) -> Seq<char> {
        self.0@
    }
}

impl UserAgent {
    pub fn new(value: String) -> (user_agent: UserAgent)
        ensures
            user_agent@ == value@,
    {
        UserAgent(value)
    }

    pub fn as_str(&self) -> (s: &str)
        ensures
            s@ == self@,
    {
        self.0.as_str()
    }

    pub fn to_string(&self) -> (s: String)
        ensures
            s@ == self@,
    {
        self.0.clone()
    }
}

/// A header that is understood was sent without a value.
#[derive(Debug, Clone, Copy, PartialEq, Eq, PartialOrd, Ord)]
pub enum RequestHeaderError {
    InvalidHost,
    InvalidUserAgent,
    InvalidAcceptEncoding,
}

/// What stands behind `prefix` in the first of `lines` that begins with it.
pub open spec fn first_with_prefix(lines: Seq<Seq<char>>, prefix: Seq<char>) -> Option<Seq<char>>
    decreases lines.len(),
{
    if lines.len() == 0 {
        None
    } else if prefix.is_prefix_of(lines[0]) {
        Some(lines[0].skip(prefix.len() as int))
    } else {
        first_with_prefix(lines.drop_first(), prefix)
    }
}

/// The value of the header that `prefix` names: what stands behind `prefix`
/// in the first line of `text` that begins with it.
pub open spec fn header_value(text: Seq<char>, prefix: Seq<char>) -> Option<Seq<char>> {
    first_with_prefix(lines(text), prefix)
}

/// The headers that are understood, as plain values.
pub struct RequestHeaderView {
    pub host: Option<Seq<char>>,
    pub user_agent: Option<Seq<char>>,
    pub accept_encoding: Seq<Encoding>,
}

/// The headers of a request that are understood.
#[derive(Debug, Clone, PartialEq, Eq, PartialOrd, Ord)]
pub struct RequestHeader {
    host: Option<Host>,
    user_agent: Option<UserAgent>,
    accept_encoding: Vec<Encoding>,
}

impl View for RequestHeader {
    type V = RequestHeaderView;

    closed spec fn view(&self) -> RequestHeaderView {
        RequestHeaderView {
            host: match self.host {
                Some(host) => Some(host@),
                None => None,
            },
            user_agent: match self.user_agent {
                Some(user_agent) => Some(user_agent@),
                None => None,
            },
            accept_encoding: self.accept_encoding@,
        }
    }
}

/// What stands behind `prefix` in the first of `lines` that begins with it.
fn find_header(lines: &Vec<String>, prefix: &str) -> (value: Option<String>)
    ensures
        match value {
            Some(value) => first_with_prefix(lines.deep_view(), prefix@) == Some(value@),
            None => first_with_prefix(lines.deep_view(), prefix@) is None,
        },
{
    let wanted = chars_of(prefix);
    let mut i: usize = 0;
    assert(lines.deep_view().skip(0) =~= lines.deep_view());
    while i < lines.len()
        invariant
            i <= lines@.len(),
            wanted@ == prefix@,
            first_with_prefix(lines.deep_view(), prefix@) == first_with_prefix(
                lines.deep_view().skip(i as int),
                prefix@,
            ),
        decreases lines@.len() - i,
    {
        let line = chars_of(lines[i].as_str());
        if starts_with(line.as_slice(), prefix) {
            let value = string_of(line.as_slice(), wanted.len(), line.len());
            return Some(value);
        }
        assert(lines.deep_view().skip(i as int).drop_first() =~= lines.deep_view().skip(i + 1));
        i += 1;
    }
    None
}

impl RequestHeader {
    /// What the lines of `text` say of the headers that are understood, or
    /// which of them has no value. The headers are looked for in this order:
    /// `Host`, `User-Agent`, `Accept-Encoding`; other lines say nothing.
    pub open spec fn spec_from_str(text: Seq<char>) -> Result<
        RequestHeaderView,
        RequestHeaderError,
    > {
        let host = header_value(text, "Host: "@);
        let user_agent = header_value(text, "User-Agent: "@);
        let accept_encoding = header_value(text, "Accept-Encoding: "@);
        if host matches Some(value) && value.len() == 0 {
            Err(RequestHeaderError::InvalidHost)
        } else if user_agent matches Some(value) && value.len() == 0 {
            Err(RequestHeaderError::InvalidUserAgent)
        } else if accept_encoding matches Some(value) && value.len() == 0 {
            Err(RequestHeaderError::InvalidAcceptEncoding)
        } else {
            Ok(
                RequestHeaderView {
                    host,
                    user_agent,
                    accept_encoding: match accept_encoding {
                        Some(list) => Encoding::accepted(list),
                        None => Seq::empty(),
                    },
                },
            )
        }
    }

    /// Reads the headers that are understood from the lines of `s`.
    pub fn from_str(s: &str) -> (r: Result<Self, RequestHeaderError>)
        ensures
            match r {
                Ok(header) => RequestHeader::spec_from_str(s@) == Ok::<
                    RequestHeaderView,
                    RequestHeaderError,
                >(header@),
                Err(e) => RequestHeader::spec_from_str(s@) == Err::<
                    RequestHeaderView,
                    RequestHeaderError,
                >(e),
            },
    {
        let lines = split_lines(s);
        let host = match find_header(&lines, "Host: ") {
            Some(value) => {
                if value.as_str().is_empty() {
                    return Err(RequestHeaderError::InvalidHost);
                }
                Some(Host(value))
            },
            None => None,
        };
        let user_agent = match find_header(&lines, "User-Agent: ") {
            Some(value) => {
                if value.as_str().is_empty() {
                    return Err(RequestHeaderError::InvalidUserAgent);
                }
                Some(UserAgent(value))
            },
            None => None,
        };
        let accept_encoding = match find_header(&lines, "Accept-Encoding: ") {
            Some(list) => {
                if list.as_str().is_empty() {
                    return Err(RequestHeaderError::InvalidAcceptEncoding);
                }
                Encoding::negotiate(list.as_str())
            },
            None => Vec::new(),
        };
        Ok(Self { host, user_agent, accept_encoding })
    }

    pub fn _host(&self) -> (host: Option<&Host>)
        ensures
            match host {
                Some(host) => self@.host == Some(host@),
                None => self@.host is None,
            },
    {
        self.host.as_ref()
    }

    pub fn user_agent(&self) -> (user_agent: Option<&UserAgent>)
        ensures
            match user_agent {
                Some(user_agent) => self@.user_agent == Some(user_agent@),
                None => self@.user_agent is None,
            },
    {
        self.user_agent.as_ref()
    }

    pub fn accept_encoding(&self) -> (encodings: &[Encoding])
        ensures
            encodings@ == self@.accept_encoding,
    {
        self.accept_encoding.as_slice()
    }

    /// The headers of a request that sent none.
    pub fn _empty() -> (header: Self)
        ensures
            header@ == (RequestHeaderView {
                host: None,
                user_agent: None,
                accept_encoding: Seq::empty(),
            }),
    {
        Self { host: None, user_agent: None, accept_encoding: Vec::new() }
    }
}

/// The methods that are understood.
#[derive(Debug, Clone, Copy, PartialEq, Eq, PartialOrd, Ord)]
pub enum RequestMethod {
    Get,
    Post,
}

/// The token is not the name of a method that is understood. The error holds
/// the token in lower case, letters outside ASCII included.
#[derive(Debug, Clone, PartialEq, Eq, PartialOrd, Ord)]
pub enum HTTPMethodError {
    InvalidHTTPMethod(String),
}

impl RequestMethod {
    /// The name of the method, as it is written in a request.
    pub open spec fn name(self) -> Seq<char> {
        match self {
            RequestMethod::Get => "GET"@,
            RequestMethod::Post => "POST"@,
        }
    }

    /// The method that a token in lower case names.
    pub open spec fn named(lower: Seq<char>) -> Option<RequestMethod> {
        if lower == "get"@ {
            Some(RequestMethod::Get)
        } else if lower == "post"@ {
            Some(RequestMethod::Post)
        } else {
            None
        }
    }

    /// Whether `e` is the error that the token `s` is refused with.
    pub open spec fn failure(s: Seq<char>, e: HTTPMethodError) -> bool {
        match e {
            HTTPMethodError::InvalidHTTPMethod(text) => {
                &&& RequestMethod::named(ascii_lowercase(s)) is None
                &&& text@ == lowercase(s)
            },
        }
    }

    /// The method that `s` names, whatever the case of its ASCII letters.
    pub fn from_str(s: &str) -> (r: Result<Self, HTTPMethodError>)
        ensures
            match r {
                Ok(method) => RequestMethod::named(ascii_lowercase(s@)) == Some(method),
                Err(e) => RequestMethod::failure(s@, e),
            },
    {
        let lower = to_ascii_lowercase(s);
        let chars = chars_of(lower.as_str());
        if same_text(chars.as_slice(), "get") {
            Ok(RequestMethod::Get)
        } else if same_text(chars.as_slice(), "post") {
            Ok(RequestMethod::Post)
        } else {
            Err(HTTPMethodError::InvalidHTTPMethod(to_lowercase(s)))
        }
    }

    /// The name of the method, as it is written in a request.
    pub fn to_string(&self) -> (s: String)
        ensures
            s@ == self.name(),
    {
        match self {
            RequestMethod::Get => String::from_str("GET"),
            RequestMethod::Post => String::from_str("POST"),
        }
    }
}

/// The path does not begin with a slash. The error holds a sentence that
/// says so of the path.
#[derive(Debug, Clone, PartialEq, Eq, PartialOrd, Ord)]
pub enum HTTPPathError {
    InvalidHTTPPath(String),
}

/// The path of a request: a text that begins with a slash. It is kept as it
/// was sent.
#[derive(Debug, PartialEq, Eq, PartialOrd, Ord)]
pub struct RequestPath(String);

impl View for RequestPath {
    type V = Seq<char>;

    closed spec fn view(&self) -> Seq<char> {
        self.0@
    }
}

impl Clone for RequestPath {
    fn clone(&self) -> (path: Self)
        ensures
            path@ == self@,
    {
        proof {
            use_type_invariant(self);
        }
        RequestPath(self.0.clone())
    }
}

impl RequestPath {
    #[verifier::type_invariant]
    spec fn well_formed(&self) -> bool {
        RequestPath::valid(self.0@)
    }

    /// Whether `s` can be a path: it begins with a slash.
    pub open spec fn valid(s: Seq<char>) -> bool {
        s.len() > 0 && s[0] == '/'
    }

    /// The sentence that a text which cannot be a path is refused with.
    pub open spec fn complaint(s: Seq<char>) -> Seq<char> {
        "Path '"@ + s + "' does not start with '/'"@
    }

    /// Whether `e` is the error that `s` is refused with.
    pub open spec fn failure(s: Seq<char>, e: HTTPPathError) -> bool {
        match e {
            HTTPPathError::InvalidHTTPPath(text) => {
                &&& !RequestPath::valid(s)
                &&& text@ == RequestPath::complaint(s)
            },
        }
    }

    /// Takes `s` for a path where it begins with a slash.
    pub fn from_str(s: &str) -> (r: Result<Self, HTTPPathError>)
        ensures
            match r {
                Ok(path) => RequestPath::valid(s@) && path@ == s@,
                Err(e) => RequestPath::failure(s@, e),
            },
    {
        let chars = chars_of(s);
        if chars.len() > 0 && chars[0] == '/' {
            Ok(RequestPath(String::from_str(s)))
        } else {
            let mut text = String::from_str("Path '");
            text.append(s);
            text.append("' does not start with '/'");
            Err(HTTPPathError::InvalidHTTPPath(text))
        }
    }

    pub fn as_str(&self) -> (s: &str)
        ensures
            s@ == self@,
            RequestPath::valid(self@),
    {
        proof {
            use_type_invariant(self);
        }
        self.0.as_str()
    }

    pub fn to_string(&self) -> (s: String)
        ensures
            s@ == self@,
            RequestPath::valid(self@),
    {
        proof {
            use_type_invariant(self);
        }
        self.0.clone()
    }
}

/// Why a token is not a version. Each error holds the token.
#[derive(Debug, Clone, PartialEq, Eq, PartialOrd, Ord)]
pub enum HTTPVersionError {
    /// The token does not begin with `HTTP/`.
    InvalidHTTPVersionFormat(String),
    /// Nothing but white space stands behind `HTTP/`.
    MissingVersionNumber(String),
}

/// The version of a request: what stood behind `HTTP/`, which is not empty.
/// It is not held to be a version that exists.
#[derive(Debug, PartialEq, Eq, PartialOrd, Ord)]
pub struct RequestVersion(String);

impl View for RequestVersion {
    type V = Seq<char>;

    closed spec fn view(&self) -> Seq<char> {
        self.0@
    }
}

impl Clone for RequestVersion {
    fn clone(&self) -> (version: Self)
        ensures
            version@ == self@,
    {
        proof {
            use_type_invariant(self);
        }
        RequestVersion(self.0.clone())
    }
}

impl RequestVersion {
    #[verifier::type_invariant]
    spec fn well_formed(&self) -> bool {
        self.0@.len() > 0
    }

    /// What a version begins with.
    pub open spec fn prefix() -> Seq<char> {
        "HTTP/"@
    }

    /// What stands behind the prefix in `s`, without the white space at its
    /// end.
    pub open spec fn rest(s: Seq<char>) -> Seq<char> {
        trim_end(s.skip(RequestVersion::prefix().len() as int))
    }

    /// The version that `s` gives, where it gives one.
    pub open spec fn number(s: Seq<char>) -> Option<Seq<char>> {
        if RequestVersion::prefix().is_prefix_of(s) && RequestVersion::rest(s).len() > 0 {
            Some(RequestVersion::rest(s))
        } else {
            None
        }
    }

    /// Whether `e` is the error that `s` is refused with.
    pub open spec fn failure(s: Seq<char>, e: HTTPVersionError) -> bool {
        match e {
            HTTPVersionError::InvalidHTTPVersionFormat(text) => {
                &&& !RequestVersion::prefix().is_prefix_of(s)
                &&& text@ == s
            },
            HTTPVersionError::MissingVersionNumber(text) => {
                &&& RequestVersion::prefix().is_prefix_of(s)
                &&& RequestVersion::rest(s).len() == 0
                &&& text@ == s
            },
        }
    }

    /// Reads the version that stands behind `HTTP/` in `s`.
    pub fn from_str(s: &str) -> (r: Result<Self, HTTPVersionError>)
        ensures
            match r {
                Ok(version) => RequestVersion::number(s@) == Some(version@),
                Err(e) => RequestVersion::number(s@) is None && RequestVersion::failure(s@, e),
            },
    {
        let chars = chars_of(s);
        if !starts_with(chars.as_slice(), "HTTP/") {
            return Err(HTTPVersionError::InvalidHTTPVersionFormat(String::from_str(s)));
        }
        let from = chars_of("HTTP/").len();
        let end = trimmed_end(chars.as_slice(), from);
        if end == from {
            return Err(HTTPVersionError::MissingVersionNumber(String::from_str(s)));
        }
        Ok(RequestVersion(string_of(chars.as_slice(), from, end)))
    }

    pub fn as_str(&self) -> (s: &str)
        ensures
            s@ == self@,
            self@.len() > 0,
    {
        proof {
            use_type_invariant(self);
        }
        self.0.as_str()
    }
}

/// Why a line is not a request line. The first three errors hold the line.
#[derive(Debug, Clone, PartialEq, Eq, PartialOrd, Ord)]
pub enum HTTPRequestLineError {
    /// The line has no token.
    MissingMethod(String),
    /// The line has no second token, or one that does not begin with a slash.
    MissingPath(String),
    /// The line has no third token.
    MissingVersion(String),
    HTTPMethodError(HTTPMethodError),
    HTTPPathError(HTTPPathError),
    HTTPVersionError(HTTPVersionError),
}

/// A request line, as plain values.
pub struct RequestLineView {
    pub method: RequestMethod,
    pub path: Seq<char>,
    pub version: Seq<char>,
}

/// The first line of a request: method, path and version.
#[derive(Debug, Clone, PartialEq, Eq, PartialOrd, Ord)]
pub struct RequestLine {
    method: RequestMethod,
    path: RequestPath,
    version: RequestVersion,
}

impl View for RequestLine {
    type V = RequestLineView;

    closed spec fn view(&self) -> RequestLineView {
        RequestLineView { method: self.method, path: self.path@, version: self.version@ }
    }
}

impl RequestLine {
    /// What the line `s` says, where it is a request line: its first three
    /// tokens are a method, a path and a version. Further tokens are not
    /// looked at.
    pub open spec fn spec_from_str(s: Seq<char>) -> Option<RequestLineView> {
        let t = tokens(s);
        if t.len() >= 3 && RequestPath::valid(t[1]) && RequestMethod::named(ascii_lowercase(t[0]))
            is Some && RequestVersion::number(t[2]) is Some {
            Some(
                RequestLineView {
                    method: RequestMethod::named(ascii_lowercase(t[0])).unwrap(),
                    path: t[1],
                    version: RequestVersion::number(t[2]).unwrap(),
                },
            )
        } else {
            None
        }
    }

    /// Whether `e` is the error that the line `s` is refused with. A token
    /// that is missing is reported before one that is there is looked into.
    pub open spec fn failure(s: Seq<char>, e: HTTPRequestLineError) -> bool {
        let t = tokens(s);
        match e {
            HTTPRequestLineError::MissingMethod(text) => t.len() == 0 && text@ == s,
            HTTPRequestLineError::MissingPath(text) => {
                &&& t.len() == 1 || (t.len() >= 2 && !RequestPath::valid(t[1]))
                &&& text@ == s
            },
            HTTPRequestLineError::MissingVersion(text) => {
                &&& t.len() == 2
                &&& RequestPath::valid(t[1])
                &&& text@ == s
            },
            HTTPRequestLineError::HTTPMethodError(e) => {
                &&& t.len() >= 3
                &&& RequestPath::valid(t[1])
                &&& RequestMethod::failure(t[0], e)
            },
            HTTPRequestLineError::HTTPPathError(e) => false,
            HTTPRequestLineError::HTTPVersionError(e) => {
                &&& t.len() >= 3
                &&& RequestPath::valid(t[1])
                &&& RequestMethod::named(ascii_lowercase(t[0])) is Some
                &&& RequestVersion::failure(t[2], e)
            },
        }
    }

    /// Reads method, path and version from the tokens of the line `s`.
    pub fn from_str(s: &str) -> (r: Result<Self, HTTPRequestLineError>)
        ensures
            match r {
                Ok(line) => RequestLine::spec_from_str(s@) == Some(line@),
                Err(e) => RequestLine::spec_from_str(s@) is None && RequestLine::failure(s@, e),
            },
    {
        let tokens = split_whitespace(s);
        if tokens.len() < 1 {
            return Err(HTTPRequestLineError::MissingMethod(String::from_str(s)));
        }
        if tokens.len() < 2 {
            return Err(HTTPRequestLineError::MissingPath(String::from_str(s)));
        }
        let path = match RequestPath::from_str(tokens[1].as_str()) {
            Ok(path) => path,
            Err(_) => {
                return Err(HTTPRequestLineError::MissingPath(String::from_str(s)));
            },
        };
        if tokens.len() < 3 {
            return Err(HTTPRequestLineError::MissingVersion(String::from_str(s)));
        }
        let method = match RequestMethod::from_str(tokens[0].as_str()) {
            Ok(method) => method,
            Err(e) => {
                return Err(HTTPRequestLineError::HTTPMethodError(e));
            },
        };
        let version = match RequestVersion::from_str(tokens[2].as_str()) {
            Ok(version) => version,
            Err(e) => {
                return Err(HTTPRequestLineError::HTTPVersionError(e));
            },
        };
        Ok(Self { method, path, version })
    }

    pub fn method(&self) -> (method: &RequestMethod)
        ensures
            *method == self@.method,
    {
        &self.method
    }

    pub fn path(&self) -> (path: &RequestPath)
        ensures
            path@ == self@.path,
    {
        &self.path
    }

    pub fn version(&self) -> (version: &RequestVersion)
        ensures
            version@ == self@.version,
    {
        &self.version
    }
}

/// Whether no character of `s` is white space.
pub open spec fn no_whitespace(s: Seq<char>) -> bool {
    forall|i: int| 0 <= i < s.len() ==> !is_whitespace(#[trigger] s[i])
}

/// The name of a method that is understood holds no white space, in whatever
/// case it is written.
pub proof fn lemma_method_name_is_one_token(method: Seq<char>)
    requires
        RequestMethod::named(ascii_lowercase(method)) is Some,
    ensures
        method.len() > 0,
        no_whitespace(method),
{
    reveal_strlit("get");
    reveal_strlit("post");
    let lower = ascii_lowercase(method);
    assert(lower.len() == method.len());
    assert forall|i: int| 0 <= i < method.len() implies !is_whitespace(#[trigger] method[i]) by {
        assert(lower[i] == ascii_lower(method[i]));
    }
}

/// A method that is understood, a path that begins with a slash and a
/// version that begins with `HTTP/` and goes on, none of them with white
/// space in it, written with one space between them, make a request line.
/// What is read from it is the method that was named, the path as it was
/// written, and what stood behind `HTTP/`.
pub proof fn lemma_request_line_round_trip(method: Seq<char>, path: Seq<char>, version: Seq<char>)
    requires
        RequestMethod::named(ascii_lowercase(method)) is Some,
        RequestPath::valid(path),
        no_whitespace(path),
        RequestVersion::prefix().is_prefix_of(version),
        version.len() > RequestVersion::prefix().len(),
        no_whitespace(version),
    ensures
        RequestLine::spec_from_str(method + seq![' '] + path + seq![' '] + version) == Some(
            RequestLineView {
                method: RequestMethod::named(ascii_lowercase(method)).unwrap(),
                path,
                version: version.skip(RequestVersion::prefix().len() as int),
            },
        ),
{
    lemma_method_name_is_one_token(method);
    let line = method + seq![' '] + path + seq![' '] + version;
    let a = method.len() as int;
    let b = a + 1 + path.len();
    let c = b + 1 + version.len();
    assert(line.subrange(0, a) =~= method);
    assert(line.subrange(a + 1, b) =~= path);
    assert(line.subrange(b + 1, c) =~= version);
    lemma_token_at(line, 0, 0, a);
    lemma_token_at(line, a, a + 1, b);
    lemma_token_at(line, b, b + 1, c);
}

/// The start of the first line, among the line that starts at `from` and
/// those after it, that is empty (where `blank` holds) or not empty (where it
/// does not); the length of `s` where there is no such line.
pub open spec fn find_line(s: Seq<char>, from: int, blank: bool) -> int
    decreases s.len() - from,
    via find_line_decreases
{
    if 0 <= from < s.len() && (line_at(s, from).len() == 0) != blank {
        find_line(s, after_line(s, from), blank)
    } else {
        from
    }
}

#[via_fn]
proof fn find_line_decreases(s: Seq<char>, from: int, blank: bool) {
    if 0 <= from < s.len() {
        lemma_first_in(s, from, CharClass::LineFeed);
    }
}

/// Where the request line of the request `s` starts: at its first line that
/// is not empty.
pub open spec fn request_line_start(s: Seq<char>) -> int {
    find_line(s, 0, false)
}

/// The request line of the request `s`: its first line that is not empty, or
/// the empty line where it has no other.
pub open spec fn request_line_text(s: Seq<char>) -> Seq<char> {
    let start = request_line_start(s);
    if start < s.len() {
        line_at(s, start)
    } else {
        Seq::empty()
    }
}

/// Where the headers of the request `s` start: behind its request line.
pub open spec fn header_start(s: Seq<char>) -> int {
    let start = request_line_start(s);
    if start < s.len() {
        after_line(s, start)
    } else {
        s.len() as int
    }
}

/// Where the headers of the request `s` end: at the first empty line behind
/// the request line, or at the end where there is none.
pub open spec fn header_end(s: Seq<char>) -> int {
    find_line(s, header_start(s), true)
}

/// The headers of the request `s`: the lines between its request line and
/// the first empty line behind it.
pub open spec fn header_block(s: Seq<char>) -> Seq<char> {
    s.subrange(header_start(s), header_end(s))
}

/// The body of the request `s`: all that stands behind the empty line that
/// ends the headers. A request without that line has no body.
pub open spec fn body_text(s: Seq<char>) -> Option<Seq<char>> {
    let end = header_end(s);
    if end < s.len() {
        Some(s.skip(after_line(s, end)))
    } else {
        None
    }
}

/// A line that is not empty and holds no line feed, with a carriage return
/// and a line feed behind it, is the request line of the request that it
/// begins, whatever comes after.
pub proof fn lemma_request_line_text(line: Seq<char>, tail: Seq<char>)
    requires
        line.len() > 0,
        forall|i: int| 0 <= i < line.len() ==> line[i] != '\n',
    ensures
        request_line_text(line + "\r\n"@ + tail) == line,
{
    reveal_strlit("\r\n");
    let s = line + "\r\n"@ + tail;
    let feed = line.len() as int + 1;
    lemma_first_in_is(s, 0, CharClass::LineFeed, feed);
}

/// The start of the line that `find_line` describes.
fn seek_line(chars: &[char], from: usize, blank: bool) -> (at: usize)
    requires
        from <= chars@.len(),
    ensures
        at == find_line(chars@, from as int, blank),
        from <= at <= chars@.len(),
{
    let mut at: usize = from;
    loop
        invariant
            from <= at <= chars@.len(),
            find_line(chars@, from as int, blank) == find_line(chars@, at as int, blank),
        ensures
            at == find_line(chars@, from as int, blank),
            from <= at <= chars@.len(),
        decreases chars@.len() - at,
    {
        if at >= chars.len() {
            break ;
        }
        let (end, next) = line_span(chars, at);
        if (end == at) == blank {
            break ;
        }
        at = next;
    }
    at
}

/// The three parts of a request.
#[derive(Debug, Clone, PartialEq, Eq, PartialOrd, Ord)]
pub struct RequestParts {
    pub request_line: String,
    pub header_block: String,
    pub body: Option<String>,
}

impl RequestParts {
    /// Parts the request `s` into its request line, its headers and its body.
    pub fn from_str(s: &str) -> (parts: RequestParts)
        ensures
            parts.request_line@ == request_line_text(s@),
            parts.header_block@ == header_block(s@),
            match parts.body {
                Some(body) => body_text(s@) == Some(body@),
                None => body_text(s@) is None,
            },
    {
        let chars = chars_of(s);
        let chars = chars.as_slice();
        let start = seek_line(chars, 0, false);
        let (request_line, header_start) = if start < chars.len() {
            let (end, next) = line_span(chars, start);
            (string_of(chars, start, end), next)
        } else {
            (String::new(), chars.len())
        };
        let header_end = seek_line(chars, header_start, true);
        let header_block = string_of(chars, header_start, header_end);
        let body = if header_end < chars.len() {
            let (_, next) = line_span(chars, header_end);
            let body = string_of(chars, next, chars.len());
            Some(body)
        } else {
            None
        };
        RequestParts { request_line, header_block, body }
    }
}

/// The request has no empty line behind its headers, and so no body.
#[derive(Debug, Clone, Copy, PartialEq, Eq, PartialOrd, Ord)]
pub enum RequestBodyError {
    MissingBody,
}

/// The body of a request, as it was sent.
#[derive(Debug, Clone, PartialEq, Eq, PartialOrd, Ord)]
pub struct RequestBody(String);

impl View for RequestBody {
    type V = Seq<char>;

    closed spec fn view(&self) -> Seq<char> {
        self.0@
    }
}

impl RequestBody {
    /// The body of the request `s`.
    pub fn from_str(s: &str) -> (r: Result<Self, RequestBodyError>)
        ensures
            match r {
                Ok(body) => body_text(s@) == Some(body@),
                Err(e) => body_text(s@) is None,
            },
    {
        match RequestParts::from_str(s).body {
            Some(body) => Ok(RequestBody(body)),
            None => Err(RequestBodyError::MissingBody),
        }
    }

    pub fn as_str(&self) -> (s: &str)
        ensures
            s@ == self@,
    {
        self.0.as_str()
    }

    pub fn to_string(&self) -> (s: String)
        ensures
            s@ == self@,
    {
        self.0.clone()
    }
}

} // verus!
