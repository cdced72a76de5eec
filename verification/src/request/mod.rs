//! The request a handler answers.

pub mod query;

use vstd::prelude::*;
use crate::error::ZirconError;
use crate::handlers::router::matcher::first_value;
use crate::handlers::router::RouteResult;
use vstd::string::StrSliceExecFns;
use crate::http::{Headers, Method};
use crate::text::{trim_bounds, trimmed};
use self::query::{form_urlencoded_pairs, query_of};

pub use self::query::Query;

verus! {

/// `serde_json::Value`: a JSON value, carried as it is.
#[verifier::external_type_specification]
#[verifier::external_body]
pub struct ExJson(serde_json::Value);

/// `serde_json::Error`: why bytes were not read as JSON.
#[verifier::external_type_specification]
#[verifier::external_body]
pub struct ExJsonError(serde_json::Error);

/// The typed values that features attach to a request, at most one of each
/// type: a `typemap::TypeMap`, reached through `map`.
#[verifier::external_body]
pub struct Extensions {
    pub map: typemap::TypeMap,
}

/// The number of values that the extensions hold: what `TypeMap::len` returns.
pub uninterp spec fn extensions_len(extensions: Extensions) -> nat;

/// Extensions that hold nothing.
///
/// Trusted: `typemap::TypeMap::new`; the new map is empty.
#[verifier::external_body]
fn empty_extensions() -> (e: Extensions)
    ensures
        extensions_len(e) == 0,
{
    Extensions { map: typemap::TypeMap::new() }
}

/// The number of values in the extensions.
///
/// Trusted: `typemap::TypeMap::len`.
#[verifier::external_body]
fn count_extensions(extensions: &Extensions) -> (n: usize)
    ensures
        n == extensions_len(*extensions),
{
    extensions.map.len()
}

impl Extensions {
    /// Extensions that hold nothing.
    pub fn new() -> (e: Extensions)
        ensures
            extensions_len(e) == 0,
    {
        empty_extensions()
    }

    /// The number of values held.
    pub fn len(&self) -> (n: usize)
        ensures
            n == extensions_len(*self),
    {
        count_extensions(self)
    }
}

/// The text that `String::from_utf8_lossy` makes of a run of bytes.
pub uninterp spec fn utf8_lossy(bytes: Seq<u8>) -> Seq<char>;

/// Whether `serde_json::from_slice` reads a JSON value from a run of bytes.
pub uninterp spec fn json_parses(bytes: Seq<u8>) -> bool;

/// The JSON value that `serde_json::from_slice` reads from a run of bytes.
pub uninterp spec fn json_value(bytes: Seq<u8>) -> serde_json::Value;

/// The bytes as text, with a replacement character for what is not UTF-8.
///
/// Trusted: `String::from_utf8_lossy` of the standard library; the text is a
/// function of the bytes.
#[verifier::external_body]
fn lossy_text(bytes: &Vec<u8>) -> (r: String)
    ensures
        r@ == utf8_lossy(bytes@),
{
    String::from_utf8_lossy(bytes).into_owned()
}

/// Reads a JSON value.
///
/// Trusted: `serde_json::from_slice` at the type `serde_json::Value`;
/// whether it reads a value, and which, is a function of the bytes.
#[verifier::external_body]
fn json_from_slice(bytes: &Vec<u8>) -> (r: Result<serde_json::Value, serde_json::Error>)
    ensures
        r is Ok <==> json_parses(bytes@),
        r matches Ok(value) ==> value == json_value(bytes@),
{
    serde_json::from_slice(bytes)
}

/// The message of a JSON error.
///
/// Trusted: `serde_json::Error` as text; nothing is claimed of the text.
#[verifier::external_body]
fn json_error_text(err: &serde_json::Error) -> (r: String) {
    format!("{}", err)
}

/// What a request says of itself before its body: method, address and
/// headers, and what routing has added.
pub struct RequestHeader {
    /// The request method.
    pub method: Method,
    /// The scheme of the address the request came to.
    pub scheme: Option<String>,
    /// The path of the address the request came to.
    pub uri_path: String,
    /// The query string of the address the request came to.
    pub query: Option<String>,
    /// The request headers.
    pub headers: Headers,
    /// Routing result.
    pub params: Option<RouteResult>,
    /// The path in place of the one of the address, where a mount has set one.
    pub modified_path: Option<String>,
    /// Respect `X-Forwarded-*`.
    pub respect_xforwarded: bool,
    /// Extension
    pub extensions: Extensions,
}

/// What a forwarding header says: the text proper of its line, where it
/// has one line and the line is not empty.
pub open spec fn forwarded_value(lines: Option<Seq<Seq<char>>>) -> Option<Seq<char>> {
    match lines {
        Some(l) => if l.len() == 1 && l[0].len() > 0 {
            Some(trimmed(l[0]))
        } else {
            None
        },
        None => None,
    }
}

/// The text of an optional string.
pub open spec fn text_of(s: Option<String>) -> Option<Seq<char>> {
    match s {
        Some(t) => Some(t@),
        None => None,
    }
}

impl RequestHeader {
    /// The scheme a handler sees: that of `X-Forwarded-Proto` where the
    /// request respects forwarding and the header says one, else that of
    /// the address.
    pub open spec fn effective_scheme(&self) -> Option<Seq<char>> {
        if self.respect_xforwarded && forwarded_value(
            self.headers.lines_of("X-Forwarded-Proto"@),
        ) is Some {
            forwarded_value(self.headers.lines_of("X-Forwarded-Proto"@))
        } else {
            text_of(self.scheme)
        }
    }

    /// The path a handler sees: the modified path where one is set, else
    /// that of the address.
    pub open spec fn effective_path(&self) -> Seq<char> {
        match self.modified_path {
            Some(p) => p@,
            None => self.uri_path@,
        }
    }

    /// The header of a request for the given method and address.
    pub fn new(
        method: Method,
        scheme: Option<String>,
        path: String,
        query: Option<String>,
        headers: Headers,
    ) -> (h: RequestHeader)
        ensures
            h.method == method,
            h.scheme == scheme,
            h.uri_path == path,
            h.query == query,
            h.headers == headers,
            h.params is None,
            h.modified_path is None,
            !h.respect_xforwarded,
            extensions_len(h.extensions) == 0,
    {
        RequestHeader {
            method: method,
            scheme: scheme,
            uri_path: path,
            query: query,
            headers: headers,
            params: None,
            modified_path: None,
            respect_xforwarded: false,
            extensions: Extensions::new(),
        }
    }

    pub fn method(&self) -> (m: &Method)
        ensures
            *m == self.method,
    {
        &self.method
    }

    pub fn headers(&self) -> (h: &Headers)
        ensures
            *h == self.headers,
    {
        &self.headers
    }

    /// Returns scheme.
    pub fn scheme(&self) -> (r: Option<&str>)
        ensures
            match r {
                Some(s) => self.effective_scheme() == Some(s@),
                None => self.effective_scheme() is None,
            },
    {
        if self.respect_xforwarded {
            match self.headers.get_lines("X-Forwarded-Proto") {
                Some(lines) => {
                    if lines.len() == 1 && !lines[0].as_str().is_empty() {
                        let line = lines[0].as_str();
                        let (from, to) = trim_bounds(line);
                        return Some(line.substring_char(from, to));
                    }
                },
                None => {},
            }
        }
        match &self.scheme {
            Some(s) => Some(s.as_str()),
            None => None,
        }
    }

    /// The path a handler sees.
    pub fn path(&self) -> (p: &str)
        ensures
            p@ == self.effective_path(),
    {
        match &self.modified_path {
            Some(x) => x.as_str(),
            None => self.uri_path.as_str(),
        }
    }

    pub fn modified_path(&self) -> (p: &Option<String>)
        ensures
            *p == self.modified_path,
    {
        &self.modified_path
    }

    pub fn set_modified_path(&mut self, path: Option<String>)
        ensures
            *final(self) == (RequestHeader { modified_path: path, ..*old(self) }),
    {
        self.modified_path = path
    }

    /// Returns routing parameter. Not from query string.
    pub fn param(&self, key: &str) -> (r: Option<&str>)
        requires
            self.params is Some,
        ensures
            match r {
                Some(v) => first_value(self.params->0@, key@) == Some(v@),
                None => first_value(self.params->0@, key@) is None,
            },
    {
        match &self.params {
            Some(result) => result.param(key),
            None => vstd::pervasive::unreached(),
        }
    }

    pub fn set_params(&mut self, result: Option<RouteResult>)
        ensures
            *final(self) == (RequestHeader { params: result, ..*old(self) }),
    {
        self.params = result;
    }

    /// Parses query string.
    pub fn parse_query(&self) -> (q: Query)
        ensures
            q@ == match self.query {
                Some(s) => query_of(form_urlencoded_pairs(s@)),
                None => Map::<Seq<char>, Seq<Seq<char>>>::empty(),
            },
    {
        match &self.query {
            Some(q) => Query::from_string(q.as_str()),
            None => Query::new(),
        }
    }
}

/// The body of a request: the bytes that were read of it, and what went
/// wrong where reading it failed.
pub struct RequestBody {
    body: Vec<u8>,
    failure: Option<String>,
}

impl View for RequestBody {
    type V = Seq<u8>;

    /// The bytes that were read.
    closed spec fn view(&self) -> Seq<u8> {
        self.body@
    }
}

/// What parsing a form body gives: the error of the transport where the
/// body could not be read, else the parameters.
pub open spec fn form_outcome(body: RequestBody, r: Result<Query, ZirconError>) -> bool {
    match body.failure() {
        Some(description) => r matches Err(ZirconError::HyperError(d)) && d@ == description,
        None => r matches Ok(q) && q@ == query_of(form_urlencoded_pairs(utf8_lossy(body@))),
    }
}

/// What parsing a JSON body gives: the error of the transport where the
/// body could not be read, else the value where the bytes are JSON, and an
/// error of JSON where they are not.
pub open spec fn json_body_outcome(
    body: RequestBody,
    r: Result<serde_json::Value, ZirconError>,
) -> bool {
    match body.failure() {
        Some(description) => r matches Err(ZirconError::HyperError(d)) && d@ == description,
        None => if json_parses(body@) {
            r == Ok::<serde_json::Value, ZirconError>(json_value(body@))
        } else {
            r matches Err(e) && e is JsonError
        },
    }
}

/// What `RequestBody::parse_json_body` makes of a JSON value read, or of the
/// message of the error that kept it from one.
pub fn json_outcome(parsed: Result<serde_json::Value, String>) -> (r: Result<
    serde_json::Value,
    ZirconError,
>)
    ensures
        match parsed {
            Ok(value) => r == Ok::<serde_json::Value, ZirconError>(value),
            Err(message) => r == Err::<serde_json::Value, ZirconError>(
                ZirconError::JsonError(message),
            ),
        },
{
    match parsed {
        Ok(value) => Ok(value),
        Err(message) => Err(ZirconError::JsonError(message)),
    }
}

impl RequestBody {
    /// What went wrong where reading the body failed.
    pub closed spec fn failure(&self) -> Option<Seq<char>> {
        text_of(self.failure)
    }

    /// A body of the given bytes, read to its end.
    pub fn new(body: Vec<u8>) -> (b: RequestBody)
        ensures
            b@ == body@,
            b.failure() is None,
    {
        RequestBody { body: body, failure: None }
    }

    /// The body that could not be read, with the transport's description
    /// of what went wrong.
    pub fn failed(description: String) -> (b: RequestBody)
        ensures
            b@ == Seq::<u8>::empty(),
            b.failure() == Some(description@),
    {
        RequestBody { body: Vec::new(), failure: Some(description) }
    }

    /// What went wrong where reading the body failed.
    pub fn read_error(&self) -> (r: Option<&str>)
        ensures
            match r {
                Some(d) => self.failure() == Some(d@),
                None => self.failure() is None,
            },
    {
        match &self.failure {
            Some(d) => Some(d.as_str()),
            None => None,
        }
    }

    /// The bytes of the body.
    pub fn bytes(&self) -> (b: &Vec<u8>)
        ensures
            b@ == self@,
    {
        &self.body
    }

    /// Parses form body. multipart is not supported yet.
    pub fn parse_form_body(self) -> (r: Result<Query, ZirconError>)
        ensures
            form_outcome(self, r),
    {
        match self.failure {
            Some(description) => Err(ZirconError::HyperError(description)),
            None => {
                let text = lossy_text(&self.body);
                Ok(Query::from_string(text.as_str()))
            },
        }
    }

    /// Parses the body as JSON.
    pub fn parse_json_body(self) -> (r: Result<serde_json::Value, ZirconError>)
        ensures
            json_body_outcome(self, r),
    {
        match self.failure {
            Some(description) => Err(ZirconError::HyperError(description)),
            None => match json_from_slice(&self.body) {
                Ok(value) => json_outcome(Ok(value)),
                Err(err) => json_outcome(Err(json_error_text(&err))),
            },
        }
    }
}

/// A request: its header and its body.
pub struct Request {
    pub header: RequestHeader,
    pub body: RequestBody,
}

impl Request {
    /// The request for the given method, address, headers and body.
    pub fn from_internal(
        method: Method,
        scheme: Option<String>,
        path: String,
        query: Option<String>,
        headers: Headers,
        body: Vec<u8>,
    ) -> (r: Request)
        ensures
            r.header.method == method,
            r.header.scheme == scheme,
            r.header.uri_path == path,
            r.header.query == query,
            r.header.headers == headers,
            r.header.params is None,
            r.header.modified_path is None,
            !r.header.respect_xforwarded,
            extensions_len(r.header.extensions) == 0,
            r.body@ == body@,
            r.body.failure() is None,
    {
        Request {
            header: RequestHeader::new(method, scheme, path, query, headers),
            body: RequestBody::new(body),
        }
    }

    pub fn deconstruct(self) -> (r: (RequestHeader, RequestBody))
        ensures
            r.0 == self.header,
            r.1 == self.body,
    {
        (self.header, self.body)
    }

    pub fn method(&self) -> (m: &Method)
        ensures
            *m == self.header.method,
    {
        self.header.method()
    }

    pub fn headers(&self) -> (h: &Headers)
        ensures
            *h == self.header.headers,
    {
        self.header.headers()
    }

    /// Returns scheme.
    pub fn scheme(&self) -> (r: Option<&str>)
        ensures
            match r {
                Some(s) => self.header.effective_scheme() == Some(s@),
                None => self.header.effective_scheme() is None,
            },
    {
        self.header.scheme()
    }

    /// The path a handler sees.
    pub fn path(&self) -> (p: &str)
        ensures
            p@ == self.header.effective_path(),
    {
        self.header.path()
    }

    pub fn modified_path(&self) -> (p: &Option<String>)
        ensures
            *p == self.header.modified_path,
    {
        self.header.modified_path()
    }

    pub fn set_modified_path(&mut self, path: Option<String>)
        ensures
            final(self).header == (RequestHeader { modified_path: path, ..old(self).header }),
            final(self).body == old(self).body,
    {
        self.header.set_modified_path(path)
    }

    /// Returns routing parameter. Not from query string.
    pub fn param(&self, key: &str) -> (r: Option<&str>)
        requires
            self.header.params is Some,
        ensures
            match r {
                Some(v) => first_value(self.header.params->0@, key@) == Some(v@),
                None => first_value(self.header.params->0@, key@) is None,
            },
    {
        self.header.param(key)
    }

    /// Set routing parameter.
    pub fn set_params(&mut self, result: Option<RouteResult>)
        ensures
            final(self).header == (RequestHeader { params: result, ..old(self).header }),
            final(self).body == old(self).body,
    {
        self.header.set_params(result)
    }

    /// The typed values attached to the request.
    pub fn extensions(&self) -> (e: &Extensions)
        ensures
            *e == self.header.extensions,
    {
        &self.header.extensions
    }

    /// The typed values attached to the request, to change them.
    pub fn extensions_mut(&mut self) -> (e: &mut Extensions)
        ensures
            *e == old(self).header.extensions,
            final(self).header == (RequestHeader { extensions: *final(e), ..old(self).header }),
            final(self).body == old(self).body,
    {
        &mut self.header.extensions
    }

    /// Parses query string.
    pub fn parse_query(&self) -> (q: Query)
        ensures
            q@ == match self.header.query {
                Some(s) => query_of(form_urlencoded_pairs(s@)),
                None => Map::<Seq<char>, Seq<Seq<char>>>::empty(),
            },
    {
        self.header.parse_query()
    }
}

} // verus!
