//! The response a handler builds.

use vstd::prelude::*;
use vstd::string::StrSliceExecFns;
use vstd::string::StringExecFns;
use vstd::utf8::encode_utf8;
use crate::http::{one_header, Headers, StatusCode};
use crate::error::ZirconError;
use crate::text::{ascii_lowercase, decimal, to_decimal};
use crate::HandlerResult;

verus! {

/// An HTTP response: status, headers and body.
#[derive(Debug)]
pub struct Response {
    pub status: StatusCode,
    pub headers: Headers,
    pub body: Vec<u8>,
}

/// The headers of a response that carries `content` under the media type `media`.
pub open spec fn content_headers(media: Seq<char>, content: Seq<char>) -> Map<
    Seq<char>,
    Seq<Seq<char>>,
> {
    one_header("Content-Length"@, decimal(encode_utf8(content).len())).insert(
        ascii_lowercase("Content-Type"@),
        seq![media],
    )
}

impl Response {
    /// Whether the response is the fresh one: status 200, no header, no body.
    pub open spec fn is_fresh(&self) -> bool {
        &&& self.status == StatusCode::Okay
        &&& self.headers@ == Map::<Seq<char>, Seq<Seq<char>>>::empty()
        &&& self.body@ == Seq::<u8>::empty()
    }

    /// Creates a fresh response.
    pub fn new() -> (r: Response)
        ensures
            r.is_fresh(),
    {
        Response { status: StatusCode::Okay, headers: Headers::new(), body: Vec::new() }
    }

    /// Hands the response over as the successful outcome of a handler.
    pub fn render(self) -> (r: HandlerResult)
        ensures
            r == Ok::<Response, ZirconError>(self),
    {
        Ok(self)
    }

    /// A response with `content` as its body under the media type `media`.
    fn with_content(media: &str, content: &str) -> (r: Response)
        ensures
            r.status == StatusCode::Okay,
            r.headers@ == content_headers(media@, content@),
            r.body@ == encode_utf8(content@),
    {
        let mut resp = Response::new();
        let body = content.as_bytes_vec();
        let mut headers = Headers::new();
        headers.set("Content-Length", to_decimal(body.len()));
        headers.set("Content-Type", String::from_str(media));
        resp.headers = headers;
        resp.body = body;
        resp
    }

    /// Creates a response that contains only text.
    pub fn text(text: &str) -> (r: Response)
        ensures
            r.status == StatusCode::Okay,
            r.headers@ == content_headers("text/plain; charset=utf-8"@, text@),
            r.body@ == encode_utf8(text@),
    {
        Self::with_content("text/plain; charset=utf-8", text)
    }

    /// Creates a JSON response from the text of a JSON value.
    pub fn json(obj: &str) -> (r: Response)
        ensures
            r.status == StatusCode::Okay,
            r.headers@ == content_headers("application/json"@, obj@),
            r.body@ == encode_utf8(obj@),
    {
        Self::with_content("application/json", obj)
    }

    /// Creates a response that redirects to `url`.
    pub fn redirect(url: &str) -> (r: Response)
        ensures
            r.status == StatusCode::Found,
            r.headers@ == one_header("Location"@, url@),
            r.body@ == Seq::<u8>::empty(),
    {
        let mut resp = Response::new();
        resp.status = StatusCode::Found;
        let mut headers = Headers::new();
        headers.set("Location", String::from_str(url));
        resp.headers = headers;
        resp
    }

    /// Sets a header, in place of the value that was under its name.
    /// Use like a builder.
    pub fn with_header(self, name: &str, value: &str) -> (r: Response)
        ensures
            r.status == self.status,
            r.headers@ == self.headers@.insert(ascii_lowercase(name@), seq![value@]),
            r.body@ == self.body@,
    {
        let mut resp = self;
        let mut headers = Headers::new();
        std::mem::swap(&mut resp.headers, &mut headers);
        headers.set(name, String::from_str(value));
        resp.headers = headers;
        resp
    }

    /// Sets the status code. Use like a builder.
    pub fn with_status(self, status: StatusCode) -> (r: Response)
        ensures
            r.status == status,
            r.headers@ == self.headers@,
            r.body@ == self.body@,
    {
        let mut resp = self;
        resp.status = status;
        resp
    }
}

} // verus!
