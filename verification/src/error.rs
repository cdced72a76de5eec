//! The failures a handler can report, and the responses they turn into.

use vstd::prelude::*;
use vstd::string::StrSliceExecFns;
use vstd::string::StringExecFns;
use vstd::utf8::encode_utf8;
use crate::http::StatusCode;
use crate::response::Response;
use crate::HandlerResult;

verus! {

/// What a handler reports when it cannot answer.
#[derive(Debug, Clone, PartialEq, Eq)]
pub enum ZirconError {
    /// An error that specifies only the HTTP status.
    Status(StatusCode),
    /// An error that specifies the HTTP status and an error message.
    StringError(StatusCode, String),
    /// A file or network operation failed; holds the system's description.
    IoError(String),
    /// The HTTP transport reported an error; holds its description.
    HyperError(String),
    /// A JSON body could not be decoded or encoded; holds the description.
    JsonError(String),
}

/// The status of the response that the default error handler gives for `err`.
pub open spec fn error_status(err: ZirconError) -> StatusCode {
    match err {
        ZirconError::Status(code) => code,
        ZirconError::StringError(code, _) => code,
        ZirconError::IoError(_) => StatusCode::InternalServerError,
        ZirconError::HyperError(_) => StatusCode::InternalServerError,
        ZirconError::JsonError(_) => StatusCode::InternalServerError,
    }
}

/// The text in the body of the response that the default error handler gives for `err`.
pub open spec fn error_text(err: ZirconError) -> Seq<char> {
    match err {
        ZirconError::Status(_) => Seq::<char>::empty(),
        ZirconError::StringError(_, message) => message@,
        ZirconError::IoError(description) => description@,
        ZirconError::HyperError(description) => description@,
        ZirconError::JsonError(description) => description@,
    }
}

impl ZirconError {
    /// Hands the error over as the failed outcome of a handler.
    pub fn render(self) -> (r: HandlerResult)
        ensures
            r == Err::<Response, ZirconError>(self),
    {
        Err(self)
    }

    /// An error with a status and a message.
    pub fn message(code: StatusCode, message: &str) -> (e: ZirconError)
        ensures
            e matches ZirconError::StringError(c, m) && c == code && m@ == message@,
    {
        ZirconError::StringError(code, String::from_str(message))
    }

    /// The failed outcome that carries only a status.
    pub fn render_error_status(code: StatusCode) -> (r: HandlerResult)
        ensures
            r == Err::<Response, ZirconError>(ZirconError::Status(code)),
    {
        Err(ZirconError::Status(code))
    }

    /// The failed outcome that carries a status and a message.
    pub fn render_error_message(code: StatusCode, message: &str) -> (r: HandlerResult)
        ensures
            r matches Err(ZirconError::StringError(c, m)) && c == code && m@ == message@,
    {
        Err(ZirconError::StringError(code, String::from_str(message)))
    }
}

impl From<String> for ZirconError {
    /// A message alone stands for an internal server error.
    fn from(err: String) -> (e: ZirconError) {
        ZirconError::StringError(StatusCode::InternalServerError, err)
    }
}

impl vstd::std_specs::convert::FromSpecImpl<String> for ZirconError {
    open spec fn obeys_from_spec() -> bool {
        true
    }

    open spec fn from_spec(err: String) -> ZirconError {
        ZirconError::StringError(StatusCode::InternalServerError, err)
    }
}

impl<'a> From<&'a str> for ZirconError {
    /// A message alone stands for an internal server error.
    fn from(err: &'a str) -> (e: ZirconError)
        ensures
            e matches ZirconError::StringError(code, message) && code
                == StatusCode::InternalServerError && message@ == err@,
    {
        ZirconError::StringError(StatusCode::InternalServerError, String::from_str(err))
    }
}

impl<'a> vstd::std_specs::convert::FromSpecImpl<&'a str> for ZirconError {
    /// The error holds a string of its own, of which only the text is
    /// known: `from` states the result itself.
    open spec fn obeys_from_spec() -> bool {
        false
    }

    open spec fn from_spec(err: &'a str) -> ZirconError {
        arbitrary()
    }
}

/// The response of the default error handler: the status the error names,
/// or 500 where it names none, and the error's text as the body.
pub fn make_default_error_response(err: &ZirconError) -> (resp: Response)
    ensures
        resp.status == error_status(*err),
        resp.headers@ == Map::<Seq<char>, Seq<Seq<char>>>::empty(),
        resp.body@ == encode_utf8(error_text(*err)),
{
    let mut resp = Response::new();
    match err {
        ZirconError::Status(code) => {
            resp.status = *code;
            assert(encode_utf8(Seq::<char>::empty()) =~= Seq::<u8>::empty());
        },
        ZirconError::StringError(code, message) => {
            resp.status = *code;
            resp.body = message.as_str().as_bytes_vec();
        },
        ZirconError::IoError(description) => {
            resp.status = StatusCode::InternalServerError;
            resp.body = description.as_str().as_bytes_vec();
        },
        ZirconError::HyperError(description) => {
            resp.status = StatusCode::InternalServerError;
            resp.body = description.as_str().as_bytes_vec();
        },
        ZirconError::JsonError(description) => {
            resp.status = StatusCode::InternalServerError;
            resp.body = description.as_str().as_bytes_vec();
        },
    }
    resp
}

/// The response of last resort: status 500, no header, no body.
pub fn make_fallback_error_response() -> (resp: Response)
    ensures
        resp.status == StatusCode::InternalServerError,
        resp.headers@ == Map::<Seq<char>, Seq<Seq<char>>>::empty(),
        resp.body@ == Seq::<u8>::empty(),
{
    let mut resp = Response::new();
    resp.status = StatusCode::InternalServerError;
    resp
}

} // verus!
