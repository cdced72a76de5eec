//! The response that sends a file.

use vstd::prelude::*;
use vstd::string::StringExecFns;
use crate::error::ZirconError;
use crate::http::Headers;
use crate::response::Response;
use crate::text::ascii_lowercase;
use crate::HandlerResult;

verus! {

/// The headers of a response that sends a file: those it had, and a
/// `Cache-Control` of one day where it had none.
pub open spec fn file_headers(before: Headers) -> Map<Seq<char>, Seq<Seq<char>>> {
    if before.lines_of("Cache-Control"@) is Some {
        before@
    } else {
        before@.insert(ascii_lowercase("Cache-Control"@), seq!["max-age=86400"@])
    }
}

impl Response {
    /// Sends what was read of a file: the response with the content as its
    /// body, or the error of the read.
    pub fn render_file_content(self, read: Result<Vec<u8>, String>) -> (r: HandlerResult)
        ensures
            match read {
                Ok(content) => r matches Ok(resp) && resp.status == self.status && resp.headers@
                    == file_headers(self.headers) && resp.body@ == content@,
                Err(description) => r == Err::<Response, ZirconError>(
                    ZirconError::IoError(description),
                ),
            },
    {
        match read {
            Err(description) => Err(ZirconError::IoError(description)),
            Ok(content) => {
                let mut resp = self;
                let mut headers = Headers::new();
                std::mem::swap(&mut resp.headers, &mut headers);
                if !headers.has("Cache-Control") {
                    // Default is 1day.
                    headers.set("Cache-Control", String::from_str("max-age=86400"));
                }
                resp.headers = headers;
                resp.body = content;
                Ok(resp)
            },
        }
    }
}

} // verus!
