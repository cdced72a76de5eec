//! The response that sends a rendered page.

use vstd::prelude::*;
use vstd::string::StrSliceExecFns;
use vstd::string::StringExecFns;
use vstd::utf8::encode_utf8;
use crate::error::ZirconError;
use crate::http::{Headers, StatusCode};
use crate::response::Response;
use crate::text::{ascii_lowercase, chars_of, decimal, push_char, to_decimal};
use crate::HandlerResult;

verus! {

/// The headers of a response that sends an HTML page: those it had, with
/// the page's media type and length.
pub open spec fn page_headers(before: Headers, page: Seq<char>) -> Map<Seq<char>, Seq<Seq<char>>> {
    before@.insert(ascii_lowercase("Content-Type"@), seq!["text/html"@]).insert(
        ascii_lowercase("Content-Length"@),
        seq![decimal(encode_utf8(page).len())],
    )
}

/// The name of the template in a file: the file's path below the template
/// directory without `suffix`, and none for a file without the suffix.
pub fn template_name(relative: &str, suffix: &str) -> (r: Option<String>)
    ensures
        match r {
            Some(name) => relative@ == name@ + suffix@,
            None => !(exists|name: Seq<char>| relative@ == name + suffix@),
        },
{
    let path = chars_of(relative);
    let end = chars_of(suffix);
    if end.len() > path.len() {
        assert forall|name: Seq<char>| relative@ != name + suffix@ by {
            assert((name + suffix@).len() >= suffix@.len());
        }
        return None;
    }
    let cut = path.len() - end.len();
    let mut i: usize = 0;
    while i < end.len()
        invariant
            i <= end@.len(),
            cut + end@.len() == path@.len(),
            path@.len() <= usize::MAX,
            path@ == relative@,
            end@ == suffix@,
            forall|j: int| 0 <= j < i ==> path@[cut + j] == end@[j],
        decreases end@.len() - i,
    {
        if path[cut + i] != end[i] {
            assert forall|name: Seq<char>| relative@ != name + suffix@ by {
                if relative@ == name + suffix@ {
                    assert(name.len() == cut);
                    assert((name + suffix@)[cut + i] == suffix@[i as int]);
                }
            }
            return None;
        }
        i += 1;
    }
    let mut name = String::new();
    let mut k: usize = 0;
    while k < cut
        invariant
            k <= cut <= path@.len(),
            name@ == path@.subrange(0, k as int),
        decreases cut - k,
    {
        push_char(&mut name, path[k]);
        k += 1;
        assert(name@ =~= path@.subrange(0, k as int));
    }
    assert(relative@ =~= name@ + suffix@);
    Some(name)
}

impl Response {
    /// Sends what a template was rendered to: the response with the page as
    /// its body, or status 500 with the message of the rendering error.
    pub fn render_html_page(self, rendered: Result<String, String>) -> (r: HandlerResult)
        ensures
            match rendered {
                Ok(page) => r matches Ok(resp) && resp.status == self.status && resp.headers@
                    == page_headers(self.headers, page@) && resp.body@ == encode_utf8(page@),
                Err(message) => r == Err::<Response, ZirconError>(
                    ZirconError::StringError(StatusCode::InternalServerError, message),
                ),
            },
    {
        match rendered {
            Err(message) => Err(ZirconError::StringError(StatusCode::InternalServerError, message)),
            Ok(page) => {
                let mut resp = self;
                let body = page.as_str().as_bytes_vec();
                let mut headers = Headers::new();
                std::mem::swap(&mut resp.headers, &mut headers);
                headers.set("Content-Type", String::from_str("text/html"));
                headers.set("Content-Length", to_decimal(body.len()));
                resp.headers = headers;
                resp.body = body;
                Ok(resp)
            },
        }
    }
}

} // verus!
