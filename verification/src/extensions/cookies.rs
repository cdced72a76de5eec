//! Cookies: the jar of the cookies a request came with, and the
//! `Set-Cookie` lines that tell the client what has changed in a jar.

use vstd::prelude::*;
use vstd::multiset::Multiset;
use hyper::header::Header;
use crate::request::query::pair_texts;
use crate::request::Request;
use crate::response::Response;
use crate::http::Headers;
use crate::text::{ascii_lowercase, string_texts};

verus! {

/// `cookie::CookieJar`: a collection of cookies, of which nothing is seen
/// but what the functions below say.
#[verifier::external_type_specification]
#[verifier::external_body]
pub struct ExCookieJar(cookie::CookieJar);

/// The cookies a jar was seeded with by `CookieJar::add_original`: under
/// each name the value.
pub uninterp spec fn jar_originals(jar: cookie::CookieJar) -> Map<Seq<char>, Seq<char>>;

/// The changes to a jar as `CookieJar::delta` yields them, each written as
/// a `Set-Cookie` line, in no order.
pub uninterp spec fn jar_delta_lines(jar: cookie::CookieJar) -> Multiset<Seq<char>>;

/// The pairs of names and values that hyper's `Cookie` header reads from
/// the lines of the header, and `None` where it reads no cookie.
pub uninterp spec fn cookie_header_pairs(lines: Seq<Seq<char>>) -> Option<
    Seq<(Seq<char>, Seq<char>)>,
>;

/// No cookies.
pub open spec fn no_cookies() -> Map<Seq<char>, Seq<char>> {
    Map::empty()
}

/// No lines.
pub open spec fn no_lines() -> Multiset<Seq<char>> {
    Multiset::empty()
}

/// A jar without cookies.
///
/// Trusted: `cookie::CookieJar::new`; the jar is empty and has no changes.
#[verifier::external_body]
fn new_jar() -> (jar: cookie::CookieJar)
    ensures
        jar_originals(jar) == no_cookies(),
        jar_delta_lines(jar) == no_lines(),
{
    cookie::CookieJar::new()
}

/// Seeds a jar with a cookie of a name and a value.
///
/// Trusted: `cookie::CookieJar::add_original` with `cookie::Cookie::new`.
/// The cookie takes the place of a seeded cookie of the same name, and the
/// changes of the jar stay as they are.
#[verifier::external_body]
fn seed_jar(jar: &mut cookie::CookieJar, name: String, value: String)
    ensures
        jar_originals(*final(jar)) == jar_originals(*old(jar)).insert(name@, value@),
        jar_delta_lines(*final(jar)) == jar_delta_lines(*old(jar)),
{
    jar.add_original(cookie::Cookie::new(name, value));
}

/// The changes to a jar as `Set-Cookie` lines.
///
/// Trusted: `cookie::CookieJar::delta`, each cookie written by its
/// `Display`. The jar walks a hash set, so the order of the lines is open.
#[verifier::external_body]
fn delta_lines(jar: &cookie::CookieJar) -> (lines: Vec<String>)
    ensures
        string_texts(lines@).to_multiset() == jar_delta_lines(*jar),
{
    jar.delta().map(|c| format!("{}", c)).collect()
}

/// Reads the pairs of a `Cookie` header.
///
/// Trusted: `parse_header` of `hyper::header::Cookie`; the pairs are a
/// function of the lines.
#[verifier::external_body]
fn read_cookie_header(lines: &Vec<String>) -> (r: Option<Vec<(String, String)>>)
    ensures
        match r {
            Some(pairs) => cookie_header_pairs(string_texts(lines@)) == Some(pair_texts(pairs@)),
            None => cookie_header_pairs(string_texts(lines@)) is None,
        },
{
    let raw: Vec<Vec<u8>> = lines.iter().map(|line| line.clone().into_bytes()).collect();
    match hyper::header::Cookie::parse_header(&hyper::header::Raw::from(raw)) {
        Ok(cookies) => Some(cookies.iter().map(|(k, v)| (k.to_string(), v.to_string())).collect()),
        Err(_) => None,
    }
}

/// The cookies that seeding a jar with a list of pairs leaves in it: a
/// later pair takes the place of an earlier pair of the same name.
pub open spec fn seeded(pairs: Seq<(Seq<char>, Seq<char>)>) -> Map<Seq<char>, Seq<char>>
    decreases pairs.len(),
{
    if pairs.len() == 0 {
        no_cookies()
    } else {
        seeded(pairs.drop_last()).insert(pairs.last().0, pairs.last().1)
    }
}

/// The cookies a request came with.
pub open spec fn request_cookies(req: Request) -> Map<Seq<char>, Seq<char>> {
    match req.header.headers.lines_of("Cookie"@) {
        Some(lines) => match cookie_header_pairs(lines) {
            Some(pairs) => seeded(pairs),
            None => no_cookies(),
        },
        None => no_cookies(),
    }
}

/// The jar seeded with the cookies of a list of pairs.
pub fn jar_of_pairs(pairs: &Vec<(String, String)>) -> (jar: cookie::CookieJar)
    ensures
        jar_originals(jar) == seeded(pair_texts(pairs@)),
        jar_delta_lines(jar) == no_lines(),
{
    let ghost all = pair_texts(pairs@);
    let mut jar = new_jar();
    let mut i: usize = 0;
    assert(all.take(0) =~= Seq::<(Seq<char>, Seq<char>)>::empty());
    while i < pairs.len()
        invariant
            i <= pairs@.len(),
            all == pair_texts(pairs@),
            jar_originals(jar) == seeded(all.take(i as int)),
            jar_delta_lines(jar) == no_lines(),
        decreases pairs@.len() - i,
    {
        let name = pairs[i].0.clone();
        let value = pairs[i].1.clone();
        seed_jar(&mut jar, name, value);
        assert(all.take(i as int + 1).drop_last() =~= all.take(i as int));
        i += 1;
    }
    assert(all.take(pairs@.len() as int) =~= all);
    jar
}

/// A request gives the jar of the cookies it came with.
pub trait GetCookieJar {
    fn cookie_jar(&self) -> cookie::CookieJar;
}

/// A response takes the changes of a jar.
pub trait SetCookieJar: Sized {
    fn with_cookie_jar(self, jar: &cookie::CookieJar) -> Self;
}

impl GetCookieJar for Request {
    /// The jar seeded with the cookies of the `Cookie` header, and without changes.
    fn cookie_jar(&self) -> (jar: cookie::CookieJar)
        ensures
            jar_originals(jar) == request_cookies(*self),
            jar_delta_lines(jar) == no_lines(),
    {
        match self.headers().get_lines("Cookie") {
            Some(lines) => match read_cookie_header(lines) {
                Some(pairs) => jar_of_pairs(&pairs),
                None => new_jar(),
            },
            None => new_jar(),
        }
    }
}

/// Whether `after` is `before` with `lines` as its `Set-Cookie` lines.
pub open spec fn sets_cookies(before: Response, lines: Seq<Seq<char>>, after: Response) -> bool {
    &&& after.status == before.status
    &&& after.headers@ == before.headers@.insert(ascii_lowercase("Set-Cookie"@), lines)
    &&& after.body@ == before.body@
}

impl Response {
    /// The response with `lines` as its `Set-Cookie` lines.
    pub fn with_set_cookie_lines(self, lines: Vec<String>) -> (r: Response)
        ensures
            sets_cookies(self, string_texts(lines@), r),
    {
        let mut resp = self;
        let mut headers = Headers::new();
        std::mem::swap(&mut resp.headers, &mut headers);
        headers.set_lines("Set-Cookie", lines);
        resp.headers = headers;
        resp
    }
}

impl SetCookieJar for Response {
    /// The response with the changes of the jar as its `Set-Cookie` lines,
    /// in some order.
    fn with_cookie_jar(self, jar: &cookie::CookieJar) -> (r: Response)
        ensures
            exists|lines: Seq<Seq<char>>|
                lines.to_multiset() == jar_delta_lines(*jar) && #[trigger] sets_cookies(
                    self,
                    lines,
                    r,
                ),
    {
        let lines = delta_lines(jar);
        let ghost texts = string_texts(lines@);
        let r = self.with_set_cookie_lines(lines);
        assert(sets_cookies(self, texts, r));
        r
    }
}

} // verus!
