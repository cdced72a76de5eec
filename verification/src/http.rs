//! The plain values of an HTTP exchange: method, status code and headers.

use vstd::prelude::*;
use crate::assoc::{
    copy_entries, find_name, lemma_appended, lemma_entry_stands, lemma_replaced,
    lemma_same_entries, lines_by_name, names_differ,
};
use crate::text::{ascii_lowercase, string_texts, to_ascii_lowercase};

verus! {

/// The request method.
#[derive(Clone, Debug)]
pub enum Method {
    Options,
    Get,
    Post,
    Put,
    Delete,
    Head,
    Trace,
    Connect,
    Patch,
    /// A method outside the standard set, by its name.
    Extension(String),
}

impl Method {
    /// Whether two methods are the same: the same standard method, or
    /// extensions of the same name.
    pub open spec fn same(&self, other: &Method) -> bool {
        match (*self, *other) {
            (Method::Options, Method::Options) => true,
            (Method::Get, Method::Get) => true,
            (Method::Post, Method::Post) => true,
            (Method::Put, Method::Put) => true,
            (Method::Delete, Method::Delete) => true,
            (Method::Head, Method::Head) => true,
            (Method::Trace, Method::Trace) => true,
            (Method::Connect, Method::Connect) => true,
            (Method::Patch, Method::Patch) => true,
            (Method::Extension(a), Method::Extension(b)) => a@ == b@,
            _ => false,
        }
    }
}

impl PartialEq for Method {
    fn eq(&self, other: &Method) -> (r: bool) {
        match self {
            Method::Options => matches!(other, Method::Options),
            Method::Get => matches!(other, Method::Get),
            Method::Post => matches!(other, Method::Post),
            Method::Put => matches!(other, Method::Put),
            Method::Delete => matches!(other, Method::Delete),
            Method::Head => matches!(other, Method::Head),
            Method::Trace => matches!(other, Method::Trace),
            Method::Connect => matches!(other, Method::Connect),
            Method::Patch => matches!(other, Method::Patch),
            Method::Extension(a) => match other {
                Method::Extension(b) => *a == *b,
                _ => false,
            },
        }
    }
}

impl vstd::std_specs::cmp::PartialEqSpecImpl for Method {
    open spec fn obeys_eq_spec() -> bool {
        true
    }

    open spec fn eq_spec(&self, other: &Method) -> bool {
        self.same(other)
    }
}

/// The status of a response.
#[derive(Clone, Copy, PartialEq, Eq, Structural, Debug)]
pub enum StatusCode {
    Okay,
    Created,
    Accepted,
    NoContent,
    MovedPermanently,
    Found,
    SeeOther,
    NotModified,
    TemporaryRedirect,
    PermanentRedirect,
    BadRequest,
    Unauthorized,
    Forbidden,
    NotFound,
    MethodNotAllowed,
    RequestTimeout,
    Conflict,
    InternalServerError,
    NotImplemented,
    BadGateway,
    ServiceUnavailable,
    GatewayTimeout,
    /// Any other code, by its number.
    Unregistered(u16),
}

/// The number of a status code.
pub open spec fn status_number(s: StatusCode) -> u16 {
    match s {
        StatusCode::Okay => 200,
        StatusCode::Created => 201,
        StatusCode::Accepted => 202,
        StatusCode::NoContent => 204,
        StatusCode::MovedPermanently => 301,
        StatusCode::Found => 302,
        StatusCode::SeeOther => 303,
        StatusCode::NotModified => 304,
        StatusCode::TemporaryRedirect => 307,
        StatusCode::PermanentRedirect => 308,
        StatusCode::BadRequest => 400,
        StatusCode::Unauthorized => 401,
        StatusCode::Forbidden => 403,
        StatusCode::NotFound => 404,
        StatusCode::MethodNotAllowed => 405,
        StatusCode::RequestTimeout => 408,
        StatusCode::Conflict => 409,
        StatusCode::InternalServerError => 500,
        StatusCode::NotImplemented => 501,
        StatusCode::BadGateway => 502,
        StatusCode::ServiceUnavailable => 503,
        StatusCode::GatewayTimeout => 504,
        StatusCode::Unregistered(n) => n,
    }
}

/// Whether a status code is written as it comes out of
/// `StatusCode::from_u16`: a number that has a name is held under that name.
pub open spec fn status_is_canonical(s: StatusCode) -> bool {
    s matches StatusCode::Unregistered(n) ==> status_of_number(n) == s
}

/// The status code of a number: the named one where the number has a name.
pub open spec fn status_of_number(n: u16) -> StatusCode {
    if n == 200 {
        StatusCode::Okay
    } else if n == 201 {
        StatusCode::Created
    } else if n == 202 {
        StatusCode::Accepted
    } else if n == 204 {
        StatusCode::NoContent
    } else if n == 301 {
        StatusCode::MovedPermanently
    } else if n == 302 {
        StatusCode::Found
    } else if n == 303 {
        StatusCode::SeeOther
    } else if n == 304 {
        StatusCode::NotModified
    } else if n == 307 {
        StatusCode::TemporaryRedirect
    } else if n == 308 {
        StatusCode::PermanentRedirect
    } else if n == 400 {
        StatusCode::BadRequest
    } else if n == 401 {
        StatusCode::Unauthorized
    } else if n == 403 {
        StatusCode::Forbidden
    } else if n == 404 {
        StatusCode::NotFound
    } else if n == 405 {
        StatusCode::MethodNotAllowed
    } else if n == 408 {
        StatusCode::RequestTimeout
    } else if n == 409 {
        StatusCode::Conflict
    } else if n == 500 {
        StatusCode::InternalServerError
    } else if n == 501 {
        StatusCode::NotImplemented
    } else if n == 502 {
        StatusCode::BadGateway
    } else if n == 503 {
        StatusCode::ServiceUnavailable
    } else if n == 504 {
        StatusCode::GatewayTimeout
    } else {
        StatusCode::Unregistered(n)
    }
}

impl StatusCode {
    /// The number of the status code.
    pub fn to_u16(&self) -> (n: u16)
        ensures
            n == status_number(*self),
    {
        match self {
            StatusCode::Okay => 200,
            StatusCode::Created => 201,
            StatusCode::Accepted => 202,
            StatusCode::NoContent => 204,
            StatusCode::MovedPermanently => 301,
            StatusCode::Found => 302,
            StatusCode::SeeOther => 303,
            StatusCode::NotModified => 304,
            StatusCode::TemporaryRedirect => 307,
            StatusCode::PermanentRedirect => 308,
            StatusCode::BadRequest => 400,
            StatusCode::Unauthorized => 401,
            StatusCode::Forbidden => 403,
            StatusCode::NotFound => 404,
            StatusCode::MethodNotAllowed => 405,
            StatusCode::RequestTimeout => 408,
            StatusCode::Conflict => 409,
            StatusCode::InternalServerError => 500,
            StatusCode::NotImplemented => 501,
            StatusCode::BadGateway => 502,
            StatusCode::ServiceUnavailable => 503,
            StatusCode::GatewayTimeout => 504,
            StatusCode::Unregistered(n) => *n,
        }
    }

    /// The status code of a number.
    pub fn from_u16(n: u16) -> (s: StatusCode)
        ensures
            s == status_of_number(n),
            status_number(s) == n,
            status_is_canonical(s),
    {
        match n {
            200 => StatusCode::Okay,
            201 => StatusCode::Created,
            202 => StatusCode::Accepted,
            204 => StatusCode::NoContent,
            301 => StatusCode::MovedPermanently,
            302 => StatusCode::Found,
            303 => StatusCode::SeeOther,
            304 => StatusCode::NotModified,
            307 => StatusCode::TemporaryRedirect,
            308 => StatusCode::PermanentRedirect,
            400 => StatusCode::BadRequest,
            401 => StatusCode::Unauthorized,
            403 => StatusCode::Forbidden,
            404 => StatusCode::NotFound,
            405 => StatusCode::MethodNotAllowed,
            408 => StatusCode::RequestTimeout,
            409 => StatusCode::Conflict,
            500 => StatusCode::InternalServerError,
            501 => StatusCode::NotImplemented,
            502 => StatusCode::BadGateway,
            503 => StatusCode::ServiceUnavailable,
            504 => StatusCode::GatewayTimeout,
            _ => StatusCode::Unregistered(n),
        }
    }
}

/// The headers of a request or a response: under each name the lines given
/// for it, names compared without regard to ASCII case.
#[derive(Debug)]
pub struct Headers {
    entries: Vec<(String, Vec<String>)>,
}

/// Whether a list of entries holds no name twice, and every name in lower case.
pub open spec fn entries_ok(s: Seq<(String, Vec<String>)>) -> bool {
    &&& forall|i: int| 0 <= i < s.len() ==> (#[trigger] s[i]).0@ == ascii_lowercase(s[i].0@)
    &&& names_differ(s)
}

/// The headers that hold nothing but `value` under `name`.
pub open spec fn one_header(name: Seq<char>, value: Seq<char>) -> Map<Seq<char>, Seq<Seq<char>>> {
    Map::<Seq<char>, Seq<Seq<char>>>::empty().insert(ascii_lowercase(name), seq![value])
}

impl View for Headers {
    type V = Map<Seq<char>, Seq<Seq<char>>>;

    /// The lines under each name, the names in lower case.
    closed spec fn view(&self) -> Map<Seq<char>, Seq<Seq<char>>> {
        lines_by_name(self.entries@)
    }
}

impl Clone for Headers {
    fn clone(&self) -> (r: Headers)
        ensures
            r@ == self@,
    {
        Headers { entries: self.to_pairs() }
    }
}

impl Headers {
    #[verifier::type_invariant]
    spec fn inv(&self) -> bool {
        entries_ok(self.entries@)
    }

    /// The lines under `name`, if the headers hold the name.
    pub open spec fn lines_of(&self, name: Seq<char>) -> Option<Seq<Seq<char>>> {
        if self@.contains_key(ascii_lowercase(name)) {
            Some(self@[ascii_lowercase(name)])
        } else {
            None
        }
    }

    /// The first line under `name`, if the headers hold one.
    pub open spec fn value_of(&self, name: Seq<char>) -> Option<Seq<char>> {
        match self.lines_of(name) {
            Some(lines) => if lines.len() > 0 {
                Some(lines[0])
            } else {
                None
            },
            None => None,
        }
    }

    /// No headers.
    pub fn new() -> (h: Headers)
        ensures
            h@ == Map::<Seq<char>, Seq<Seq<char>>>::empty(),
    {
        let h = Headers { entries: Vec::new() };
        assert(h@ =~= Map::<Seq<char>, Seq<Seq<char>>>::empty());
        h
    }

    /// Puts `lines` under `name`, in place of the lines that were there.
    pub fn set_lines(&mut self, name: &str, lines: Vec<String>)
        ensures
            final(self)@ == old(self)@.insert(ascii_lowercase(name@), string_texts(lines@)),
    {
        proof {
            use_type_invariant(&*self);
        }
        let key = to_ascii_lowercase(name);
        assert(ascii_lowercase(key@) =~= key@);
        let ghost before = self.entries@;
        let ghost texts = string_texts(lines@);
        let found = find_name(&self.entries, &key);
        let mut entries: Vec<(String, Vec<String>)> = Vec::new();
        std::mem::swap(&mut self.entries, &mut entries);
        match found {
            Some(i) => {
                entries.set(i, (key, lines));
                proof {
                    lemma_replaced(before, entries@, i as int, texts);
                }
            },
            None => {
                entries.push((key, lines));
                proof {
                    lemma_appended(before, entries@, key@, texts);
                }
            },
        }
        std::mem::swap(&mut self.entries, &mut entries);
    }

    /// Puts `value` under `name`, in place of what was there.
    pub fn set(&mut self, name: &str, value: String)
        ensures
            final(self)@ == old(self)@.insert(ascii_lowercase(name@), seq![value@]),
    {
        let mut lines: Vec<String> = Vec::new();
        lines.push(value);
        assert(string_texts(lines@) =~= seq![value@]);
        self.set_lines(name, lines)
    }

    /// The lines under `name`.
    pub fn get_lines(&self, name: &str) -> (r: Option<&Vec<String>>)
        ensures
            match r {
                Some(lines) => self.lines_of(name@) == Some(string_texts(lines@)),
                None => self.lines_of(name@) is None,
            },
    {
        proof {
            use_type_invariant(self);
        }
        let key = to_ascii_lowercase(name);
        match find_name(&self.entries, &key) {
            Some(i) => {
                proof {
                    lemma_entry_stands(self.entries@, i as int);
                }
                Some(&self.entries[i].1)
            },
            None => None,
        }
    }

    /// The first line under `name`.
    pub fn get(&self, name: &str) -> (r: Option<&String>)
        ensures
            match r {
                Some(v) => self.value_of(name@) == Some(v@),
                None => self.value_of(name@) is None,
            },
    {
        match self.get_lines(name) {
            Some(lines) => {
                if lines.len() > 0 {
                    Some(&lines[0])
                } else {
                    None
                }
            },
            None => None,
        }
    }

    /// Whether the headers hold the name.
    pub fn has(&self, name: &str) -> (b: bool)
        ensures
            b == self.lines_of(name@) is Some,
    {
        self.get_lines(name).is_some()
    }

    /// The headers as a list of names, in lower case, with their lines: each name once.
    pub fn to_pairs(&self) -> (r: Vec<(String, Vec<String>)>)
        ensures
            entries_ok(r@),
            lines_by_name(r@) == self@,
    {
        proof {
            use_type_invariant(self);
        }
        let out = copy_entries(&self.entries);
        proof {
            lemma_same_entries(out@, self.entries@);
            assert forall|i: int| 0 <= i < out@.len() implies (#[trigger] out@[i]).0@
                == ascii_lowercase(out@[i].0@) by {
                assert(self.entries@[i].0@ == out@[i].0@);
            }
        }
        out
    }
}

} // verus!
