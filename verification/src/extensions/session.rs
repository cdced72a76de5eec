//! Sessions kept in a signed cookie.

use vstd::prelude::*;
use vstd::string::StringExecFns;
use crate::request::text_of;

verus! {

/// `cookie::SignedJar`: a view of a jar whose cookies are signed, of which
/// nothing is seen but what the functions below say.
#[verifier::external_type_specification]
#[verifier::external_body]
#[verifier::reject_recursive_types(J)]
pub struct ExSignedJar<J>(cookie::SignedJar<J>);

/// The value that `SignedJar::get` finds under a name: that of a cookie of
/// the jar whose signature holds.
pub uninterp spec fn signed_value(
    jar: cookie::SignedJar<&mut cookie::CookieJar>,
    name: Seq<char>,
) -> Option<Seq<char>>;

/// The value of the signed cookie of a name.
///
/// Trusted: `cookie::SignedJar::get` with `Cookie::value`. It returns for
/// every stored value: one that cannot hold a signature gives `None`.
#[verifier::external_body]
fn signed_get(jar: &cookie::SignedJar<&mut cookie::CookieJar>, name: &str) -> (r: Option<String>)
    ensures
        text_of(r) == signed_value(*jar, name@),
{
    jar.get(name).map(|c| c.value().to_string())
}

/// Puts a cookie into the jar, signed.
///
/// Trusted: `cookie::SignedJar::add` with a cookie built by
/// `cookie::Cookie::build`. The jar then finds the cookie's value under its
/// name, and under every other name what it found before.
#[verifier::external_body]
fn signed_add(jar: &mut cookie::SignedJar<&mut cookie::CookieJar>, c: SessionCookie)
    ensures
        signed_value(*final(jar), c.name@) == Some(c.value@),
        forall|other: Seq<char>|
            other != c.name@ ==> #[trigger] signed_value(*final(jar), other) == signed_value(
                *old(jar),
                other,
            ),
{
    jar.add(cookie::Cookie::build(c.name, c.value).path(c.path).http_only(c.http_only).finish());
}

/// A value that can be kept in a session cookie.
pub trait SessionConverter: Sized + 'static {
    /// Whether `key` is what the type names its cookie. A type that says
    /// nothing of it can name it anything.
    open spec fn is_key(key: Seq<char>) -> bool {
        true
    }

    /// Whether `text` is a text that the type writes for `session`. A type
    /// that says nothing of it can write any.
    open spec fn writes(session: Self, text: Seq<char>) -> bool {
        true
    }

    /// Whether `session` is what the type reads from `text`. A type that
    /// says nothing of it can read anything.
    open spec fn reads(text: Seq<char>, session: Option<Self>) -> bool {
        true
    }

    /// The name of the cookie.
    fn session_key() -> (key: &'static str)
        ensures
            Self::is_key(key@),
    ;

    /// The value as the text of the cookie.
    fn serialize_for_session(self) -> (text: String)
        ensures
            Self::writes(self, text@),
    ;

    /// The value that the text of a cookie stands for, if it stands for one.
    fn deserialize_for_session(s: &str) -> (session: Option<Self>)
        ensures
            Self::reads(s@, session),
    ;
}

/// A cookie to be set, as plain values.
#[derive(Debug)]
pub struct SessionCookie {
    pub name: String,
    pub value: String,
    pub path: String,
    pub http_only: bool,
}

/// The cookie that keeps `value` under `name`: for every path, and out of
/// reach of scripts.
pub fn make_session_cookie(name: &str, value: String) -> (c: SessionCookie)
    ensures
        c.name@ == name@,
        c.value == value,
        c.path@ == "/"@,
        c.http_only,
{
    SessionCookie {
        name: String::from_str(name),
        value: value,
        path: String::from_str("/"),
        http_only: true,
    }
}

/// The session that the value of the session cookie stands for: none
/// without a cookie, else what the session type reads from the value.
pub fn session_from_value<S: SessionConverter>(value: Option<&str>) -> (r: Option<S>)
    ensures
        match value {
            Some(text) => S::reads(text@, r),
            None => r is None,
        },
{
    match value {
        Some(text) => S::deserialize_for_session(text),
        None => None,
    }
}

/// The cookie that keeps `session`.
pub fn session_cookie<S: SessionConverter>(session: S) -> (c: SessionCookie)
    ensures
        S::is_key(c.name@),
        S::writes(session, c.value@),
        c.path@ == "/"@,
        c.http_only,
{
    let value = session.serialize_for_session();
    make_session_cookie(S::session_key(), value)
}

/// The cookie that ends the session: the session cookie with an empty value.
pub fn removal_cookie<S: SessionConverter>() -> (c: SessionCookie)
    ensures
        S::is_key(c.name@),
        c.value@ == Seq::<char>::empty(),
        c.path@ == "/"@,
        c.http_only,
{
    // Removing the cookie from the jar did not remove it in every browser;
    // an empty value does.
    make_session_cookie(S::session_key(), String::new())
}

/// A jar gives the session it holds.
pub trait GetSession {
    fn session<S: SessionConverter>(&self) -> Option<S>;
}

/// A jar takes a session, or the end of one.
pub trait SetSession {
    fn set_session<S: SessionConverter>(&mut self, session: S);

    fn remove_session<S: SessionConverter>(&mut self);
}

/// Whether `after` is `before` with `value` under `name`.
pub open spec fn holds_now(
    before: cookie::SignedJar<&mut cookie::CookieJar>,
    name: Seq<char>,
    value: Seq<char>,
    after: cookie::SignedJar<&mut cookie::CookieJar>,
) -> bool {
    &&& signed_value(after, name) == Some(value)
    &&& forall|other: Seq<char>|
        other != name ==> #[trigger] signed_value(after, other) == signed_value(
            before,
            other,
        )
}

impl<'a> GetSession for cookie::SignedJar<&'a mut cookie::CookieJar> {
    /// The session that the type reads from the value of its cookie, and
    /// none where the jar holds no such cookie.
    fn session<S: SessionConverter>(&self) -> (r: Option<S>)
        ensures
            exists|key: Seq<char>|
                #![trigger signed_value(*self, key)]
                S::is_key(key) && match signed_value(*self, key) {
                    Some(text) => S::reads(text, r),
                    None => r is None,
                },
    {
        let key = S::session_key();
        let value = signed_get(self, key);
        let r = match &value {
            Some(text) => session_from_value::<S>(Some(text.as_str())),
            None => session_from_value::<S>(None),
        };
        assert(S::is_key(key@) && match signed_value(*self, key@) {
            Some(text) => S::reads(text, r),
            None => r is None,
        });
        r
    }
}

impl<'a> SetSession for cookie::SignedJar<&'a mut cookie::CookieJar> {
    /// Puts the session's cookie into the jar.
    fn set_session<S: SessionConverter>(&mut self, session: S)
        ensures
            exists|key: Seq<char>, text: Seq<char>|
                S::is_key(key) && S::writes(session, text) && #[trigger] holds_now(
                    *old(self),
                    key,
                    text,
                    *final(self),
                ),
    {
        let c = session_cookie(session);
        let ghost key = c.name@;
        let ghost text = c.value@;
        signed_add(self, c);
        assert(holds_now(*old(self), key, text, *self));
    }

    /// Puts the cookie that ends the session into the jar.
    fn remove_session<S: SessionConverter>(&mut self)
        ensures
            exists|key: Seq<char>|
                S::is_key(key) && #[trigger] holds_now(
                    *old(self),
                    key,
                    Seq::<char>::empty(),
                    *final(self),
                ),
    {
        let c = removal_cookie::<S>();
        let ghost key = c.name@;
        signed_add(self, c);
        assert(holds_now(*old(self), key, Seq::<char>::empty(), *self));
    }
}

} // verus!
