//! Mounting: a handler that serves a part of the path space as if it were the whole.

use std::marker::PhantomData;
use std::sync::Arc;
use vstd::prelude::*;
use vstd::string::StringExecFns;
use crate::app::ZirconApp;
use crate::error::ZirconError;
use crate::http::StatusCode;
use crate::request::{Request, RequestHeader};
use crate::text::{chars_of, push_char};
use crate::{Handler, HandlerResult};

verus! {

/// Whether a text can be a mount point: it starts with `/` and does not end with `/`.
pub open spec fn is_mount_point(s: Seq<char>) -> bool {
    s.len() > 0 && s[0] == '/' && s.last() != '/'
}

/// The request as the mounted handler sees it: with `rest` as its path.
pub open spec fn mounted(req: Request, rest: String) -> Request {
    Request { header: RequestHeader { modified_path: Some(rest), ..req.header }, body: req.body }
}

/// Whether an error is the one a mount reports for a path outside its mount point.
pub open spec fn is_path_mismatch(err: ZirconError) -> bool {
    err matches ZirconError::StringError(code, message) && code == StatusCode::InternalServerError
        && message@ == "path didn't match"@
}

/// Hands requests under a mount point to another handler, which sees their
/// paths without the mount point.
pub struct MountHandler<A: ZirconApp, H: Handler<A>> {
    mount_point: String,
    next: H,
    _p: PhantomData<A>,
}

/// Whether `prefix` is the beginning of `path`, prefix and path as characters.
fn starts_with(path: &Vec<char>, prefix: &Vec<char>) -> (b: bool)
    ensures
        b == prefix@.is_prefix_of(path@),
{
    if prefix.len() > path.len() {
        return false;
    }
    let mut i: usize = 0;
    while i < prefix.len()
        invariant
            i <= prefix@.len() <= path@.len(),
            forall|j: int| 0 <= j < i ==> prefix@[j] == path@[j],
        decreases prefix@.len() - i,
    {
        if prefix[i] != path[i] {
            assert(path@.subrange(0, prefix@.len() as int)[i as int] != prefix@[i as int]);
            return false;
        }
        i += 1;
    }
    assert(path@.subrange(0, prefix@.len() as int) =~= prefix@);
    true
}

/// The text of the characters from `from` on.
fn text_from(chars: &Vec<char>, from: usize) -> (r: String)
    requires
        from <= chars@.len(),
    ensures
        r@ == chars@.skip(from as int),
{
    let mut out = String::new();
    let mut i: usize = from;
    while i < chars.len()
        invariant
            from <= i <= chars@.len(),
            out@ == chars@.subrange(from as int, i as int),
        decreases chars@.len() - i,
    {
        push_char(&mut out, chars[i]);
        i += 1;
        assert(out@ =~= chars@.subrange(from as int, i as int));
    }
    assert(out@ =~= chars@.skip(from as int));
    out
}

impl<A: ZirconApp, H: Handler<A>> MountHandler<A, H> {
    /// The mount point.
    pub closed spec fn mount_point(&self) -> Seq<char> {
        self.mount_point@
    }

    /// The handler behind the mount point.
    pub closed spec fn next(&self) -> H {
        self.next
    }

    /// Whether a text can be a mount point.
    pub fn is_valid_mount_point(mount_point: &str) -> (b: bool)
        ensures
            b == is_mount_point(mount_point@),
    {
        let chars = chars_of(mount_point);
        chars.len() > 0 && chars[0] == '/' && chars[chars.len() - 1] != '/'
    }

    /// Mounts `handler` at `mount_point`.
    pub fn new(mount_point: &str, handler: H) -> (m: MountHandler<A, H>)
        requires
            is_mount_point(mount_point@),
        ensures
            m.mount_point() == mount_point@,
            m.next() == handler,
    {
        MountHandler { mount_point: String::from_str(mount_point), next: handler, _p: PhantomData }
    }

    /// Mounts `handler` at `mount_point` where that can be a mount point,
    /// and hands the handler back where it cannot.
    pub fn try_new(mount_point: &str, handler: H) -> (r: Result<MountHandler<A, H>, H>)
        ensures
            match r {
                Ok(m) => is_mount_point(mount_point@) && m.mount_point() == mount_point@
                    && m.next() == handler,
                Err(h) => !is_mount_point(mount_point@) && h == handler,
            },
    {
        if Self::is_valid_mount_point(mount_point) {
            Ok(Self::new(mount_point, handler))
        } else {
            Err(handler)
        }
    }
}

impl<A: ZirconApp, H: Handler<A>> Handler<A> for MountHandler<A, H> {
    /// For a path under the mount point, a mount answers as the handler
    /// behind it does for the rest of the path; for any other path it
    /// reports a mismatch.
    open spec fn answers(&self, app: Arc<A>, req: Request, result: HandlerResult) -> bool {
        let path = req.header.effective_path();
        if self.mount_point().is_prefix_of(path) {
            exists|rest: String|
                rest@ == path.skip(self.mount_point().len() as int) && #[trigger] self.next().answers(
                    app,
                    mounted(req, rest),
                    result,
                )
        } else {
            result matches Err(e) && is_path_mismatch(e)
        }
    }

    fn handle(&self, app: Arc<A>, req: Request) -> (result: HandlerResult) {
        let mut req = req;
        let ghost asked = req;
        let path = chars_of(req.path());
        let prefix = chars_of(self.mount_point.as_str());
        if !starts_with(&path, &prefix) {
            return ZirconError::render_error_message(
                StatusCode::InternalServerError,
                "path didn't match",
            );
        }
        let new_path = text_from(&path, prefix.len());
        req.set_modified_path(Some(new_path));
        assert(req == mounted(asked, new_path));
        let result = self.next.handle(app, req);
        proof {
            assert(new_path@ == asked.header.effective_path().skip(self.mount_point().len() as int));
            assert(self.next().answers(app, mounted(asked, new_path), result));
        }
        result
    }
}

/// For a path made of the mount point and a rest, a mount answers as the
/// handler behind it does when that handler sees the rest as the path.
pub proof fn lemma_mount_presents_the_rest<A: ZirconApp, H: Handler<A>>(
    mount: MountHandler<A, H>,
    app: Arc<A>,
    req: Request,
    result: HandlerResult,
    rest: Seq<char>,
)
    requires
        mount.answers(app, req, result),
        req.header.effective_path() == mount.mount_point() + rest,
    ensures
        exists|seen: String|
            seen@ == rest && #[trigger] mount.next().answers(app, mounted(req, seen), result),
{
    let prefix = mount.mount_point();
    let path = req.header.effective_path();
    assert(path.subrange(0, prefix.len() as int) =~= prefix);
    assert(path.skip(prefix.len() as int) =~= rest);
}

} // verus!
