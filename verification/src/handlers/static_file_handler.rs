//! Serving the files under a root directory: which file a request asks for,
//! and what to answer once the file system has been asked about it.

use vstd::prelude::*;
use vstd::string::StringExecFns;
use crate::error::ZirconError;
use crate::http::StatusCode;
use crate::text::{chars_of, push_char};

verus! {

/// Whether a `..` component of the path starts at `i`.
pub open spec fn is_parent_at(p: Seq<char>, i: int) -> bool {
    &&& 0 <= i
    &&& i + 2 <= p.len()
    &&& p[i] == '.'
    &&& p[i + 1] == '.'
    &&& (i == 0 || p[i - 1] == '/')
    &&& (i + 2 == p.len() || p[i + 2] == '/')
}

/// Whether a path stays below the directory it is joined to: it does not
/// start at the root, and none of its components is `..`.
pub open spec fn safe_path(p: Seq<char>) -> bool {
    &&& p.len() > 0 ==> p[0] != '/'
    &&& forall|i: int| !is_parent_at(p, i)
}

/// The path that a request path asks for, relative to the root directory:
/// `index.html` for `/`, else the request path without its first character.
pub open spec fn relative_path(request_path: Seq<char>) -> Seq<char> {
    if request_path == seq!['/'] {
        "index.html"@
    } else {
        request_path.skip(1)
    }
}

/// A relative path joined to a directory.
pub open spec fn joined(root: Seq<char>, rel: Seq<char>) -> Seq<char> {
    if root.len() == 0 || root.last() == '/' {
        root + rel
    } else {
        root + seq!['/'] + rel
    }
}

/// What the file system says of a path.
#[derive(Clone, Copy, PartialEq, Eq, Structural, Debug)]
pub enum FileProbe {
    /// There is a file.
    File,
    /// There is something that is no file.
    NotAFile,
    /// There is nothing.
    Missing,
    /// The file system could not tell.
    Failed,
}

/// Whether an error is the one reported where the file system could not tell.
pub open spec fn is_metadata_failure(err: ZirconError) -> bool {
    err matches ZirconError::StringError(code, message) && code == StatusCode::InternalServerError
        && message@ == "failed to get file metadata"@
}

/// Whether `path` does not start at the root and has no `..` component.
pub fn is_safe_path(path: &str) -> (b: bool)
    ensures
        b == safe_path(path@),
{
    let p = chars_of(path);
    if p.len() > 0 && p[0] == '/' {
        return false;
    }
    let mut i: usize = 0;
    while i < p.len()
        invariant
            i <= p@.len(),
            p@ == path@,
            forall|j: int| j < i ==> !is_parent_at(p@, j),
        decreases p@.len() - i,
    {
        if p[i] == '.' && i + 1 < p.len() && p[i + 1] == '.' && (i == 0 || p[i - 1] == '/') && (i
            + 2 == p.len() || p[i + 2] == '/') {
            assert(is_parent_at(p@, i as int));
            return false;
        }
        i += 1;
    }
    true
}

/// StaticFileHandler serves files in a given root directory.
pub struct StaticFileHandler {
    root: String,
}

impl StaticFileHandler {
    /// The root directory.
    pub closed spec fn root(&self) -> Seq<char> {
        self.root@
    }

    pub fn new(root: &str) -> (h: StaticFileHandler)
        ensures
            h.root() == root@,
    {
        StaticFileHandler { root: String::from_str(root) }
    }

    /// The file that a request path asks for, or status 400 where the path
    /// would leave the root directory.
    pub fn locate(&self, request_path: &str) -> (r: Result<String, ZirconError>)
        requires
            request_path@.len() > 0,
            request_path@[0] == '/',
        ensures
            match r {
                Ok(file) => safe_path(relative_path(request_path@)) && file@ == joined(
                    self.root(),
                    relative_path(request_path@),
                ),
                Err(e) => !safe_path(relative_path(request_path@)) && e == ZirconError::Status(
                    StatusCode::BadRequest,
                ),
            },
    {
        let p = chars_of(request_path);
        let mut rel = String::new();
        if p.len() == 1 {
            assert(request_path@ =~= seq!['/']);
            rel.append("index.html");
        } else {
            assert(request_path@ != seq!['/']);
            let mut i: usize = 1;
            while i < p.len()
                invariant
                    1 <= i <= p@.len(),
                    rel@ == p@.subrange(1, i as int),
                decreases p@.len() - i,
            {
                push_char(&mut rel, p[i]);
                i += 1;
                assert(rel@ =~= p@.subrange(1, i as int));
            }
            assert(rel@ =~= p@.skip(1));
        }
        if !is_safe_path(rel.as_str()) {
            return Err(ZirconError::Status(StatusCode::BadRequest));
        }
        let root = chars_of(self.root.as_str());
        let mut file = self.root.clone();
        if root.len() > 0 && root[root.len() - 1] != '/' {
            push_char(&mut file, '/');
        }
        file.append(rel.as_str());
        Ok(file)
    }

    /// What to answer once the file system has been asked about the file:
    /// nothing yet for a file, status 500 with a message where the file
    /// system could not tell, and status 404 for anything else.
    pub fn outcome_of_probe(probe: FileProbe) -> (r: Result<(), ZirconError>)
        ensures
            match probe {
                FileProbe::File => r is Ok,
                FileProbe::Failed => r matches Err(e) && is_metadata_failure(e),
                _ => r == Err::<(), ZirconError>(ZirconError::Status(StatusCode::NotFound)),
            },
    {
        match probe {
            FileProbe::File => Ok(()),
            FileProbe::Failed => Err(
                ZirconError::message(
                    StatusCode::InternalServerError,
                    "failed to get file metadata",
                ),
            ),
            _ => Err(ZirconError::Status(StatusCode::NotFound)),
        }
    }
}

} // verus!
