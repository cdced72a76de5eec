//! Serving one file, whatever the request asks for.

use vstd::prelude::*;
use vstd::string::StringExecFns;

verus! {

/// SingleFileHandler is a handler to return a single file.
/// This is a handy way to handle "favicon.ico".
pub struct SingleFileHandler {
    filepath: String,
}

impl SingleFileHandler {
    /// The path of the file.
    pub closed spec fn spec_filepath(&self) -> Seq<char> {
        self.filepath@
    }

    pub fn new(filepath: &str) -> (h: SingleFileHandler)
        ensures
            h.spec_filepath() == filepath@,
    {
        SingleFileHandler { filepath: String::from_str(filepath) }
    }

    /// The path of the file.
    pub fn filepath(&self) -> (p: &str)
        ensures
            p@ == self.spec_filepath(),
    {
        self.filepath.as_str()
    }
}

} // verus!
