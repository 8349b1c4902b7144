//! The calls into `std::path` that model resolution makes. Each item here is
//! trusted: its contract is what the standard library documents, and nothing
//! more.

use std::path::Path;

use vstd::prelude::*;

use crate::config::opt_text;

verus! {

/// What `std::path::Path::parent` gives for a path, as text.
pub uninterp spec fn path_parent(path: Seq<char>) -> Option<Seq<char>>;

/// Whether `std::path::Path` compares two paths as equal (component by
/// component, so `a//b` and `a/b` are the same path).
pub uninterp spec fn paths_equal(a: Seq<char>, b: Seq<char>) -> bool;

/// Calls `std::path::Path::parent` on `path`; the result is named
/// `path_parent` and handed back as text. The parent of a path is a prefix of
/// it that ends at a separator, so it is valid UTF-8 whenever `path` is, and
/// the conversion to text loses nothing.
#[verifier::external_body]
pub(crate) fn parent_dir(path: &str) -> (r: Option<String>)
    ensures
        opt_text(r) == path_parent(path@),
{
    match Path::new(path).parent() {
        Some(p) => Some(p.to_string_lossy().into_owned()),
        None => None,
    }
}

/// Calls `PartialEq::eq` on `std::path::Path`, which compares the paths'
/// components; the result is named `paths_equal`. Two equal texts name equal
/// paths.
#[verifier::external_body]
pub(crate) fn same_path(a: &str, b: &str) -> (r: bool)
    ensures
        r == paths_equal(a@, b@),
        a@ == b@ ==> r,
{
    Path::new(a) == Path::new(b)
}

/// The file system's answer to whether a path names an existing directory,
/// kept together with the path that was asked about.
#[derive(Debug)]
pub struct DirProbe {
    path: String,
    found: bool,
}

impl DirProbe {
    /// The path that was asked about.
    pub closed spec fn path(&self) -> Seq<char> {
        self.path@
    }

    /// Whether a directory was found there.
    pub closed spec fn found(&self) -> bool {
        self.found
    }

    /// Whether a directory was found there.
    pub fn is_dir(&self) -> (r: bool)
        ensures
            r == self.found(),
    {
        self.found
    }

    /// The path that was asked about.
    pub fn probed_path(&self) -> (r: &str)
        ensures
            r@ == self.path(),
    {
        self.path.as_str()
    }
}

/// Calls `std::path::Path::is_dir` on `path`, which asks the file system
/// whether `path` names an existing directory, and keeps the answer with the
/// path asked about. The answer depends on the disk, so nothing is promised of
/// it; that the path asked about is `path` is promised.
#[verifier::external_body]
pub(crate) fn probe_dir(path: &str) -> (r: DirProbe)
    ensures
        r.path() == path@,
{
    DirProbe { path: path.to_owned(), found: Path::new(path).is_dir() }
}

} // verus!
