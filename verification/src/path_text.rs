//! Questions about the text of a path that the standard library answers by the
//! path syntax of the platform the crate is built for.

use vstd::prelude::*;

verus! {

/// The final component of `path`, as `std::path::Path::file_name` gives it;
/// `None` where the path has none (a root, or a path that ends in `..`).
pub uninterp spec fn file_name_of(path: Seq<char>) -> Option<Seq<char>>;

/// `path` without its final component, as `std::path::Path::parent` gives it;
/// `None` where the path ends in a root or is empty.
pub uninterp spec fn parent_of(path: Seq<char>) -> Option<Seq<char>>;

/// The model of a piece of text that may be absent.
pub open spec fn text_view(text: Option<String>) -> Option<Seq<char>> {
    match text {
        Some(s) => Some(s@),
        None => None,
    }
}

/// Calls `std::path::Path::file_name` on `path`.
///
/// Trusted: the result depends on the text of `path` alone, so it is the
/// value that [`file_name_of`] names. Nothing more is claimed of it.
#[verifier::external_body]
pub(crate) fn file_name(path: &str) -> (name: Option<String>)
    ensures
        text_view(name) == file_name_of(path@),
{
    match std::path::Path::new(path).file_name() {
        Some(name) => Some(name.to_string_lossy().into_owned()),
        None => None,
    }
}

/// Calls `std::path::Path::parent` on `path`.
///
/// Trusted: the result depends on the text of `path` alone, so it is the
/// value that [`parent_of`] names. Nothing more is claimed of it.
#[verifier::external_body]
pub(crate) fn parent(path: &str) -> (dir: Option<String>)
    ensures
        text_view(dir) == parent_of(path@),
{
    match std::path::Path::new(path).parent() {
        Some(dir) => Some(dir.to_string_lossy().into_owned()),
        None => None,
    }
}

} // verus!
