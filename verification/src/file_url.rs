//! Paths as URLs in the `file` scheme.

use vstd::prelude::*;
use crate::path_text::text_view;

verus! {

/// The URL in the `file` scheme that `url::Url::from_file_path` builds for
/// `path`, as text; `None` where it builds none (the path is not absolute).
pub uninterp spec fn file_url_of(path: Seq<char>) -> Option<Seq<char>>;

/// Whether `text` begins with `file://`, as every URL in the `file` scheme
/// does.
pub open spec fn has_file_scheme(text: Seq<char>) -> bool {
    "file://"@.is_prefix_of(text)
}

/// Calls `url::Url::from_file_path` on `path` and hands back the URL as text.
///
/// Trusted: the URL depends on the text of `path` alone, so it is the value
/// that [`file_url_of`] names; and it begins with `file://`, with which
/// `from_file_path` starts every URL that it builds.
#[verifier::external_body]
pub(crate) fn file_url(path: &str) -> (text: Option<String>)
    ensures
        text_view(text) == file_url_of(path@),
        text matches Some(url) ==> has_file_scheme(url@),
{
    match url::Url::from_file_path(path) {
        Ok(url) => Some(url.to_string()),
        Err(_) => None,
    }
}

} // verus!
