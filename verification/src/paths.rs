//! File paths and `file:` URLs. Documents are known by the text of their URL;
//! the conversions between URLs and paths are those of the `url` crate (as
//! re-exported by `lsp_types`) and of `std::path`, each named below as a
//! function of its arguments on the target that the library is built for.

use std::path::Path;
use vstd::prelude::*;

verus! {

/// The text of the `file:` URL that `Url::from_file_path` makes of `path`;
/// `None` where it refuses the path (a relative path, for one).
pub uninterp spec fn file_url(path: Seq<char>) -> Option<Seq<char>>;

/// The path, as text, that `Url::to_file_path` gives for the URL whose text is
/// `url`; `None` where the text is no URL, the URL is not a `file:` URL that
/// names a path, or the path is not valid UTF-8.
pub uninterp spec fn url_file_path(url: Seq<char>) -> Option<Seq<char>>;

/// What `Path::parent` gives for `path`: `None` for a root or an empty path.
pub uninterp spec fn parent_path(path: Seq<char>) -> Option<Seq<char>>;

/// What `Path::join` makes of `base` and `tail`.
pub uninterp spec fn joined_path(base: Seq<char>, tail: Seq<char>) -> Seq<char>;

/// Calls `Url::from_file_path` and gives the URL's text. The contract names
/// the result; it does not state how the URL is spelled.
#[verifier::external_body]
pub(crate) fn url_from_file_path(path: &str) -> (r: Option<String>)
    ensures
        r matches Some(s) ==> file_url(path@) == Some(s@),
        r is None ==> file_url(path@) is None,
{
    match lsp_types::Url::from_file_path(path) {
        Ok(url) => Some(url.into()),
        Err(()) => None,
    }
}

/// Reads `url` as a `Url` and calls `Url::to_file_path`, giving the path as
/// text. The contract names the result; it does not state how a URL maps to
/// a path.
#[verifier::external_body]
pub(crate) fn file_path_of_url(url: &str) -> (r: Option<String>)
    ensures
        r matches Some(s) ==> url_file_path(url@) == Some(s@),
        r is None ==> url_file_path(url@) is None,
{
    match lsp_types::Url::parse(url) {
        Ok(u) => match u.to_file_path() {
            Ok(p) => p.to_str().map(String::from),
            Err(()) => None,
        },
        Err(_) => None,
    }
}

/// Calls `Path::parent`. The contract names the result.
#[verifier::external_body]
pub(crate) fn path_parent(path: &str) -> (r: Option<String>)
    ensures
        r matches Some(s) ==> parent_path(path@) == Some(s@),
        r is None ==> parent_path(path@) is None,
{
    Path::new(path).parent().map(|p| p.to_string_lossy().into_owned())
}

/// Calls `Path::join`. The contract names the result.
#[verifier::external_body]
pub(crate) fn path_join(base: &str, tail: &str) -> (r: String)
    ensures
        r@ == joined_path(base@, tail@),
{
    Path::new(base).join(tail).to_string_lossy().into_owned()
}

} // verus!
