//! What the standard library's path handling says about a path given as text.
//!
//! Paths are split into components by `std::path::Path`, under the rules of
//! the platform the library is built for. The three functions here are the
//! library's only reading of a path; none of them touches the file system.
//! Their contracts are taken on trust from the standard library.

use vstd::prelude::*;

verus! {

/// The extension of `path`, as `std::path::Path::extension` gives it: the
/// part of the final component after its last dot, if there is one.
pub uninterp spec fn path_extension(path: Seq<char>) -> Option<Seq<char>>;

/// The final component of `path`, as `std::path::Path::file_name` gives it.
pub uninterp spec fn path_file_name(path: Seq<char>) -> Option<Seq<char>>;

/// `name` adjoined to `dir`, as `std::path::Path::join` gives it.
pub uninterp spec fn path_join(dir: Seq<char>, name: Seq<char>) -> Seq<char>;

/// Calls `std::path::Path::extension`.
///
/// Trusted: the result is the extension of the path, and, as the standard
/// library documents, a path that has an extension has a file name.
#[verifier::external_body]
pub(crate) fn extension(path: &str) -> (r: Option<String>)
    ensures
        match r {
            Some(e) => path_extension(path@) == Some(e@) && path_file_name(path@) is Some,
            None => path_extension(path@) is None,
        },
{
    std::path::Path::new(path).extension().map(|e| e.to_string_lossy().into_owned())
}

/// Calls `std::path::Path::file_name`.
///
/// Trusted: the result is the final component of the path.
#[verifier::external_body]
pub(crate) fn file_name(path: &str) -> (r: Option<String>)
    ensures
        match r {
            Some(n) => path_file_name(path@) == Some(n@),
            None => path_file_name(path@) is None,
        },
{
    std::path::Path::new(path).file_name().map(|n| n.to_string_lossy().into_owned())
}

/// Calls `std::path::Path::join`.
///
/// Trusted: the result is `name` adjoined to `dir`.
#[verifier::external_body]
pub(crate) fn join(dir: &str, name: &str) -> (r: String)
    ensures
        r@ == path_join(dir@, name@),
{
    std::path::Path::new(dir).join(name).to_string_lossy().into_owned()
}

} // verus!
