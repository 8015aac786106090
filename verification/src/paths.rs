//! Path syntax, taken from `std::path`.
//!
//! The library holds paths as strings. How a path splits into components is
//! decided by the standard library for the platform the crate is built for;
//! the functions here hand its answers on and give each of them a name that
//! the contracts of the library can speak of.

use vstd::prelude::*;
use crate::text::text_of;

verus! {

/// The path without its final component, as `std::path::Path::parent` gives
/// it; `None` for a path that ends in a root and for the empty path.
pub uninterp spec fn path_parent(path: Seq<char>) -> Option<Seq<char>>;

/// The path that `std::path::Path::join` builds from a base and a name.
pub uninterp spec fn path_join(base: Seq<char>, name: Seq<char>) -> Seq<char>;

/// The final component of the path, as `std::path::Path::file_name` gives it.
pub uninterp spec fn path_file_name(path: Seq<char>) -> Option<Seq<char>>;

/// The extension of the file name, without its dot, as
/// `std::path::Path::extension` gives it.
pub uninterp spec fn path_extension(path: Seq<char>) -> Option<Seq<char>>;

/// Calls `std::path::Path::parent`. Trusted: the result is the one that
/// `path_parent` names. The parent of a path given as a string is a prefix of
/// that string, so the conversion back loses nothing.
#[verifier::external_body]
pub(crate) fn parent_of(path: &str) -> (parent: Option<String>)
    ensures
        text_of(parent) == path_parent(path@),
{
    match std::path::Path::new(path).parent() {
        Some(parent) => Some(parent.to_string_lossy().into_owned()),
        None => None,
    }
}

/// Calls `std::path::Path::join`. Trusted: the result is the one that
/// `path_join` names.
#[verifier::external_body]
pub(crate) fn join_path(base: &str, name: &str) -> (joined: String)
    ensures
        joined@ == path_join(base@, name@),
{
    std::path::Path::new(base).join(name).to_string_lossy().into_owned()
}

/// Calls `std::path::Path::file_name`. Trusted: the result is the one that
/// `path_file_name` names.
#[verifier::external_body]
pub(crate) fn file_name_of(path: &str) -> (name: Option<String>)
    ensures
        text_of(name) == path_file_name(path@),
{
    match std::path::Path::new(path).file_name() {
        Some(name) => Some(name.to_string_lossy().into_owned()),
        None => None,
    }
}

/// Calls `std::path::Path::extension`. Trusted: the result is the one that
/// `path_extension` names.
#[verifier::external_body]
pub(crate) fn extension_of(path: &str) -> (extension: Option<String>)
    ensures
        text_of(extension) == path_extension(path@),
{
    match std::path::Path::new(path).extension() {
        Some(extension) => Some(extension.to_string_lossy().into_owned()),
        None => None,
    }
}

} // verus!
