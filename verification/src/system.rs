//! What is on disk and on the program search path.
//!
//! The answers of these functions depend on the machine and on the moment:
//! nothing is promised of them, and the functions that use them are proved
//! for every answer.

use vstd::prelude::*;

verus! {

/// Calls `std::path::Path::exists`: whether something stands at `path`.
/// Trusted to return; nothing is claimed of the answer.
#[verifier::external_body]
pub(crate) fn path_exists(path: &str) -> bool {
    std::path::Path::new(path).exists()
}

/// Calls `std::path::Path::is_file`: whether a regular file stands at
/// `path`. Trusted to return; nothing is claimed of the answer.
#[verifier::external_body]
pub(crate) fn path_is_file(path: &str) -> bool {
    std::path::Path::new(path).is_file()
}

/// Calls `which::which`: the executable that the program search path gives
/// for `name`, or `None` where it gives none. Trusted to return; nothing is
/// claimed of the answer.
#[verifier::external_body]
pub(crate) fn find_on_path(name: &str) -> Option<String> {
    match which::which(name) {
        Ok(found) => Some(found.to_string_lossy().into_owned()),
        Err(_) => None,
    }
}

} // verus!
