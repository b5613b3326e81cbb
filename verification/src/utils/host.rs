//! What the library asks of the machine it runs on.
//!
//! Each answer depends on the machine's state at the time of the call, so
//! none of these functions promises anything about it: the library's logic
//! takes the answer as an argument and is verified for every value of it.

use vstd::prelude::*;

verus! {

/// The user's home directory, as `dirs::home_dir` reports it. `None` where
/// the machine knows none. A path that is not UTF-8 is converted lossily.
#[verifier::external_body]
pub(crate) fn home_dir() -> (r: Option<String>) {
    match dirs::home_dir() {
        Some(p) => Some(p.to_string_lossy().into_owned()),
        None => None,
    }
}

/// The user's cache directory, as `dirs::cache_dir` reports it. `None` where
/// the machine knows none. A path that is not UTF-8 is converted lossily.
#[verifier::external_body]
pub(crate) fn cache_dir() -> (r: Option<String>) {
    match dirs::cache_dir() {
        Some(p) => Some(p.to_string_lossy().into_owned()),
        None => None,
    }
}

/// Whether `std::path::Path::exists` finds something at `path` right now.
#[verifier::external_body]
pub(crate) fn path_exists(path: &str) -> (r: bool) {
    std::path::Path::new(path).exists()
}

} // verus!
