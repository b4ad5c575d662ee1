//! The call that asks the machine the library runs on.
//!
//! Nothing here is proved, and nothing is promised of the answer: it depends
//! on the file system at the moment of the call.

use vstd::prelude::*;

verus! {

/// `std::path::Path::exists`: whether `path` names something in the file
/// system right now.
#[verifier::external_body]
pub(crate) fn path_exists(path: &str) -> (found: bool) {
    std::path::Path::new(path).exists()
}

} // verus!
