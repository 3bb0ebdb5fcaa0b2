//! Small helpers around the host file system.

use vstd::prelude::*;

verus! {

/// Resolves a path against the file system into an absolute form.
///
/// Relies on `std::path::Path::canonicalize`; what comes back depends on the
/// process's working directory and on what is on disk, so nothing is stated
/// of the result. `None` stands for any failure: a path that does not
/// resolve, or one that is not valid UTF-8.
#[verifier::external_body]
pub fn get_abs_path(path: &str) -> (r: Option<String>) {
    match std::path::Path::new(path).canonicalize() {
        Ok(p) => p.to_str().map(|s| s.to_string()),
        Err(_) => None,
    }
}

} // verus!
