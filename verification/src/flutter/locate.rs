//! The search for external programs on the machine that runs the build.

use vstd::prelude::*;

verus! {

/// The `which` crate's error: why a program was not found.
#[verifier::external_type_specification]
#[verifier::external_body]
pub struct ExWhichError(which::Error);

/// Calls `which::which`, which looks for an executable named `name` in the
/// directories of the search path. Whether it is found, and where, depends on
/// the machine: nothing is claimed of the outcome.
#[verifier::external_body]
pub(crate) fn locate(name: &str) -> (found: Result<String, which::Error>) {
    which::which(name).map(|path| path.to_string_lossy().into_owned())
}

} // verus!
