//! Errors raised when constructing a credential.

use vstd::prelude::*;

verus! {

/// Why a credential could not be constructed.
#[derive(Debug, PartialEq, Eq)]
pub enum DetaError {
    /// The key does not split into exactly two `'_'`-delimited segments.
    InvalidProjectKey,
    /// The environment variable holding the key is not set.
    MissingProjectKey,
}

} // verus!
