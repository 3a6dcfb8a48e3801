//! A minimal credential holder for a cloud platform client.
//!
//! A project key has the form `<id>_<secret>`. Construction validates the
//! key's shape (exactly one `'_'` delimiter) and derives the project id,
//! the segment before the delimiter; the held values are immutable
//! thereafter.
//!
//! Two variants of the credential exist. The one at the crate root is
//! string-only, with a single error kind. The one in [`deta`] also covers
//! a key handed in from an environment lookup, with the richer errors of
//! [`errors`]; the lookup itself is a caller's concern, so that the
//! constructor stays deterministic and testable.

use vstd::prelude::*;

pub mod deta;
pub mod errors;
pub mod key;

verus! {

/// Error returned by the string-only credential constructor.
#[derive(Debug, PartialEq, Eq)]
pub enum DetaError {
    /// The key does not split into exactly two `'_'`-delimited segments.
    InvalidProjectKey,
}

/// A validated project credential: the raw key and the id derived from it.
#[derive(Debug)]
pub struct Deta {
    /// The segment of the key before the `'_'` delimiter.
    pub project_id: String,
    /// The raw key, stored verbatim.
    pub project_key: String,
}

impl Deta {
    /// Validates `project_key` and derives the project id from it.
    /// Succeeds exactly on keys holding a single `'_'` delimiter.
    pub fn new(project_key: String) -> (r: Result<Deta, DetaError>)
        ensures
            r is Ok <==> key::valid_key(project_key@),
            r matches Ok(d) ==> d.project_id@ == key::id_of(project_key@) && d.project_key@
                == project_key@,
            r matches Err(e) ==> e == DetaError::InvalidProjectKey,
    {
        let project_id = match get_project_id(project_key.clone()) {
            Ok(id) => id,
            Err(e) => {
                return Err(e);
            },
        };
        Ok(Deta { project_id, project_key })
    }
}

/// Splits `project_key` on `'_'`: the first of exactly two segments is
/// the project id; any other segment count is rejected.
fn get_project_id(project_key: String) -> (r: Result<String, DetaError>)
    ensures
        r is Ok <==> key::valid_key(project_key@),
        r matches Ok(id) ==> id@ == key::id_of(project_key@),
        r matches Err(e) ==> e == DetaError::InvalidProjectKey,
{
    match key::project_id_of_key(project_key.as_str()) {
        Some(id) => Ok(id),
        None => Err(DetaError::InvalidProjectKey),
    }
}

} // verus!
