//! The credential with environment support: constructed either from a key
//! string directly, or from the value of an environment lookup handed in
//! by the caller.

use vstd::prelude::*;

use crate::errors::DetaError;
use crate::key::id_of;
use crate::key::project_id_of_key;
use crate::key::valid_key;

verus! {

/// A validated project credential: the raw key and the id derived from it.
#[derive(Debug)]
pub struct Deta {
    project_id: String,
    project_key: String,
}

impl Deta {
    /// The held project id, as a mathematical value.
    pub closed spec fn spec_project_id(&self) -> Seq<char> {
        self.project_id@
    }

    /// The held raw key, as a mathematical value.
    pub closed spec fn spec_project_key(&self) -> Seq<char> {
        self.project_key@
    }

    /// Well-formedness: the held key is valid and the held id is the one
    /// derived from it. Every constructed credential satisfies this.
    pub open spec fn wf(&self) -> bool {
        valid_key(self.spec_project_key()) && self.spec_project_id() == id_of(
            self.spec_project_key(),
        )
    }

    /// Builds a credential from the value of an environment lookup:
    /// `None` stands for an unset variable and is rejected as
    /// `MissingProjectKey`; a present value is validated exactly as
    /// [`Deta::try_from`] validates it.
    pub fn new(project_key: Option<String>) -> (r: Result<Deta, DetaError>)
        ensures
            r is Ok <==> (project_key matches Some(s) && valid_key(s@)),
            r matches Ok(d) ==> d.wf() && (project_key matches Some(s) && d.spec_project_key()
                == s@ && d.spec_project_id() == id_of(s@)),
            project_key is None ==> (r matches Err(e) && e == DetaError::MissingProjectKey),
            (project_key matches Some(s) && !valid_key(s@)) ==> (r matches Err(e) && e
                == DetaError::InvalidProjectKey),
    {
        let raw = match project_key {
            Some(s) => s,
            None => {
                return Err(DetaError::MissingProjectKey);
            },
        };
        Deta::try_from(raw)
    }

    /// Validates `project_key` and derives the project id from it.
    /// Succeeds exactly on keys holding a single `'_'` delimiter.
    pub fn try_from(project_key: String) -> (r: Result<Deta, DetaError>)
        ensures
            r is Ok <==> valid_key(project_key@),
            r matches Ok(d) ==> d.wf() && d.spec_project_key() == project_key@
                && d.spec_project_id() == id_of(project_key@),
            r matches Err(e) ==> e == DetaError::InvalidProjectKey,
    {
        let project_id = match get_project_id(project_key.clone()) {
            Ok(id) => id,
            Err(e) => {
                return Err(e);
            },
        };
        Ok(Deta { project_id, project_key })
    }

    /// The derived project id.
    pub fn project_id(&self) -> (r: &str)
        ensures
            r@ == self.spec_project_id(),
    {
        self.project_id.as_str()
    }

    /// The raw key, verbatim as it was supplied.
    pub fn project_key(&self) -> (r: &str)
        ensures
            r@ == self.spec_project_key(),
    {
        self.project_key.as_str()
    }
}

/// Splits `project_key` on `'_'`: the first of exactly two segments is
/// the project id; any other segment count is rejected.
fn get_project_id(project_key: String) -> (r: Result<String, DetaError>)
    ensures
        r is Ok <==> valid_key(project_key@),
        r matches Ok(id) ==> id@ == id_of(project_key@),
        r matches Err(e) ==> e == DetaError::InvalidProjectKey,
{
    match project_id_of_key(project_key.as_str()) {
        Some(id) => Ok(id),
        None => Err(DetaError::InvalidProjectKey),
    }
}

/// What validating a key `s` yields: the derived id on a valid key, and
/// `InvalidProjectKey` otherwise. [`Deta::try_from`] realises this
/// outcome.
pub open spec fn key_outcome(s: Seq<char>) -> Result<Seq<char>, DetaError> {
    if valid_key(s) {
        Ok(id_of(s))
    } else {
        Err(DetaError::InvalidProjectKey)
    }
}

/// What constructing from an environment lookup yields: an unset
/// variable gives `MissingProjectKey`, and a present value the outcome
/// of validating it. [`Deta::new`] realises this outcome.
pub open spec fn env_outcome(v: Option<Seq<char>>) -> Result<Seq<char>, DetaError> {
    match v {
        Some(s) => key_outcome(s),
        None => Err(DetaError::MissingProjectKey),
    }
}

/// Law: once the environment variable is present, the environment-based
/// constructor succeeds or fails exactly as the key-based constructor
/// does on the variable's value, with the same error kind.
pub proof fn lemma_env_failure_matches_key_failure(s: Seq<char>)
    ensures
        env_outcome(Some(s)) == key_outcome(s),
{
}

} // verus!
