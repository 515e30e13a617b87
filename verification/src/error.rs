use vstd::prelude::*;

verus! {

/// Errors surfaced by the command-resolution core: a required field or
/// value was not found, or a manifest's contents were not usable.
#[derive(Debug, Clone, PartialEq, Eq)]
pub enum CommonError {
    NotFound(String),
    JsonParseError(String),
}

impl CommonError {
    /// The human-readable message carried by the error.
    pub fn message(&self) -> (m: String)
        ensures
            m@ == self.message_spec(),
    {
        match self {
            CommonError::NotFound(s) => s.clone(),
            CommonError::JsonParseError(s) => s.clone(),
        }
    }

    pub open spec fn message_spec(&self) -> Seq<char> {
        match self {
            CommonError::NotFound(s) => s@,
            CommonError::JsonParseError(s) => s@,
        }
    }
}

} // verus!
