//! Typed errors for resolution and persistence.

use vstd::prelude::*;

verus! {

/// What can go wrong while resolving a location or persisting bytes.
#[derive(Clone, Debug)]
pub enum StoreError {
    /// No candidate in the fallback chain of the active build target is set.
    NoCandidate,
    /// A leading home-directory marker was found, but no home directory
    /// could be determined for the current user.
    NoHomeDir,
    /// The resolved location holds no value.
    NotFound,
    /// A stored value is not valid text-encoded binary.
    Decode,
    /// The underlying medium failed; the message describes the fault.
    Io(String),
}

impl StoreError {
    /// A short human-readable description of the error.
    pub fn message(&self) -> (m: String)
        ensures
            self is NoCandidate ==> m@ == "no path found for the current operating environment"@,
            self is NoHomeDir ==> m@ == "no home directory found for the current user"@,
            self is NotFound ==> m@ == "no value is stored at the resolved location"@,
            self is Decode ==> m@ == "the stored value is not valid base64"@,
            self is Io ==> m@ == self->Io_0@,
    {
        match self {
            StoreError::NoCandidate => "no path found for the current operating environment".to_owned(),
            StoreError::NoHomeDir => "no home directory found for the current user".to_owned(),
            StoreError::NotFound => "no value is stored at the resolved location".to_owned(),
            StoreError::Decode => "the stored value is not valid base64".to_owned(),
            StoreError::Io(m) => m.clone(),
        }
    }
}

} // verus!
