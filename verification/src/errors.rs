//! Failure kinds of the synchronization core. Every captured failure is
//! surfaced either in an invocation's final status or by the caller's
//! diagnostics; none is silently discarded.

use vstd::prelude::*;

verus! {

/// Why one record, artifact, persist, or dispatch step failed.
#[derive(Debug, Clone, PartialEq)]
pub enum SyncError {
    /// The system of record could not be listed.
    Fetch(String),
    /// An external record could not be mapped onto the local entity.
    Normalize(String),
    /// An artifact-generation or artifact-upload step failed.
    Artifact(String),
    /// The local store rejected a write.
    Persist(String),
    /// The print collaborator answered with a status other than "accepted";
    /// the response body is kept as diagnostic text.
    Dispatch { status: u16, body: String },
}

impl SyncError {
    /// True for artifact-generation failures.
    pub fn is_artifact(&self) -> (r: bool)
        ensures
            r == (self is Artifact),
    {
        match self {
            SyncError::Artifact(_) => true,
            _ => false,
        }
    }

    /// True for dispatch failures.
    pub fn is_dispatch(&self) -> (r: bool)
        ensures
            r == (self is Dispatch),
    {
        match self {
            SyncError::Dispatch { .. } => true,
            _ => false,
        }
    }

    /// The diagnostic text of a dispatch failure.
    pub fn dispatch_body(&self) -> (r: Option<&String>)
        ensures
            self is Dispatch ==> (r is Some && r.unwrap()@ == self->body@),
            !(self is Dispatch) ==> r is None,
    {
        match self {
            SyncError::Dispatch { body, .. } => Some(body),
            _ => None,
        }
    }
}

} // verus!
