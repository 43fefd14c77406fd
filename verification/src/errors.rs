//! The failure taxonomy of a listing run. Every failure is fatal to the
//! whole run: no entry is retried and no partial record is kept.

use vstd::prelude::*;

verus! {

/// Why a listing run failed.
#[derive(Clone, Copy, Debug, PartialEq, Eq, Structural)]
pub enum LsError {
    /// A directory's children could not be enumerated.
    DirectoryUnreadable,
    /// A stat-style query failed for a specific path, or an entry's
    /// attributes cannot be rendered (a modification time outside the
    /// representable calendar range).
    MetadataUnavailable,
    /// A numeric user or group identifier has no record in the
    /// system's identity database.
    IdentityNotFound,
    /// The identity database lookup itself errored.
    IdentityBackendError,
}

impl LsError {
    /// A short description of the failure, for surfacing at the
    /// program's edge.
    pub fn message(&self) -> (m: &'static str)
        ensures
            m@ =~= match *self {
                LsError::DirectoryUnreadable => "could not read directory"@,
                LsError::MetadataUnavailable => "could not get file metadata"@,
                LsError::IdentityNotFound => "no name for numeric id"@,
                LsError::IdentityBackendError => "identity lookup failed"@,
            },
    {
        match self {
            LsError::DirectoryUnreadable => "could not read directory",
            LsError::MetadataUnavailable => "could not get file metadata",
            LsError::IdentityNotFound => "no name for numeric id",
            LsError::IdentityBackendError => "identity lookup failed",
        }
    }
}

} // verus!
