//! The per-entry metadata record, built from the raw attributes of a
//! single stat-style query plus identity resolution.

use vstd::prelude::*;
use crate::errors::LsError;
use crate::ident::{resolve_group, resolve_user};
use crate::perm::FilePermissions;

verus! {

/// The raw attributes of one filesystem entry, as a single stat-style
/// query reports them: byte size, permission mode bits, last
/// modification time as seconds since the Unix epoch, hard-link count,
/// and the numeric owner and group identifiers.
pub struct RawAttrs {
    pub size: u64,
    pub mode: u32,
    pub modified_secs: i64,
    pub hard_link_count: u64,
    pub uid: u32,
    pub gid: u32,
}

/// One immutable per-entry record: built once per traversed path,
/// rendered, then dropped.
pub struct FileData {
    pub path: String,
    pub permissions: FilePermissions,
    pub date_modified: i64,
    pub hard_link_count: u64,
    pub owner: String,
    pub group: String,
    pub size: u64,
}

impl FileData {
    /// The permission triad is well-formed.
    pub open spec fn wf(self) -> bool {
        self.permissions.wf()
    }
}

/// Builds the metadata record for one entry from its raw attributes and
/// the two already-resolved identity names: decodes the mode into the
/// permission triad and carries every other field through unchanged —
/// in particular, the record's owner and group are exactly the names
/// handed in.
pub fn build_filedata(path: String, attrs: &RawAttrs, owner: String, group: String) -> (fd:
    FileData)
    ensures
        fd.wf(),
        fd.path == path,
        fd.size == attrs.size,
        fd.permissions.owner == (attrs.mode >> 6) & 7,
        fd.permissions.group == (attrs.mode >> 3) & 7,
        fd.permissions.other == attrs.mode & 7,
        fd.date_modified == attrs.modified_secs,
        fd.hard_link_count == attrs.hard_link_count,
        fd.owner == owner,
        fd.group == group,
{
    FileData {
        path,
        permissions: FilePermissions::from_permission_mode(attrs.mode),
        date_modified: attrs.modified_secs,
        hard_link_count: attrs.hard_link_count,
        owner,
        group,
        size: attrs.size,
    }
}

/// Combines one entry's raw attributes into its metadata record:
/// resolves the numeric owner and group ids to names and builds the
/// record around them via `build_filedata`. A failed identity
/// resolution aborts with the corresponding identity error; the
/// record's other fields are carried over unchanged.
pub fn get_filedata(path: String, attrs: &RawAttrs) -> (out: Result<FileData, LsError>)
    ensures
        out matches Ok(fd) ==> {
            &&& fd.wf()
            &&& fd.path == path
            &&& fd.size == attrs.size
            &&& fd.permissions.owner == (attrs.mode >> 6) & 7
            &&& fd.permissions.group == (attrs.mode >> 3) & 7
            &&& fd.permissions.other == attrs.mode & 7
            &&& fd.date_modified == attrs.modified_secs
            &&& fd.hard_link_count == attrs.hard_link_count
        },
        out matches Err(e) ==> e == LsError::IdentityNotFound || e
            == LsError::IdentityBackendError,
{
    let owner = match resolve_user(attrs.uid) {
        Ok(n) => n,
        Err(e) => {
            return Err(e);
        },
    };
    let group = match resolve_group(attrs.gid) {
        Ok(n) => n,
        Err(e) => {
            return Err(e);
        },
    };
    Ok(build_filedata(path, attrs, owner, group))
}

} // verus!
