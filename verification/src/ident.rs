//! Resolution of numeric user/group identifiers to display names
//! through the host's identity database.

use vstd::prelude::*;
use crate::errors::LsError;

verus! {

#[verifier::external_type_specification]
#[verifier::external_body]
pub struct ExErrno(nix::errno::Errno);

/// Relies on nix::unistd::User::from_uid (getpwuid_r): queries the
/// system user database; `Ok(Some(_))` carries the name of the matching
/// record, `Ok(None)` says no record exists, `Err` a backend failure.
/// The outcome depends on the host's identity database, so nothing is
/// promised of it.
#[verifier::external_body]
fn lookup_user_name(uid: u32) -> Result<Option<String>, nix::errno::Errno> {
    match nix::unistd::User::from_uid(nix::unistd::Uid::from_raw(uid)) {
        Ok(Some(u)) => Ok(Some(u.name)),
        Ok(None) => Ok(None),
        Err(e) => Err(e),
    }
}

/// Relies on nix::unistd::Group::from_gid (getgrgid_r): queries the
/// system group database; `Ok(Some(_))` carries the name of the
/// matching record, `Ok(None)` says no record exists, `Err` a backend
/// failure. The outcome depends on the host's identity database, so
/// nothing is promised of it.
#[verifier::external_body]
fn lookup_group_name(gid: u32) -> Result<Option<String>, nix::errno::Errno> {
    match nix::unistd::Group::from_gid(nix::unistd::Gid::from_raw(gid)) {
        Ok(Some(g)) => Ok(Some(g.name)),
        Ok(None) => Ok(None),
        Err(e) => Err(e),
    }
}

/// Classifies the outcome of an identity-database lookup: a found name
/// is handed through, a missing record becomes `IdentityNotFound`, and
/// a backend failure becomes `IdentityBackendError`.
pub fn classify_identity_lookup(r: Result<Option<String>, nix::errno::Errno>) -> (out: Result<
    String,
    LsError,
>)
    ensures
        match r {
            Ok(Some(n)) => out == Ok::<String, LsError>(n),
            Ok(None) => out == Err::<String, LsError>(LsError::IdentityNotFound),
            Err(_) => out == Err::<String, LsError>(LsError::IdentityBackendError),
        },
{
    match r {
        Ok(Some(n)) => Ok(n),
        Ok(None) => Err(LsError::IdentityNotFound),
        Err(_) => Err(LsError::IdentityBackendError),
    }
}

/// Resolves a numeric user id to a display name. Which name (and
/// whether one exists) is the identity database's to decide; a failure
/// is always one of the two identity errors.
pub fn resolve_user(uid: u32) -> (out: Result<String, LsError>)
    ensures
        out matches Err(e) ==> e == LsError::IdentityNotFound || e
            == LsError::IdentityBackendError,
{
    classify_identity_lookup(lookup_user_name(uid))
}

/// Resolves a numeric group id to a display name. Which name (and
/// whether one exists) is the identity database's to decide; a failure
/// is always one of the two identity errors.
pub fn resolve_group(gid: u32) -> (out: Result<String, LsError>)
    ensures
        out matches Err(e) ==> e == LsError::IdentityNotFound || e
            == LsError::IdentityBackendError,
{
    classify_identity_lookup(lookup_group_name(gid))
}

} // verus!
