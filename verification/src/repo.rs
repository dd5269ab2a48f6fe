//! The trusted boundary to the on-disk repository store.  Everything here
//! either declares an outside type or wraps one outside call; the contracts
//! promise nothing that the outside source does not show, and in particular
//! nothing about results that depend on what is on disk.

use vstd::prelude::*;

use gix::bstr::ByteSlice;

verus! {

#[verifier::external_type_specification]
#[verifier::external_body]
pub struct ExRepository(gix::Repository);

#[verifier::external_type_specification]
#[verifier::external_body]
pub struct ExGixError(gix::Error);

/// One enumerated branch: its object id rendered as hexadecimal digits,
/// and its full reference name, both as raw bytes.
pub struct RefRecord {
    /// Hexadecimal object id.
    pub oid: Vec<u8>,
    /// Full reference name, such as `refs/heads/main`.
    pub name: Vec<u8>,
}

/// Relies on gix::open: opens the repository stored at the given path.
/// The path bytes are taken as UTF-8, invalid sequences replaced.  Whether
/// the call succeeds depends on what is on disk, so nothing is promised of
/// the outcome.
#[verifier::external_body]
pub fn open_repository(path: &Vec<u8>) -> Result<gix::Repository, gix::Error> {
    gix::open(std::path::PathBuf::from(String::from_utf8_lossy(path.as_slice()).into_owned()))
}

/// Relies on gix::Repository::references and Platform::local_branches:
/// enumerates the references under `refs/heads/`, yielding for each its
/// object id rendered as hexadecimal and its full name, with invalid UTF-8
/// in the name replaced.  Entries that cannot be read, and symbolic entries
/// that carry no object id, are skipped.  What comes back depends on what
/// is on disk, so nothing is promised of the outcome.
#[verifier::external_body]
pub fn list_local_branches(repo: &gix::Repository) -> Result<Vec<RefRecord>, gix::Error> {
    let mut out: Vec<RefRecord> = Vec::new();
    let platform = repo.references()?;
    for branch in platform.local_branches()? {
        let Ok(b) = branch else { continue };
        let Some(id) = b.try_id() else { continue };
        let name = b.name().as_bstr().to_str_lossy().into_owned();
        out.push(RefRecord { oid: id.to_string().into_bytes(), name: name.into_bytes() });
    }
    Ok(out)
}

} // verus!
