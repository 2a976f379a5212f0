//! Access to version-control repositories through `git2`.
//!
//! Nothing in this file is proved: each function hands one call to `git2`,
//! and what it returns depends on the disk or on the network. The functions
//! promise nothing of their results; what is decided on those results is
//! decided by their callers, for every value that may come back.

use vstd::prelude::*;

verus! {

/// `git2::Repository`: an open repository. Opaque here.
#[verifier::external_type_specification]
#[verifier::external_body]
pub struct ExRepository(git2::Repository);

/// `git2::Error`: why a call into `git2` failed. Opaque here.
#[verifier::external_type_specification]
#[verifier::external_body]
pub struct ExGitError(git2::Error);

/// `git2::Remote`: a remote repository, here always a detached one that is
/// addressed by its URL alone. Opaque here.
#[verifier::external_type_specification]
#[verifier::external_body]
pub struct ExRemote<'a>(git2::Remote<'a>);

/// Calls `git2::Repository::open`, which opens the repository at `path`, a
/// normal or a bare one. Nothing is claimed of the outcome: it depends on
/// what the disk holds.
#[verifier::external_body]
pub(crate) fn open_repository(path: &str) -> (opened: Result<git2::Repository, git2::Error>) {
    git2::Repository::open(path)
}

/// Calls `git2::Repository::revparse_single`, which finds the one object
/// that the revision `spec` stands for, and hands back the id of that object,
/// written in hexadecimal as `git2::Oid` displays it. Nothing is claimed of
/// the outcome: it depends on what the repository holds.
#[verifier::external_body]
pub(crate) fn revision_id(repo: &git2::Repository, spec: &str) -> (id: Result<
    String,
    git2::Error,
>) {
    match repo.revparse_single(spec) {
        Ok(object) => Ok(object.id().to_string()),
        Err(e) => Err(e),
    }
}

/// Calls `git2::Remote::create_detached`, which makes an in-memory remote for
/// `url` without looking at any repository's configuration. Nothing is
/// claimed of the outcome.
#[verifier::external_body]
pub(crate) fn detached_remote(url: &str) -> (made: Result<git2::Remote<'static>, git2::Error>) {
    git2::Remote::create_detached(url)
}

/// Calls `git2::Remote::connect` in the fetch direction, which opens a
/// connection to the remote. Nothing is claimed of the outcome: it depends on
/// the network or the disk.
#[verifier::external_body]
pub(crate) fn connect_for_fetch(remote: &mut git2::Remote<'static>) -> (connected: Result<
    (),
    git2::Error,
>) {
    remote.connect(git2::Direction::Fetch)
}

/// Calls `git2::Remote::list`, which gives the references that the remote
/// advertised when the connection was opened, and hands back the id of each,
/// in the order of the advertisement, written in hexadecimal as `git2::Oid`
/// displays it. Nothing is claimed of the outcome: it depends on the remote.
#[verifier::external_body]
pub(crate) fn advertised_ids(remote: &git2::Remote<'static>) -> (ids: Result<
    Vec<String>,
    git2::Error,
>) {
    match remote.list() {
        Ok(heads) => Ok(heads.iter().map(|head| head.oid().to_string()).collect()),
        Err(e) => Err(e),
    }
}

} // verus!
