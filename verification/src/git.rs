//! The version-control boundary: declarations of git2's types and thin
//! wrappers around the calls the scanner makes. Every outcome here depends
//! on what is on disk, so no wrapper promises success or a particular
//! result; the verified code takes whatever comes back and works from it.

use vstd::prelude::*;

verus! {

#[verifier::external_type_specification]
#[verifier::external_body]
pub struct ExRepository(git2::Repository);

#[verifier::external_type_specification]
#[verifier::external_body]
pub struct ExDiff<'a>(git2::Diff<'a>);

#[verifier::external_type_specification]
#[verifier::external_body]
pub struct ExDiffStats(git2::DiffStats);

#[verifier::external_type_specification]
#[verifier::external_body]
pub struct ExGitError(git2::Error);

/// Relies on git2::Repository::init: opens the version-control metadata at
/// `path`, creating it fresh (directories included) when none exists, and
/// leaving existing tracked files and history undisturbed. Whether it
/// succeeds depends on the filesystem.
#[verifier::external_body]
pub(crate) fn repo_init(path: &str) -> Result<git2::Repository, git2::Error> {
    git2::Repository::init(path)
}

/// Relies on git2::Repository::diff_index_to_workdir with default options:
/// compares the repository's own index, refreshed from disk, against the
/// live working-directory contents.
#[verifier::external_body]
pub(crate) fn diff_index_to_workdir<'a>(
    repo: &'a git2::Repository,
) -> Result<git2::Diff<'a>, git2::Error> {
    repo.diff_index_to_workdir(None, None)
}

/// Relies on git2::Diff::stats: accumulates statistics over all patches of
/// the diff.
#[verifier::external_body]
pub(crate) fn diff_stats(diff: &git2::Diff) -> Result<git2::DiffStats, git2::Error> {
    diff.stats()
}

/// Relies on git2::DiffStats::files_changed: the total number of files
/// changed in the diff.
#[verifier::external_body]
pub(crate) fn stats_files_changed(stats: &git2::DiffStats) -> usize {
    stats.files_changed()
}

/// Relies on git2::Error::message: the human-readable text of the error.
#[verifier::external_body]
pub(crate) fn error_message(err: &git2::Error) -> String {
    err.message().to_string()
}

} // verus!
