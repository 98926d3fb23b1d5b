//! The data a scan works over: project entries, verdicts, per-project
//! status values and the errors that abort a run.

use vstd::prelude::*;

verus! {

/// One configured project: a unique name and the filesystem path of its
/// working tree. The path may or may not exist or hold version-control
/// metadata; the scanner discovers that.
pub struct ProjectEntry {
    pub name: String,
    pub path: String,
}

/// Classification of a working tree by its change set: `Dirty` when some
/// file differs between the last recorded snapshot and the live contents,
/// `Clean` otherwise.
#[derive(Clone, Copy, Debug, PartialEq, Eq, Structural)]
pub enum Verdict {
    Clean,
    Dirty,
}

/// The outcome of checking one project: how many distinct files its change
/// set holds, and the verdict that count dictates.
pub struct StatusResult {
    pub name: String,
    pub files_changed: usize,
    pub verdict: Verdict,
}

impl StatusResult {
    /// A status is well formed exactly when its verdict matches its count:
    /// `Dirty` if and only if at least one file changed.
    pub open spec fn wf(self) -> bool {
        self.verdict == Verdict::Dirty <==> self.files_changed > 0
    }

    pub fn is_dirty(&self) -> (r: bool)
        ensures
            r == (self.verdict == Verdict::Dirty),
    {
        match self.verdict {
            Verdict::Dirty => true,
            Verdict::Clean => false,
        }
    }
}

/// The verdict a change set of `files_changed` distinct files dictates:
/// `Dirty` if and only if the set is non-empty.
pub fn classify(files_changed: usize) -> (v: Verdict)
    ensures
        v == Verdict::Dirty <==> files_changed > 0,
{
    if files_changed > 0 {
        Verdict::Dirty
    } else {
        Verdict::Clean
    }
}

/// Builds the status of one project from the size of its change set; the
/// result carries the given name and count, and its verdict matches the
/// count.
pub fn make_status(name: String, files_changed: usize) -> (r: StatusResult)
    ensures
        r.name@ == name@,
        r.files_changed == files_changed,
        r.wf(),
{
    let verdict = classify(files_changed);
    StatusResult { name, files_changed, verdict }
}

/// Which step of a status check failed. Either is fatal for the run.
#[derive(Clone, Copy, Debug, PartialEq, Eq, Structural)]
pub enum ErrorKind {
    /// The path was inaccessible, or its metadata could not be opened or
    /// created.
    TreeOpenFailed,
    /// The snapshot-to-workdir comparison failed.
    DiffComputeFailed,
}

/// A fatal failure while checking one project: the project's name, the step
/// that failed, and the underlying error text.
#[derive(Debug)]
pub struct ScanError {
    pub name: String,
    pub kind: ErrorKind,
    pub message: String,
}

} // verus!
