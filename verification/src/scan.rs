//! The core status-check routine and the run over a whole mapping.

use vstd::prelude::*;

use crate::git;
use crate::status::ErrorKind;
use crate::status::ProjectEntry;
use crate::status::ScanError;
use crate::status::StatusResult;
use crate::status::make_status;

verus! {

/// Checks one project's working tree: opens (or lazily creates) its
/// version-control metadata, computes the set of files that differ between
/// the last recorded snapshot and the live working-directory contents, and
/// classifies the tree as clean or dirty.
///
/// Whether each step succeeds depends on the filesystem; whatever comes
/// back, the result carries this project's name. A success has a verdict
/// that matches its count; a failure names the step that failed.
pub fn check_project(name: String, path: &str) -> (r: Result<StatusResult, ScanError>)
    ensures
        match r {
            Ok(s) => s.name@ == name@ && s.wf(),
            Err(e) => e.name@ == name@
                && (e.kind == ErrorKind::TreeOpenFailed || e.kind == ErrorKind::DiffComputeFailed),
        },
{
    let repo = match git::repo_init(path) {
        Ok(repo) => repo,
        Err(e) => {
            let message = git::error_message(&e);
            return Err(ScanError { name, kind: ErrorKind::TreeOpenFailed, message });
        },
    };
    let diff = match git::diff_index_to_workdir(&repo) {
        Ok(diff) => diff,
        Err(e) => {
            let message = git::error_message(&e);
            return Err(ScanError { name, kind: ErrorKind::DiffComputeFailed, message });
        },
    };
    let stats = match git::diff_stats(&diff) {
        Ok(stats) => stats,
        Err(e) => {
            let message = git::error_message(&e);
            return Err(ScanError { name, kind: ErrorKind::DiffComputeFailed, message });
        },
    };
    let files_changed = git::stats_files_changed(&stats);
    Ok(make_status(name, files_changed))
}

/// Everything one run reports: one status per project scanned, in the order
/// the entries were given, and the error that aborted the run, if one did.
pub struct ScanOutcome {
    pub results: Vec<StatusResult>,
    pub error: Option<ScanError>,
}

impl ScanOutcome {
    /// Each status matches its entry by position and is well formed.
    pub open spec fn results_match(self, entries: Seq<ProjectEntry>) -> bool {
        forall|i: int|
            0 <= i < self.results@.len() ==> (#[trigger] self.results@[i]).name@
                == entries[i].name@ && self.results@[i].wf()
    }

    /// What `scan_projects` guarantees of its outcome for `entries`:
    /// a run without error reports every project, and a run that an error
    /// aborted reports exactly the projects before the failing one, which
    /// the error names; either way the statuses match the entries in order.
    pub open spec fn wf_for(self, entries: Seq<ProjectEntry>) -> bool {
        &&& self.results@.len() <= entries.len()
        &&& self.results_match(entries)
        &&& match self.error {
            None => self.results@.len() == entries.len(),
            Some(e) => self.results@.len() < entries.len() && e.name@ == entries[self.results@.len()
                as int].name@,
        }
    }
}

/// Runs the status check over every entry in order, one project fully
/// processed before the next begins, and stops at the first fatal error:
/// projects after the failing one are not checked and get no status.
pub fn scan_projects(entries: &Vec<ProjectEntry>) -> (out: ScanOutcome)
    ensures
        out.wf_for(entries@),
{
    let mut results: Vec<StatusResult> = Vec::new();
    let mut i: usize = 0;
    while i < entries.len()
        invariant
            i <= entries@.len(),
            results@.len() == i,
            forall|j: int|
                0 <= j < i ==> (#[trigger] results@[j]).name@ == entries@[j].name@
                    && results@[j].wf(),
        decreases entries@.len() - i,
    {
        let entry = &entries[i];
        let name = entry.name.clone();
        match check_project(name, entry.path.as_str()) {
            Ok(s) => {
                results.push(s);
            },
            Err(e) => {
                return ScanOutcome { results, error: Some(e) };
            },
        }
        i += 1;
    }
    ScanOutcome { results, error: None }
}

/// With unique project names, a completed run reports exactly one status
/// line per project: as many lines as entries, no omissions, and no two
/// lines for the same name.
pub proof fn lemma_one_line_per_project(entries: Seq<ProjectEntry>, out: ScanOutcome)
    requires
        out.wf_for(entries),
        out.error is None,
        forall|i: int, j: int|
            0 <= i < j < entries.len() ==> entries[i].name@ != entries[j].name@,
    ensures
        out.results@.len() == entries.len(),
        forall|i: int, j: int|
            0 <= i < j < out.results@.len() ==> out.results@[i].name@ != out.results@[j].name@,
{
    assert forall|i: int, j: int|
        0 <= i < j < out.results@.len() implies out.results@[i].name@
        != out.results@[j].name@ by {
        assert(out.results@[i].name@ == entries[i].name@);
        assert(out.results@[j].name@ == entries[j].name@);
    }
}

} // verus!
