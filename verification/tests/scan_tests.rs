use repo_status::scan::check_project;
use repo_status::scan::scan_projects;
use repo_status::status::ErrorKind;
use repo_status::status::ProjectEntry;
use repo_status::status::Verdict;
use repo_status::status::classify;
use repo_status::status::make_status;

fn entry(name: &str, path: &str) -> ProjectEntry {
    ProjectEntry {
        name: name.to_string(),
        path: path.to_string(),
    }
}

#[test]
fn classify_zero_is_clean() {
    assert_eq!(classify(0), Verdict::Clean);
}

#[test]
fn classify_positive_is_dirty() {
    assert_eq!(classify(1), Verdict::Dirty);
    assert_eq!(classify(17), Verdict::Dirty);
}

#[test]
fn make_status_matches_count() {
    let s = make_status("p".to_string(), 3);
    assert_eq!(s.name, "p");
    assert_eq!(s.files_changed, 3);
    assert_eq!(s.verdict, Verdict::Dirty);
    assert!(s.is_dirty());
    let c = make_status("q".to_string(), 0);
    assert_eq!(c.verdict, Verdict::Clean);
    assert!(!c.is_dirty());
}

#[test]
fn fresh_untracked_dir_is_clean() {
    let path = "/tmp/repo_status_alpha";
    let s = check_project("alpha".to_string(), path).unwrap();
    assert_eq!(s.name, "alpha");
    assert_eq!(s.files_changed, 0);
    assert_eq!(s.verdict, Verdict::Clean);
    // The check created version-control metadata as a side effect: the path
    // now opens as an existing repository.
    assert!(git2::Repository::open(path).is_ok());
}

#[test]
fn recheck_is_idempotent() {
    let path = "/tmp/repo_status_again";
    let first = check_project("again".to_string(), path).unwrap();
    assert_eq!(first.verdict, Verdict::Clean);
    let second = check_project("again".to_string(), path).unwrap();
    assert_eq!(second.verdict, Verdict::Clean);
    assert_eq!(second.files_changed, 0);
}

#[test]
fn modified_tracked_file_is_dirty() {
    let path = "/tmp/repo_status_beta";
    // A tracked file whose snapshot content differs from the live contents:
    // the index records "f.txt", the working directory does not hold it.
    let repo = git2::Repository::init(path).unwrap();
    let mut index = repo.index().unwrap();
    let entry = git2::IndexEntry {
        ctime: git2::IndexTime::new(0, 0),
        mtime: git2::IndexTime::new(0, 0),
        dev: 0,
        ino: 0,
        mode: 0o100644,
        uid: 0,
        gid: 0,
        file_size: 0,
        id: git2::Oid::ZERO_SHA1,
        flags: 0,
        flags_extended: 0,
        path: b"f.txt".to_vec(),
    };
    index.add_frombuffer(&entry, b"tracked contents\n").unwrap();
    index.write().unwrap();
    drop(repo);

    let s = check_project("beta".to_string(), path).unwrap();
    assert_eq!(s.name, "beta");
    assert_eq!(s.files_changed, 1);
    assert_eq!(s.verdict, Verdict::Dirty);
    assert!(s.is_dirty());
}

#[test]
fn uncreatable_path_is_tree_open_failed() {
    let r = check_project("broken".to_string(), "/dev/null/sub");
    let e = r.err().unwrap();
    assert_eq!(e.name, "broken");
    assert_eq!(e.kind, ErrorKind::TreeOpenFailed);
    assert!(!e.message.is_empty());
}

#[test]
fn scan_reports_one_line_per_project() {
    let entries = vec![
        entry("one", "/tmp/repo_status_one"),
        entry("two", "/tmp/repo_status_two"),
        entry("three", "/tmp/repo_status_three"),
    ];
    let out = scan_projects(&entries);
    assert!(out.error.is_none());
    assert_eq!(out.results.len(), 3);
    assert_eq!(out.results[0].name, "one");
    assert_eq!(out.results[1].name, "two");
    assert_eq!(out.results[2].name, "three");
    for s in &out.results {
        assert_eq!(s.verdict, Verdict::Clean);
    }
}

#[test]
fn scan_aborts_at_first_failure() {
    let entries = vec![
        entry("good", "/tmp/repo_status_good"),
        entry("bad", "/dev/null/sub"),
        entry("never", "/tmp/repo_status_never_scanned"),
    ];
    let out = scan_projects(&entries);
    // The project before the failure got its status; the failing project and
    // the one after it got none.
    assert_eq!(out.results.len(), 1);
    assert_eq!(out.results[0].name, "good");
    let e = out.error.unwrap();
    assert_eq!(e.name, "bad");
    assert_eq!(e.kind, ErrorKind::TreeOpenFailed);
}
