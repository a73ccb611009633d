use duplicate_file_finder::dedup::{PrefixError, ScanReply, ScanRequest, LengthError};
use duplicate_file_finder::jobs::{clean_main, sort_main, CleanJob, JobReply, JobRequest};
use duplicate_file_finder::walk::{DirEntryInfo, EntryMetadata, ListedType};
use std::collections::BTreeMap;

/// A tiny file system: directories list their entries, files hold bytes.
struct Tree {
    dirs: BTreeMap<String, Vec<String>>,
    files: BTreeMap<String, Vec<u8>>,
    unreadable: Vec<String>,
    removed: Vec<String>,
    buckets: Vec<Vec<(u64, usize)>>,
}

impl Tree {
    fn new() -> Tree {
        Tree {
            dirs: BTreeMap::new(),
            files: BTreeMap::new(),
            unreadable: Vec::new(),
            removed: Vec::new(),
            buckets: Vec::new(),
        }
    }

    fn listing(&self, path: &str) -> Result<Vec<DirEntryInfo>, String> {
        if self.unreadable.iter().any(|p| p == path) {
            return Err("Permission denied (os error 13)".to_string());
        }
        let names = self.dirs.get(path).ok_or("No such file or directory (os error 2)".to_string())?;
        Ok(names
            .iter()
            .map(|name| {
                let full = format!("{}/{}", path, name);
                let is_dir = self.dirs.contains_key(&full) || self.unreadable.contains(&full);
                let len = self.files.get(&full).map(|d| d.len() as u64).unwrap_or(0);
                DirEntryInfo {
                    path: full,
                    name: Some(name.clone()),
                    listed_type: Some(ListedType { is_file: !is_dir, is_symlink: false }),
                    metadata: Ok(EntryMetadata { is_file: !is_dir, is_dir, nlink: 1, len }),
                }
            })
            .collect())
    }

    fn scan_reply(&mut self, req: ScanRequest) -> ScanReply {
        match req {
            ScanRequest::ReadPrefix { path, count } => {
                ScanReply::Prefix(match self.files.get(&path) {
                    Some(d) => Ok((d[..count].to_vec(), d.len() as u64)),
                    None => Err(PrefixError::Open("No such file or directory (os error 2)".to_string())),
                })
            }
            ScanRequest::CheckLength { path } => ScanReply::Length(match self.files.get(&path) {
                Some(d) => Ok(d.len() as u64),
                None => Err(LengthError::Open("gone".to_string())),
            }),
            ScanRequest::CompareRest { first, second, .. } => {
                ScanReply::Comparison(Ok(self.files[&first] == self.files[&second]))
            }
            ScanRequest::Remove { path } => {
                self.files.remove(&path);
                self.removed.push(path);
                ScanReply::Removal(Ok(()))
            }
            ScanRequest::Finished => unreachable!(),
        }
    }

    fn drive(&mut self, job: &mut CleanJob) {
        loop {
            match job.next_request() {
                JobRequest::Finished => break,
                JobRequest::Grouped { buckets } => self.buckets.push(buckets),
                JobRequest::ReadDir { path } => {
                    let l = self.listing(&path);
                    job.resume(JobReply::Listing(l));
                }
                JobRequest::Scan(req) => {
                    let r = self.scan_reply(req);
                    job.resume(JobReply::Scan(r));
                }
            }
        }
    }
}

fn sample() -> Tree {
    let mut t = Tree::new();
    t.dirs.insert("/top".to_string(), vec!["a".into(), "sub".into(), "b".into(), "locked".into(), "zero".into()]);
    t.dirs.insert("/top/sub".to_string(), vec!["c".into()]);
    t.unreadable.push("/top/locked".to_string());
    t.files.insert("/top/a".to_string(), b"same content".to_vec());
    t.files.insert("/top/b".to_string(), b"other stuff!".to_vec());
    t.files.insert("/top/sub/c".to_string(), b"same content".to_vec());
    t.files.insert("/top/zero".to_string(), Vec::new());
    t
}

#[test]
fn a_dry_clean_reports_copies_and_walk_failures_first() {
    let mut t = sample();
    let mut job = clean_main("/top".to_string(), false, false);
    t.drive(&mut job);
    let report = job.report();
    assert_eq!(report.success, vec![
        "This is a dry run, Would remove file \n\"/top/sub/c\" \nit is equal to \n\"/top/a\"\n".to_string(),
    ]);
    assert_eq!(report.errors, vec![
        "Could not read \"/top/locked\", got an error Permission denied (os error 13)".to_string(),
    ]);
    assert!(t.removed.is_empty());
}

#[test]
fn a_real_clean_removes_copies_and_empty_files() {
    let mut t = sample();
    let mut job = clean_main("/top".to_string(), true, true);
    t.drive(&mut job);
    let report = job.report();
    // the bucket of 12-byte files comes first: its size was met first
    assert_eq!(t.removed, vec!["/top/sub/c".to_string(), "/top/zero".to_string()]);
    assert_eq!(report.success, vec![
        "Removing file \n\"/top/sub/c\" \nit is equal to \n\"/top/a\"\n".to_string(),
        "Removed \"/top/zero\" : sized 0".to_string(),
    ]);
    assert_eq!(report.errors.len(), 1);
    // the buckets are announced once, when the walk is over
    assert_eq!(t.buckets, vec![vec![(12u64, 3usize), (0, 1)]]);
}

#[test]
fn the_report_of_an_unfinished_walk_holds_its_failures() {
    let mut t = Tree::new();
    t.unreadable.push("/nope".to_string());
    let mut job = clean_main("/nope".to_string(), false, false);
    let req = job.next_request();
    assert_eq!(req, JobRequest::ReadDir { path: "/nope".to_string() });
    job.resume(JobReply::Listing(t.listing("/nope")));
    let report = job.report();
    assert!(report.success.is_empty());
    assert_eq!(report.errors, vec!["Could not read \"/nope\", got an error Permission denied (os error 13)".to_string()]);
}

#[test]
fn sorting_lists_the_largest_files() {
    let t = sample();
    let mut job = sort_main("/top".to_string(), 2);
    while let Some(d) = job.next_dir() {
        job.record_listing(t.listing(&d));
    }
    let outcome = job.finish();
    // the empty file is not kept when sorting; the two files of 12 bytes keep scan order
    assert_eq!(outcome.compared, 3);
    assert_eq!(outcome.shown, vec![(12u64, "/top/a".to_string()), (12, "/top/b".to_string())]);
    assert_eq!(outcome.errors, vec!["Could not read \"/top/locked\", got an error Permission denied (os error 13)".to_string()]);
}
