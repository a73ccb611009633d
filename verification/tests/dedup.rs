use duplicate_file_finder::clean::{run_clean, CleanRun};
use duplicate_file_finder::compare::RestComparison;
use duplicate_file_finder::dedup::{
    CompareError, GroupScan, LengthError, PrefixError, ScanReply, ScanRequest,
};
use std::collections::HashMap;

#[derive(Default)]
struct FakeFs {
    files: HashMap<String, Vec<u8>>,
    open_fail: HashMap<String, String>,
    read_fail: HashMap<String, String>,
    seek_fail: HashMap<String, String>,
    metadata_fail: HashMap<String, String>,
    remove_fail: HashMap<String, String>,
    removed: Vec<String>,
    compared: Vec<(String, String)>,
}

impl FakeFs {
    fn add(&mut self, path: &str, data: Vec<u8>) {
        self.files.insert(path.to_string(), data);
    }

    fn reply(&mut self, req: ScanRequest) -> Option<ScanReply> {
        match req {
            ScanRequest::Finished => None,
            ScanRequest::ReadPrefix { path, count } => {
                if let Some(e) = self.open_fail.get(&path) {
                    return Some(ScanReply::Prefix(Err(PrefixError::Open(e.clone()))));
                }
                if let Some(e) = self.metadata_fail.get(&path) {
                    return Some(ScanReply::Prefix(Err(PrefixError::Metadata(e.clone()))));
                }
                if let Some(e) = self.read_fail.get(&path) {
                    return Some(ScanReply::Prefix(Err(PrefixError::Read(e.clone()))));
                }
                let data = &self.files[&path];
                if data.len() < count {
                    return Some(ScanReply::Prefix(Err(PrefixError::Read("failed to fill whole buffer".to_string()))));
                }
                Some(ScanReply::Prefix(Ok((data[..count].to_vec(), data.len() as u64))))
            }
            ScanRequest::CheckLength { path } => {
                if let Some(e) = self.open_fail.get(&path) {
                    return Some(ScanReply::Length(Err(LengthError::Open(e.clone()))));
                }
                if let Some(e) = self.metadata_fail.get(&path) {
                    return Some(ScanReply::Length(Err(LengthError::Metadata(e.clone()))));
                }
                Some(ScanReply::Length(Ok(self.files[&path].len() as u64)))
            }
            ScanRequest::CompareRest { first, second, remaining } => {
                for (p, first_file) in [(&first, true), (&second, false)] {
                    if let Some(e) = self.open_fail.get(p) {
                        let err = if first_file { CompareError::OpenFirst(e.clone()) } else { CompareError::OpenSecond(e.clone()) };
                        return Some(ScanReply::Comparison(Err(err)));
                    }
                    if let Some(e) = self.seek_fail.get(p) {
                        let err = if first_file { CompareError::SeekFirst(e.clone()) } else { CompareError::SeekSecond(e.clone()) };
                        return Some(ScanReply::Comparison(Err(err)));
                    }
                }
                self.compared.push((first.clone(), second.clone()));
                let a = self.files[&first].clone();
                let b = self.files[&second].clone();
                let mut cmp = RestComparison::new(remaining, a.len() as u64, b.len() as u64);
                let mut offset = 4096usize;
                while let Some(n) = cmp.next_chunk() {
                    if offset + n > a.len() || offset + n > b.len() {
                        return Some(ScanReply::Comparison(Err(CompareError::Compare("failed to fill whole buffer".to_string()))));
                    }
                    cmp.feed(&a[offset..offset + n].to_vec(), &b[offset..offset + n].to_vec());
                    offset += n;
                }
                Some(ScanReply::Comparison(Ok(cmp.verdict().unwrap())))
            }
            ScanRequest::Remove { path } => {
                if let Some(e) = self.remove_fail.get(&path) {
                    return Some(ScanReply::Removal(Err(e.clone())));
                }
                self.files.remove(&path);
                self.removed.push(path);
                Some(ScanReply::Removal(Ok(())))
            }
        }
    }
}

fn drive_scan(scan: &mut GroupScan, fs: &mut FakeFs) {
    loop {
        let req = scan.next_request();
        match fs.reply(req) {
            Some(r) => scan.resume(r),
            None => break,
        }
    }
}

fn drive_run(run: &mut CleanRun, fs: &mut FakeFs) {
    loop {
        let req = run.next_request();
        match fs.reply(req) {
            Some(r) => run.resume(r),
            None => break,
        }
    }
}

fn paths(items: &[&str]) -> Vec<String> {
    items.iter().map(|s| s.to_string()).collect()
}

#[test]
fn dry_run_reports_later_copies_of_small_files() {
    let mut fs = FakeFs::default();
    fs.add("/a", b"hello".to_vec());
    fs.add("/b", b"world".to_vec());
    fs.add("/c", b"hello".to_vec());
    fs.add("/d", b"hello".to_vec());
    let mut scan = GroupScan::new(paths(&["/a", "/b", "/c", "/d"]), 5, false, false);
    drive_scan(&mut scan, &mut fs);
    let (succ, fail) = scan.into_lines();
    assert_eq!(succ, vec![
        "This is a dry run, Would remove file \n\"/c\" \nit is equal to \n\"/a\"\n".to_string(),
        "This is a dry run, Would remove file \n\"/d\" \nit is equal to \n\"/a\"\n".to_string(),
    ]);
    assert!(fail.is_empty());
    assert!(fs.removed.is_empty());
}

#[test]
fn real_run_removes_copies_and_keeps_the_first() {
    let mut fs = FakeFs::default();
    fs.add("/a", b"same".to_vec());
    fs.add("/b", b"same".to_vec());
    fs.add("/c", b"same".to_vec());
    let mut scan = GroupScan::new(paths(&["/a", "/b", "/c"]), 4, false, true);
    drive_scan(&mut scan, &mut fs);
    let (succ, fail) = scan.into_lines();
    assert_eq!(fs.removed, paths(&["/b", "/c"]));
    assert!(fs.files.contains_key("/a"));
    assert_eq!(succ, vec![
        "Removing file \n\"/b\" \nit is equal to \n\"/a\"\n".to_string(),
        "Removing file \n\"/c\" \nit is equal to \n\"/a\"\n".to_string(),
    ]);
    assert!(fail.is_empty());
}

#[test]
fn failed_removal_is_reported_and_the_file_stays_in_the_scan() {
    let mut fs = FakeFs::default();
    fs.add("/a", b"x".to_vec());
    fs.add("/b", b"x".to_vec());
    fs.add("/c", b"x".to_vec());
    fs.remove_fail.insert("/b".to_string(), "Permission denied".to_string());
    let mut scan = GroupScan::new(paths(&["/a", "/b", "/c"]), 1, false, true);
    drive_scan(&mut scan, &mut fs);
    let (succ, fail) = scan.into_lines();
    // /b could not be removed, so it stays in the scan; /c is removed as a copy of /a.
    assert_eq!(fail, vec![
        "Could not remove file \"/b\", got an error: Permission denied".to_string(),
    ]);
    assert_eq!(succ, vec!["Removing file \n\"/c\" \nit is equal to \n\"/a\"\n".to_string()]);
    assert_eq!(fs.removed, paths(&["/c"]));
}

#[test]
fn large_files_are_compared_past_the_first_4096_bytes() {
    let mut fs = FakeFs::default();
    let mut base = vec![7u8; 10000];
    fs.add("/big1", base.clone());
    base[9000] = 8;
    fs.add("/big2", base.clone());
    base[9000] = 7;
    fs.add("/big3", base.clone());
    let mut scan = GroupScan::new(paths(&["/big1", "/big2", "/big3"]), 10000, false, false);
    drive_scan(&mut scan, &mut fs);
    let (succ, fail) = scan.into_lines();
    assert_eq!(succ, vec!["This is a dry run, Would remove file \n\"/big3\" \nit is equal to \n\"/big1\"\n".to_string()]);
    assert!(fail.is_empty());
    // /big3 left the scan as a copy of /big1, so /big2 is not compared with it
    assert_eq!(fs.compared, vec![
        ("/big1".to_string(), "/big2".to_string()),
        ("/big1".to_string(), "/big3".to_string()),
    ]);
}

#[test]
fn different_prefixes_are_never_compared_further() {
    let mut fs = FakeFs::default();
    fs.add("/p", vec![1u8; 5000]);
    fs.add("/q", vec![2u8; 5000]);
    let mut scan = GroupScan::new(paths(&["/p", "/q"]), 5000, false, false);
    drive_scan(&mut scan, &mut fs);
    let (succ, fail) = scan.into_lines();
    assert!(succ.is_empty() && fail.is_empty());
    assert!(fs.compared.is_empty());
}

#[test]
fn prefix_failures_are_reported_and_the_file_is_skipped() {
    let mut fs = FakeFs::default();
    fs.add("/a", b"zz".to_vec());
    fs.add("/b", b"zz".to_vec());
    fs.add("/c", b"zz".to_vec());
    fs.open_fail.insert("/a".to_string(), "No such file".to_string());
    fs.read_fail.insert("/b".to_string(), "Is a directory".to_string());
    let mut scan = GroupScan::new(paths(&["/a", "/b", "/c"]), 2, false, false);
    drive_scan(&mut scan, &mut fs);
    let (succ, fail) = scan.into_lines();
    assert!(succ.is_empty());
    assert_eq!(fail, vec![
        "Could not open \"/a\", got an error: No such file".to_string(),
        "Could not read \"/b\", got an error: Is a directory".to_string(),
    ]);
}

#[test]
fn comparison_failures_name_the_step_that_failed() {
    let cases: Vec<(&str, &str, &str)> = vec![
        ("open", "/f1", "Could not open \"/f1\", got an error: E"),
        ("seek", "/f1", "Could not seek \"/f1\", got an error: E"),
        ("open", "/f2", "Could not open \"/f2\", got an error: E"),
        ("seek", "/f2", "Could not seek \"/f2\", got an error: E"),
    ];
    for (kind, who, line) in cases {
        let mut fs = FakeFs::default();
        fs.add("/f1", vec![3u8; 4100]);
        fs.add("/f2", vec![3u8; 4100]);
        let mut scan = GroupScan::new(paths(&["/f1", "/f2"]), 4100, false, false);
        // the prefixes are read first, then the comparison fails
        let r1 = scan.next_request();
        let r1 = fs.reply(r1).unwrap();
        scan.resume(r1);
        let r2 = scan.next_request();
        let r2 = fs.reply(r2).unwrap();
        scan.resume(r2);
        if kind == "open" {
            fs.open_fail.insert(who.to_string(), "E".to_string());
        } else {
            fs.seek_fail.insert(who.to_string(), "E".to_string());
        }
        drive_scan(&mut scan, &mut fs);
        let (succ, fail) = scan.into_lines();
        assert!(succ.is_empty());
        assert_eq!(fail, vec![line.to_string()]);
    }
}

#[test]
fn a_reading_failure_during_comparison_is_reported() {
    let mut fs = FakeFs::default();
    fs.add("/f1", vec![3u8; 4100]);
    fs.add("/f2", vec![3u8; 4100]);
    let mut scan = GroupScan::new(paths(&["/f1", "/f2"]), 4100, false, false);
    loop {
        let req = scan.next_request();
        let reply = match req {
            ScanRequest::CompareRest { .. } => ScanReply::Comparison(Err(CompareError::Compare("I/O".to_string()))),
            other => match fs.reply(other) {
                Some(r) => r,
                None => break,
            },
        };
        scan.resume(reply);
    }
    let (_, fail) = scan.into_lines();
    assert_eq!(fail, vec!["Could not compare \"/f1\", \"/f2\", got an error I/O".to_string()]);
}

#[test]
fn empty_files_are_checked_again_and_removed() {
    let mut fs = FakeFs::default();
    fs.add("/e1", Vec::new());
    fs.add("/e2", b"grew".to_vec());
    fs.add("/e3", Vec::new());
    fs.add("/e4", Vec::new());
    fs.remove_fail.insert("/e4".to_string(), "busy".to_string());
    fs.read_fail.insert("/e3".to_string(), "ignored".to_string());
    let mut scan = GroupScan::new(paths(&["/e1", "/e2", "/e3", "/e4"]), 0, true, true);
    drive_scan(&mut scan, &mut fs);
    let (succ, fail) = scan.into_lines();
    assert_eq!(succ, vec![
        "Removed \"/e1\" : sized 0".to_string(),
        "Removed \"/e3\" : sized 0".to_string(),
    ]);
    // the read failure of the first pass is not part of this report
    assert_eq!(fail, vec!["Could not remove file \"/e4\", got an error: busy".to_string()]);
    assert_eq!(fs.removed, paths(&["/e1", "/e3"]));
}

#[test]
fn empty_files_in_a_dry_run_and_their_failures() {
    let mut fs = FakeFs::default();
    fs.add("/e1", Vec::new());
    fs.add("/e2", Vec::new());
    fs.add("/e3", Vec::new());
    fs.metadata_fail.insert("/e2".to_string(), "stale".to_string());
    fs.open_fail.insert("/e3".to_string(), "gone".to_string());
    let mut scan = GroupScan::new(paths(&["/e1", "/e2", "/e3"]), 0, true, false);
    drive_scan(&mut scan, &mut fs);
    let (succ, fail) = scan.into_lines();
    assert_eq!(succ, vec!["This is a dry run, would remove \"/e1\" : sized 0".to_string()]);
    assert_eq!(fail, vec![
        "Could not access the metadata of \"/e2\", got an error: stale".to_string(),
        "Could not open \"/e3\", got an error: gone".to_string(),
    ]);
    assert!(fs.removed.is_empty());
}

#[test]
fn a_single_file_is_never_a_copy() {
    let mut fs = FakeFs::default();
    fs.add("/only", b"abc".to_vec());
    let mut scan = GroupScan::new(paths(&["/only"]), 3, false, true);
    drive_scan(&mut scan, &mut fs);
    let (succ, fail) = scan.into_lines();
    assert!(succ.is_empty() && fail.is_empty());
    assert!(fs.removed.is_empty());
}

#[test]
fn the_first_request_reads_the_first_bytes() {
    let mut scan = GroupScan::new(paths(&["/x", "/y"]), 10000, false, false);
    assert_eq!(scan.next_request(), ScanRequest::ReadPrefix { path: "/x".to_string(), count: 4096 });
    // asking again without an answer gives the same request
    assert_eq!(scan.next_request(), ScanRequest::ReadPrefix { path: "/x".to_string(), count: 4096 });
    // an answer of another kind changes nothing
    scan.resume(ScanReply::Removal(Ok(())));
    assert_eq!(scan.next_request(), ScanRequest::ReadPrefix { path: "/x".to_string(), count: 4096 });
}

#[test]
fn run_clean_scans_every_bucket_in_order() {
    let mut fs = FakeFs::default();
    fs.add("/a", b"12".to_vec());
    fs.add("/b", b"123".to_vec());
    fs.add("/c", b"12".to_vec());
    fs.add("/d", b"123".to_vec());
    let files = vec![(2u64, "/a".to_string()), (3, "/b".to_string()), (2, "/c".to_string()), (3, "/d".to_string())];
    let mut run = run_clean(files, false, false);
    assert_eq!(run.pending_buckets(), vec![(2u64, 2usize), (3, 2)]);
    drive_run(&mut run, &mut fs);
    let (succ, fail) = run.into_lines();
    assert_eq!(succ, vec![
        "This is a dry run, Would remove file \n\"/c\" \nit is equal to \n\"/a\"\n".to_string(),
        "This is a dry run, Would remove file \n\"/d\" \nit is equal to \n\"/b\"\n".to_string(),
    ]);
    assert!(fail.is_empty());
}

#[test]
fn run_clean_of_nothing_finishes_at_once() {
    let mut run = run_clean(Vec::new(), true, true);
    assert_eq!(run.next_request(), ScanRequest::Finished);
    let (succ, fail) = run.into_lines();
    assert!(succ.is_empty() && fail.is_empty());
}

#[test]
fn paths_are_quoted_like_the_standard_library_does() {
    let mut fs = FakeFs::default();
    fs.add("/it's \"here\"", b"q".to_vec());
    fs.add("/copy", b"q".to_vec());
    let mut scan = GroupScan::new(paths(&["/it's \"here\"", "/copy"]), 1, false, false);
    drive_scan(&mut scan, &mut fs);
    let (succ, _) = scan.into_lines();
    assert_eq!(succ, vec![format!(
        "This is a dry run, Would remove file \n{:?} \nit is equal to \n{:?}\n",
        std::path::Path::new("/copy"),
        std::path::Path::new("/it's \"here\"")
    )]);
}

#[test]
fn a_dry_run_reports_what_a_real_run_removes() {
    let big = vec![7u8; 5000];
    let mut other = big.clone();
    other[4500] = 8;
    let setup = |fs: &mut FakeFs| {
        fs.add("/p", big.clone());
        fs.add("/q", other.clone());
        fs.add("/r", big.clone());
        fs.add("/s", other.clone());
        fs.add("/t", big.clone());
        fs.open_fail.insert("/u".to_string(), "denied".to_string());
    };
    let files = paths(&["/p", "/q", "/r", "/s", "/t", "/u"]);
    let mut dry_fs = FakeFs::default();
    setup(&mut dry_fs);
    let mut dry = GroupScan::new(files.clone(), 5000, false, false);
    drive_scan(&mut dry, &mut dry_fs);
    let mut real_fs = FakeFs::default();
    setup(&mut real_fs);
    let mut real = GroupScan::new(files, 5000, false, true);
    drive_scan(&mut real, &mut real_fs);
    let (dry_succ, dry_fail) = dry.into_lines();
    let (real_succ, real_fail) = real.into_lines();
    assert!(dry_fs.removed.is_empty());
    assert_eq!(real_fs.removed, paths(&["/r", "/t", "/s"]));
    assert_eq!(dry_fail, real_fail);
    assert_eq!(dry_succ.len(), real_succ.len());
    for (d, r) in dry_succ.iter().zip(real_succ.iter()) {
        let rest = r.strip_prefix("Removing file ").unwrap();
        assert_eq!(d, &format!("This is a dry run, Would remove file {}", rest));
    }
}

#[test]
fn a_small_file_grown_since_the_walk_is_not_a_copy() {
    let mut fs = FakeFs::default();
    fs.add("/a", b"hello".to_vec());
    fs.add("/b", b"hello, grown".to_vec());
    let mut scan = GroupScan::new(paths(&["/a", "/b"]), 5, false, true);
    drive_scan(&mut scan, &mut fs);
    let (succ, fail) = scan.into_lines();
    assert!(succ.is_empty());
    assert!(fail.is_empty());
    assert!(fs.removed.is_empty());
    assert!(fs.files.contains_key("/b"));
}

#[test]
fn a_kept_file_grown_since_the_walk_takes_no_copy() {
    let mut fs = FakeFs::default();
    fs.add("/a", b"samegrown".to_vec());
    fs.add("/b", b"same".to_vec());
    fs.add("/c", b"same".to_vec());
    let mut scan = GroupScan::new(paths(&["/a", "/b", "/c"]), 4, false, false);
    drive_scan(&mut scan, &mut fs);
    let (succ, _) = scan.into_lines();
    assert_eq!(succ, vec![
        "This is a dry run, Would remove file \n\"/c\" \nit is equal to \n\"/b\"\n".to_string(),
    ]);
}

#[test]
fn a_large_file_grown_since_the_walk_is_never_compared() {
    let mut fs = FakeFs::default();
    fs.add("/a", vec![1u8; 5000]);
    fs.add("/b", vec![1u8; 6000]);
    let mut scan = GroupScan::new(paths(&["/a", "/b"]), 5000, false, true);
    drive_scan(&mut scan, &mut fs);
    let (succ, fail) = scan.into_lines();
    assert!(succ.is_empty());
    assert!(fail.is_empty());
    assert!(fs.compared.is_empty());
    assert!(fs.removed.is_empty());
}

#[test]
fn a_length_that_cannot_be_read_is_reported() {
    let mut fs = FakeFs::default();
    fs.add("/a", b"abc".to_vec());
    fs.add("/b", b"abc".to_vec());
    fs.metadata_fail.insert("/b".to_string(), "stale".to_string());
    let mut scan = GroupScan::new(paths(&["/a", "/b"]), 3, false, true);
    drive_scan(&mut scan, &mut fs);
    let (succ, fail) = scan.into_lines();
    assert!(succ.is_empty());
    assert_eq!(fail, vec!["Could not access the metadata of \"/b\", got an error: stale".to_string()]);
    assert!(fs.removed.is_empty());
}
