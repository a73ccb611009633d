use duplicate_file_finder::walk::{bundle_path, DirEntryInfo, EntryMetadata, ListedType, Walker};

fn file(path: &str, name: &str, len: u64, nlink: u64) -> DirEntryInfo {
    DirEntryInfo {
        path: path.to_string(),
        name: Some(name.to_string()),
        listed_type: Some(ListedType { is_file: true, is_symlink: false }),
        metadata: Ok(EntryMetadata { is_file: true, is_dir: false, nlink, len }),
    }
}

fn dir(path: &str, name: &str) -> DirEntryInfo {
    DirEntryInfo {
        path: path.to_string(),
        name: Some(name.to_string()),
        listed_type: Some(ListedType { is_file: false, is_symlink: false }),
        metadata: Ok(EntryMetadata { is_file: false, is_dir: true, nlink: 2, len: 4096 }),
    }
}

#[test]
fn the_walk_keeps_plain_files_and_enters_directories() {
    let mut w = Walker::new("/root".to_string(), false, true);
    assert_eq!(w.next_dir(), Some("/root".to_string()));
    w.record_listing(Ok(vec![
        file("/root/a.txt", "a.txt", 12, 1),
        dir("/root/sub", "sub"),
        dir("/root/other", "other"),
    ]));
    // the directory met last is read first
    assert_eq!(w.next_dir(), Some("/root/other".to_string()));
    w.record_listing(Ok(vec![]));
    assert_eq!(w.next_dir(), Some("/root/sub".to_string()));
    w.record_listing(Ok(vec![file("/root/sub/b", "b", 3, 1)]));
    assert_eq!(w.next_dir(), None);
    assert!(w.is_done());
    let (files, errors) = w.into_parts();
    assert_eq!(files, vec![(12u64, "/root/a.txt".to_string()), (3, "/root/sub/b".to_string())]);
    assert!(errors.is_empty());
}

#[test]
fn the_walk_skips_what_the_readme_says() {
    let mut w = Walker::new("/r".to_string(), false, true);
    w.next_dir();
    let mut link = file("/r/link", "link", 5, 1);
    link.listed_type = Some(ListedType { is_file: false, is_symlink: true });
    let mut odd = file("/r/odd", "odd", 5, 1);
    odd.name = None;
    let mut broken = file("/r/broken", "broken", 5, 1);
    broken.listed_type = None;
    w.record_listing(Ok(vec![
        file("/r/.hidden", ".hidden", 5, 1),
        dir("/r/.git", ".git"),
        dir("/r/target", "target"),
        file("/r/target", "target", 9, 1),
        link,
        file("/r/hard", "hard", 5, 2),
        file("/r/empty", "empty", 0, 1),
        dir("/r/App.APP", "App.APP"),
        dir("/r/Kit.framework", "Kit.framework"),
        odd,
        broken,
    ]));
    assert_eq!(w.next_dir(), None);
    let (files, errors) = w.into_parts();
    assert_eq!(files, vec![(9u64, "/r/target".to_string())]);
    assert!(errors.is_empty());
}

#[test]
fn bundles_are_entered_when_sorting_and_empty_files_kept_when_removing_them() {
    let mut w = Walker::new("/r".to_string(), true, false);
    w.next_dir();
    w.record_listing(Ok(vec![dir("/r/X.app", "X.app"), file("/r/empty", "empty", 0, 1)]));
    assert_eq!(w.next_dir(), Some("/r/X.app".to_string()));
    let (files, _) = w.into_parts();
    assert_eq!(files, vec![(0u64, "/r/empty".to_string())]);
}

#[test]
fn failures_of_the_walk_are_reported() {
    let mut w = Walker::new("/r".to_string(), false, true);
    w.next_dir();
    let mut bad = file("/r/bad", "bad", 1, 1);
    bad.metadata = Err("Permission denied (os error 13)".to_string());
    w.record_listing(Ok(vec![bad, dir("/r/locked", "locked")]));
    assert_eq!(w.next_dir(), Some("/r/locked".to_string()));
    w.record_listing(Err("Permission denied (os error 13)".to_string()));
    let (files, errors) = w.into_parts();
    assert!(files.is_empty());
    assert_eq!(errors, vec![
        "Could not access the metadata of \"/r/bad\", got an error Permission denied (os error 13)".to_string(),
        "Could not read \"/r/locked\", got an error Permission denied (os error 13)".to_string(),
    ]);
}

#[test]
fn a_listing_without_a_directory_handed_out_changes_nothing() {
    let mut w = Walker::new("/r".to_string(), false, true);
    w.record_listing(Ok(vec![file("/r/a", "a", 1, 1)]));
    assert_eq!(w.current_dir(), None);
    assert_eq!(w.next_dir(), Some("/r".to_string()));
    assert_eq!(w.current_dir(), Some("/r".to_string()));
    let (files, _) = w.into_parts();
    assert!(files.is_empty());
}

#[test]
fn bundle_extensions_ignore_ascii_case() {
    assert!(bundle_path("/x/Foo.App"));
    assert!(bundle_path("/x/Foo.PREFPANE"));
    assert!(bundle_path("/x/a.b.qlgenerator"));
    assert!(!bundle_path("/x/app"));
    assert!(!bundle_path("/x/Foo.apps"));
    assert!(!bundle_path("/x/Foo"));
}
