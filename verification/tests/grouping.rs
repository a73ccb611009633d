use duplicate_file_finder::grouping::group_into_similar;

fn entries(items: &[(u64, &str)]) -> Vec<(u64, String)> {
    items.iter().map(|(s, p)| (*s, p.to_string())).collect()
}

#[test]
fn buckets_follow_first_appearance_and_scan_order() {
    let groups = group_into_similar(entries(&[(5, "a"), (7, "b"), (5, "c"), (9, "d"), (7, "e"), (5, "f")]));
    let expected: Vec<(u64, Vec<String>)> = vec![
        (5, vec!["a".to_string(), "c".to_string(), "f".to_string()]),
        (7, vec!["b".to_string(), "e".to_string()]),
        (9, vec!["d".to_string()]),
    ];
    assert_eq!(groups, expected);
}

#[test]
fn no_files_no_buckets() {
    assert!(group_into_similar(Vec::new()).is_empty());
}
