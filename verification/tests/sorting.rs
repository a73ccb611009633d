use duplicate_file_finder::sorting::run_sort;

fn entries(items: &[(u64, &str)]) -> Vec<(u64, String)> {
    items.iter().map(|(s, p)| (*s, p.to_string())).collect()
}

#[test]
fn sort_lists_largest_first_and_keeps_scan_order_for_ties() {
    let mut files = entries(&[(10, "a"), (30, "b"), (10, "c"), (20, "d"), (30, "e")]);
    let shown = run_sort(&mut files, 3);
    assert_eq!(shown, entries(&[(30, "b"), (30, "e"), (20, "d")]));
    assert_eq!(files, entries(&[(30, "b"), (30, "e"), (20, "d"), (10, "a"), (10, "c")]));
}

#[test]
fn sort_shows_everything_when_asked_for_more() {
    let mut files = entries(&[(1, "x"), (2, "y")]);
    let shown = run_sort(&mut files, 20);
    assert_eq!(shown, entries(&[(2, "y"), (1, "x")]));
}

#[test]
fn sort_of_nothing_shows_nothing() {
    let mut files: Vec<(u64, String)> = Vec::new();
    assert!(run_sort(&mut files, 5).is_empty());
    let mut one = entries(&[(7, "only")]);
    assert!(run_sort(&mut one, 0).is_empty());
    assert_eq!(one, entries(&[(7, "only")]));
}
