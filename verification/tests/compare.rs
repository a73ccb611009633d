use duplicate_file_finder::compare::RestComparison;

#[test]
fn lengths_that_differ_decide_at_once() {
    let cmp = RestComparison::new(10, 100, 101);
    assert_eq!(cmp.verdict(), Some(false));
    assert_eq!(cmp.next_chunk(), None);
}

#[test]
fn chunks_are_at_most_4096_bytes_and_equality_needs_all() {
    let mut cmp = RestComparison::new(5000, 9096, 9096);
    assert_eq!(cmp.next_chunk(), Some(4096));
    cmp.feed(&vec![1u8; 4096], &vec![1u8; 4096]);
    assert_eq!(cmp.verdict(), None);
    assert_eq!(cmp.next_chunk(), Some(904));
    cmp.feed(&vec![2u8; 904], &vec![2u8; 904]);
    assert_eq!(cmp.verdict(), Some(true));
    assert_eq!(cmp.next_chunk(), None);
}

#[test]
fn the_first_difference_stops_the_comparison() {
    let mut cmp = RestComparison::new(9000, 13096, 13096);
    let mut b = vec![0u8; 4096];
    b[17] = 1;
    cmp.feed(&vec![0u8; 4096], &b);
    assert_eq!(cmp.verdict(), Some(false));
    assert_eq!(cmp.next_chunk(), None);
}

#[test]
fn nothing_to_compare_is_equal() {
    assert_eq!(RestComparison::new(0, 4096, 4096).verdict(), Some(true));
}
