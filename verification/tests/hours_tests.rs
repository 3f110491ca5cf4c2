use my_dashboard::hours::{compress_hours, merge_best_hours};

#[test]
fn test_compress_hours_two_runs() {
    let hours = vec![6, 7, 8, 18, 19, 20];
    assert_eq!(compress_hours(&hours), vec![(6, 8), (18, 20)]);
}

#[test]
fn test_compress_hours_empty() {
    let hours: Vec<usize> = vec![];
    assert_eq!(compress_hours(&hours), vec![]);
}

#[test]
fn test_compress_hours_single() {
    let hours = vec![5];
    assert_eq!(compress_hours(&hours), vec![(5, 5)]);
}

#[test]
fn test_compress_hours_no_midnight_wrap() {
    // 23 followed (after sorting) by 0 is a break, not a continuation.
    let hours = vec![0, 1, 23];
    assert_eq!(compress_hours(&hours), vec![(0, 1), (23, 23)]);
}

#[test]
fn test_compress_hours_idempotent() {
    let hours = vec![2, 3, 4, 9, 11, 12, 20];
    let ranges = compress_hours(&hours);
    // Re-expand the ranges into hours and compress again: the ranges come
    // back unchanged.
    let mut expanded = Vec::new();
    for &(start, end) in &ranges {
        for h in start..=end {
            expanded.push(h);
        }
    }
    assert_eq!(expanded, hours);
    assert_eq!(compress_hours(&expanded), ranges);
}

#[test]
fn test_merge_best_hours_union() {
    let a = vec![6, 7, 8, 18, 19, 20];
    let b = vec![22, 23, 0, 1, 2, 3, 4, 5];
    let merged = merge_best_hours(&a, &b);
    assert_eq!(merged, vec![0, 1, 2, 3, 4, 5, 6, 7, 8, 18, 19, 20, 22, 23]);
}

#[test]
fn test_merge_best_hours_deduplicates_overlap() {
    // Hour 23 appears in both lists; the union holds it once, so the
    // compression that follows sees no duplicate.
    let a = vec![21, 23];
    let b = vec![22, 23, 0];
    let merged = merge_best_hours(&a, &b);
    assert_eq!(merged, vec![0, 21, 22, 23]);
    assert_eq!(compress_hours(&merged), vec![(0, 0), (21, 23)]);
}

#[test]
fn test_merge_best_hours_empty_inputs() {
    let empty: Vec<usize> = vec![];
    let b = vec![4, 2];
    assert_eq!(merge_best_hours(&empty, &empty), vec![]);
    assert_eq!(merge_best_hours(&empty, &b), vec![2, 4]);
}
