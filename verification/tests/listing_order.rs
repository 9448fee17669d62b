use tdt::listing::{list_order, listed_positions, positions_where, ranked_positions, stable_sort_order, SortKey};

fn nums(v: &[i128]) -> Vec<SortKey> {
    v.iter().map(|n| SortKey::num(*n)).collect()
}

fn texts(v: &[&str]) -> Vec<SortKey> {
    v.iter().map(|s| SortKey::text(s)).collect()
}

#[test]
fn stable_sort_keeps_ties_in_order() {
    assert_eq!(stable_sort_order(&nums(&[3, 1, 3, 2]), false), vec![1, 3, 0, 2]);
    assert_eq!(stable_sort_order(&nums(&[3, 1, 3, 2]), true), vec![0, 2, 3, 1]);
}

#[test]
fn texts_sort_by_characters() {
    assert_eq!(stable_sort_order(&texts(&["b", "ab", "a", "B"]), false), vec![3, 2, 1, 0]);
}

#[test]
fn numbers_sort_before_texts() {
    let keys = vec![SortKey::text("a"), SortKey::num(5)];
    assert_eq!(stable_sort_order(&keys, false), vec![1, 0]);
}

#[test]
fn list_order_reverses_then_limits() {
    assert_eq!(list_order(&texts(&["b", "a", "c"]), true, Some(2)), vec![2, 0]);
    assert_eq!(list_order(&texts(&["b", "a", "c"]), false, None), vec![1, 0, 2]);
    assert_eq!(list_order(&texts(&["b", "a", "c"]), false, Some(10)), vec![1, 0, 2]);
}

#[test]
fn reversing_a_stable_sort_reverses_ties_too() {
    assert_eq!(list_order(&nums(&[1, 1, 0]), true, None), vec![1, 0, 2]);
}

#[test]
fn positions_of_set_flags() {
    assert_eq!(positions_where(&vec![true, false, true]), vec![0, 2]);
    assert!(positions_where(&vec![false, false]).is_empty());
}

#[test]
fn listed_positions_filter_sort_and_limit() {
    let keep = vec![true, false, true, true];
    let keys = texts(&["d", "a", "b", "c"]);
    assert_eq!(listed_positions(&keep, &keys, false, None), vec![2, 3, 0]);
    assert_eq!(listed_positions(&keep, &keys, true, Some(1)), vec![0]);
}

#[test]
fn ranked_positions_descending_and_stable() {
    let keep = vec![true, true, false, true];
    assert_eq!(ranked_positions(&keep, &nums(&[1, 5, 9, 5]), true), vec![1, 3, 0]);
}
