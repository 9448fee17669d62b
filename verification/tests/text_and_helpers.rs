use tdt::helpers::{escape_csv, format_short_id, truncate, truncate_id, truncate_str};
use tdt::text::{concat_texts, decimal_text, first_word_of, join_texts, replace_all, replace_first, split_commas, str_contains, trim_text};

#[test]
fn short_id_keeps_short_identifiers() {
    assert_eq!(format_short_id("REQ-1234"), "REQ-1234");
    assert_eq!(format_short_id("REQ-0123456789AB"), "REQ-0123456789AB");
}

#[test]
fn short_id_cuts_long_identifiers() {
    assert_eq!(format_short_id("REQ-01HQ3K5M7N8P9Q2R3S4T5V6W7X"), "REQ-01HQ3K5M7...");
    assert_eq!(truncate_id("RISK-01HQ3K5M7N8P9Q2R3S4T"), "RISK-01HQ3K5M...");
}

#[test]
fn truncate_str_cases() {
    assert_eq!(truncate_str("hello world", 8), "hello...");
    assert_eq!(truncate_str("hi", 8), "hi");
    assert_eq!(truncate_str("exactly8", 8), "exactly8");
    assert_eq!(truncate_str("abcdef", 2), "...");
}

#[test]
fn truncate_for_import_rows() {
    assert_eq!(truncate("Housing Assembly", 10), "Housing...");
    assert_eq!(truncate("Short", 10), "Short");
}

#[test]
fn csv_fields_are_quoted_when_needed() {
    assert_eq!(escape_csv("plain"), "plain");
    assert_eq!(escape_csv("a,b"), "\"a,b\"");
    assert_eq!(escape_csv("say \"hi\""), "\"say \"\"hi\"\"\"");
    assert_eq!(escape_csv("two\nlines"), "\"two\nlines\"");
}

#[test]
fn trimming_removes_outer_white_space() {
    assert_eq!(trim_text("  a b \t\n"), "a b");
    assert_eq!(trim_text("\u{a0}x\u{3000}"), "x");
    assert_eq!(trim_text("   "), "");
    assert_eq!(trim_text(""), "");
}

#[test]
fn replace_all_is_left_to_right_without_overlap() {
    assert_eq!(replace_all("aaa", "aa", "b"), "ba");
    assert_eq!(replace_all("a\"b\"", "\"", "\\\""), "a\\\"b\\\"");
    assert_eq!(replace_all("none here", "xyz", "q"), "none here");
}

#[test]
fn replace_first_changes_one_occurrence() {
    assert_eq!(replace_first("unit_cost: null\nunit_cost: null", "unit_cost: null", "unit_cost: 5"), "unit_cost: 5\nunit_cost: null");
}

#[test]
fn split_commas_keeps_empty_pieces() {
    assert_eq!(split_commas("a,,b"), vec!["a".to_string(), "".to_string(), "b".to_string()]);
    assert_eq!(split_commas(""), vec!["".to_string()]);
    assert_eq!(split_commas("x,"), vec!["x".to_string(), "".to_string()]);
}

#[test]
fn joining_and_concatenating() {
    assert_eq!(join_texts(&vec!["a", "b", "c"], ","), "a,b,c");
    assert_eq!(join_texts(&vec![], ","), "");
    assert_eq!(concat_texts("ab", "cd"), "abcd");
}

#[test]
fn decimal_numbers() {
    assert_eq!(decimal_text(0), "0");
    assert_eq!(decimal_text(7), "7");
    assert_eq!(decimal_text(1204), "1204");
}

#[test]
fn first_word_of_text() {
    assert_eq!(first_word_of("  ACME Manufacturing"), Some("ACME".to_string()));
    assert_eq!(first_word_of("   "), None);
}

#[test]
fn containment() {
    assert!(str_contains("manufacturing/ncrs", "ncr"));
    assert!(!str_contains("abc", "abd"));
    assert!(str_contains("abc", ""));
}

#[test]
fn cutting_twice_is_cutting_once() {
    for (s, n) in [("Hydraulic cylinder stroke", 10usize), ("short", 10), ("abcdef", 2), ("abcdef", 6), ("abcdefg", 6)] {
        let once = truncate_str(s, n);
        assert_eq!(truncate_str(&once, n), once);
    }
    assert_eq!(truncate_str("Hydraulic cylinder stroke", 10), "Hydraul...");
}

#[test]
fn displayed_identifiers_fit_sixteen_bytes() {
    for id in ["REQ-01HC2JB7SMQX7RS1Y0GFKBHPTD", "REQ-1", "CMP-0123456789AB", "CMP-0123456789ABC"] {
        let shown = format_short_id(id);
        assert!(shown.len() <= 16);
        assert_eq!(shown, truncate_str(id, 16));
        assert_eq!(shown, truncate_id(id));
    }
}
