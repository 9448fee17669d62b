use tdt::common::Timestamp;
use tdt::entities::Verdict;
use tdt::report::rvm::{
    linked_test_ids, matrix_line, rvm_document, verification_matrix, MatrixLine, MatrixRequirement, MatrixRow, MatrixTest,
};
use tdt::report::TestRun;

fn ids(v: &[&str]) -> Vec<String> {
    v.iter().map(|s| s.to_string()).collect()
}

fn req(id: &str, verified_by: &[&str]) -> MatrixRequirement {
    MatrixRequirement { id: id.to_string(), verified_by: ids(verified_by) }
}

fn test(id: &str, verifies: &[&str]) -> MatrixTest {
    MatrixTest { id: id.to_string(), verifies: ids(verifies) }
}

fn run(id: &str, test: &str, verdict: Verdict, secs: i64) -> TestRun {
    TestRun { id: id.into(), test_id: test.into(), verdict, executed: Timestamp { secs, nanos: 0 } }
}

#[test]
fn links_from_both_sides_are_merged_once() {
    let tests = vec![test("T1", &["R1"]), test("T2", &["R1", "R2"]), test("T3", &[])];
    assert_eq!(linked_test_ids(&req("R1", &["T3", "T1", "T3"]), &tests), ids(&["T3", "T1", "T2"]));
    assert_eq!(linked_test_ids(&req("R2", &[]), &tests), ids(&["T2"]));
    assert!(linked_test_ids(&req("R3", &[]), &tests).is_empty());
}

#[test]
fn merged_matrix_coverage_and_counts() {
    let reqs = vec![req("R1", &["T1"]), req("R2", &[]), req("R3", &["T2", "T4"]), req("R4", &["T3"]), req("R5", &["T5"])];
    let tests = vec![test("T1", &[]), test("T2", &["R1"]), test("T3", &[]), test("T5", &[])];
    let runs = vec![
        run("X1", "T1", Verdict::Pass, 10),
        run("X2", "T2", Verdict::Fail, 10),
        run("X3", "T3", Verdict::NotApplicable, 10),
        run("X4", "T2", Verdict::Pass, 20),
    ];
    let m = verification_matrix(&reqs, &tests, &runs, false);
    // R1: T1 passed and T2 (which lists R1) passed on its latest run.
    // R2: no tests. R3: T2 passed, T4 does not exist. R4: not applicable
    // counts as passing. R5: T5 never ran.
    assert_eq!((m.verified, m.partial, m.unverified), (2, 1, 2));
    assert_eq!((m.passed, m.failed), (3, 0));
    assert_eq!(m.rows.len(), 7);
    assert!(matches!(&m.rows[0], MatrixRow::Linked { requirement: 0, test_id, test: Some(0), result: Some(0), passed: true } if test_id == "T1"));
    assert!(matches!(&m.rows[1], MatrixRow::Linked { requirement: 0, test: Some(1), result: Some(3), passed: true, .. }));
    assert!(matches!(&m.rows[2], MatrixRow::NoTests { requirement: 1 }));
    assert!(matches!(&m.rows[4], MatrixRow::Linked { requirement: 2, test: None, result: None, passed: false, .. }));
    assert!(matches!(&m.rows[6], MatrixRow::Linked { requirement: 4, test: Some(3), result: None, passed: false, .. }));
}

#[test]
fn unverified_only_keeps_unverified_requirements() {
    let reqs = vec![req("R1", &["T1"]), req("R2", &[]), req("R3", &["T9"]), req("R4", &["T4"])];
    let tests = vec![test("T1", &[]), test("T4", &[])];
    let m = verification_matrix(&reqs, &tests, &vec![run("X1", "T4", Verdict::Fail, 1)], true);
    assert_eq!(m.rows.len(), 3);
    assert!(matches!(&m.rows[0], MatrixRow::Linked { requirement: 0, result: None, .. }));
    assert!(matches!(&m.rows[1], MatrixRow::NoTests { requirement: 1 }));
    assert!(matches!(&m.rows[2], MatrixRow::Linked { requirement: 2, test: None, .. }));
    assert_eq!((m.verified, m.partial, m.unverified), (0, 1, 3));
}

#[test]
fn matrix_lines_say_why_a_test_is_not_verified() {
    let runs = vec![run("X1", "T1", Verdict::Fail, 1)];
    let none = matrix_line(&MatrixRow::NoTests { requirement: 0 }, &runs, "REQ@1", "Stroke", "", "", "");
    assert_eq!((none.test_id.as_str(), none.test_title.as_str(), none.verdict.as_str()), ("-", "(no tests linked)", "-"));
    let lost = MatrixRow::Linked { requirement: 0, test_id: "T9".into(), test: None, result: None, passed: false };
    let l = matrix_line(&lost, &runs, "REQ@1", "Stroke", "T9", "ignored", "");
    assert_eq!((l.test_id.as_str(), l.test_title.as_str(), l.result_id.as_str(), l.verdict.as_str()), ("T9", "(test not found)", "-", "-"));
    let idle = MatrixRow::Linked { requirement: 0, test_id: "T2".into(), test: Some(1), result: None, passed: false };
    let l = matrix_line(&idle, &runs, "REQ@1", "Stroke", "TEST@2", "Burst", "");
    assert_eq!((l.test_title.as_str(), l.verdict.as_str()), ("Burst", "(not executed)"));
    let failed = MatrixRow::Linked { requirement: 0, test_id: "T1".into(), test: Some(0), result: Some(0), passed: false };
    let l = matrix_line(&failed, &runs, "REQ@1", "Stroke", "TEST@1", "Leak", "RSLT@1");
    assert_eq!((l.result_id.as_str(), l.verdict.as_str()), ("RSLT@1", "✗ Fail"));
}

#[test]
fn matrix_document_table() {
    let lines = vec![MatrixLine {
        req_id: "REQ@1".into(),
        req_title: "Stroke length of the main actuator".into(),
        test_id: "TEST@1".into(),
        test_title: "Stroke".into(),
        result_id: "RSLT@1".into(),
        verdict: "✓ Pass".into(),
    }];
    let doc = rvm_document(&lines);
    assert!(doc.starts_with("# Requirements Verification Matrix (RVM)\n\n"));
    let row = doc.lines().find(|l| l.contains("REQ@1")).unwrap();
    let cells: Vec<&str> = row.trim().trim_matches('|').split('|').map(|c| c.trim()).collect();
    assert_eq!(cells, vec!["REQ@1", "Stroke length of the m...", "TEST@1", "Stroke", "RSLT@1", "✓ Pass"]);
    assert!(doc.contains("REQ Title"));
}
