use tdt::entities::RiskLevel;
use tdt::report::fmea::{fmea_document, fmea_row_cells, FmeaRowText};
use tdt::report::open_issues::{open_issues_document, IssueLine};
use tdt::report::test_status::{test_status_document, FailureLine, TestStatusSummary};

fn row_line<'a>(doc: &'a str, first_cell: &str) -> &'a str {
    doc.lines()
        .find(|l| l.split('|').nth(1).map(|c| c.trim()) == Some(first_cell))
        .unwrap_or_else(|| panic!("no row for {} in\n{}", first_cell, doc))
}

fn cells(line: &str) -> Vec<String> {
    let inner = line.trim().trim_start_matches('|').trim_end_matches('|');
    inner.split('|').map(|c| c.trim().to_string()).collect()
}

fn risk(id: &str, mode: &str, mitigations: usize) -> FmeaRowText {
    FmeaRowText {
        id: id.to_string(),
        failure_mode: Some(mode.to_string()),
        cause: None,
        effect: Some("Leak".to_string()),
        severity: Some(8),
        occurrence: Some(4),
        detection: None,
        rpn: Some(96),
        level: Some(RiskLevel::High),
        mitigations,
    }
}

#[test]
fn fmea_cells_shorten_and_fill_dashes() {
    let c = fmea_row_cells(&risk("RISK@1", "Seal extrudes under high pressure", 2));
    assert_eq!(
        c,
        vec!["RISK@1", "Seal extrudes und...", "-", "Leak", "8", "4", "-", "96", "high", "2 action(s)"]
    );
    let none = fmea_row_cells(&risk("RISK@2", "Wear", 0));
    assert_eq!(none[9], "None");
}

#[test]
fn fmea_document_is_a_markdown_table() {
    let doc = fmea_document(&vec![risk("RISK@1", "Wear", 1), risk("RISK@2", "Crack", 0)]);
    assert!(doc.starts_with("# FMEA Report\n\n"));
    let header = doc.lines().nth(2).unwrap();
    assert_eq!(cells(header), vec!["ID", "Failure Mode", "Cause", "Effect", "S", "O", "D", "RPN", "Level", "Mitigations"]);
    assert!(doc.lines().nth(3).unwrap().contains("---"));
    assert_eq!(cells(row_line(&doc, "RISK@1"))[9], "1 action(s)");
    assert_eq!(cells(row_line(&doc, "RISK@2"))[1], "Crack");
    let r1 = doc.find("RISK@1").unwrap();
    let r2 = doc.find("RISK@2").unwrap();
    assert!(r1 < r2);
}

#[test]
fn test_status_document_with_failures() {
    let s = TestStatusSummary { executed: 3, pending: 1, passed: 1, failed: 2, conditional: 0, recent_failures: vec![] };
    let failures = vec![FailureLine {
        test_id: "TEST@4".to_string(),
        title: "A very long protocol title that goes on and on".to_string(),
        date: "2024-05-01".to_string(),
    }];
    let doc = test_status_document(4, &s, "33.3%", &failures);
    assert!(doc.starts_with("# Test Execution Status Report\n\n## Summary\n\n"));
    assert_eq!(cells(row_line(&doc, "Total Protocols")), vec!["Total Protocols", "4"]);
    assert_eq!(cells(row_line(&doc, "Pass Rate")), vec!["Pass Rate", "33.3%"]);
    assert!(doc.contains("\n## Recent Failures\n\n"));
    assert_eq!(
        cells(row_line(&doc, "TEST@4")),
        vec!["TEST@4", "A very long protocol title that goes ...", "2024-05-01"]
    );
}

#[test]
fn test_status_document_without_runs_has_no_pass_rate() {
    let s = TestStatusSummary { executed: 0, pending: 2, passed: 0, failed: 0, conditional: 0, recent_failures: vec![] };
    let doc = test_status_document(2, &s, "", &vec![]);
    assert!(!doc.contains("Pass Rate"));
    assert!(!doc.contains("Recent Failures"));
    assert_eq!(cells(row_line(&doc, "Pending")), vec!["Pending", "2"]);
}

fn issue(id: &str, title: &str, kind: &str, status: &str) -> IssueLine {
    IssueLine { id: id.to_string(), title: title.to_string(), kind: kind.to_string(), status: status.to_string() }
}

#[test]
fn open_issues_document_sections() {
    let ncrs = vec![issue("NCR@1", "Burr on the flange of the main housing", "minor", "open")];
    let tests = vec![issue("TEST@2", "Burst", "verification", "")];
    let doc = open_issues_document(&ncrs, &vec![], &tests);
    assert!(doc.starts_with("# Open Issues Report\n\n## Summary\n\n"));
    assert_eq!(cells(row_line(&doc, "Open NCRs")), vec!["Open NCRs", "1"]);
    assert_eq!(cells(row_line(&doc, "Open CAPAs")), vec!["Open CAPAs", "0"]);
    assert_eq!(cells(row_line(&doc, "Failed Tests")), vec!["Failed Tests", "1"]);
    assert_eq!(cells(row_line(&doc, "NCR@1")), vec!["NCR@1", "Burr on the flange of the m...", "minor", "open"]);
    assert_eq!(cells(row_line(&doc, "TEST@2")), vec!["TEST@2", "Burst", "verification"]);
    assert!(!doc.contains("## Open CAPAs"));
}
