use tdt::common::Timestamp;
use tdt::entities::{CapaStatus, NcrStatus, RiskLevel, RiskType, Verdict};
use tdt::report::bom::{bom_lines, find_report_assembly, AssemblyNode, BomEntry, BomItem};
use tdt::report::fmea::{fmea_report, FmeaArgs, RiskSummary};
use tdt::report::open_issues::open_issues;
use tdt::report::test_status::test_status_summary;
use tdt::report::{latest_result, TestRun};

fn run(id: &str, test: &str, verdict: Verdict, secs: i64) -> TestRun {
    TestRun { id: id.into(), test_id: test.into(), verdict, executed: Timestamp { secs, nanos: 0 } }
}

fn ids(v: &[&str]) -> Vec<String> {
    v.iter().map(|s| s.to_string()).collect()
}

#[test]
fn latest_result_is_the_first_of_the_latest() {
    let runs = vec![
        run("R1", "T1", Verdict::Fail, 10),
        run("R2", "T1", Verdict::Pass, 30),
        run("R3", "T1", Verdict::Fail, 30),
        run("R4", "T2", Verdict::Pass, 5),
    ];
    assert_eq!(latest_result(&runs, "T1"), Some(1));
    assert_eq!(latest_result(&runs, "T2"), Some(3));
    assert_eq!(latest_result(&runs, "T3"), None);
}

#[test]
fn test_status_counts() {
    let tests = ids(&["T1", "T2", "T3", "T4"]);
    let runs = vec![
        run("R1", "T1", Verdict::Pass, 10),
        run("R2", "T2", Verdict::Fail, 20),
        run("R3", "T3", Verdict::Fail, 40),
        run("R4", "T1", Verdict::Conditional, 50),
    ];
    let s = test_status_summary(&tests, &runs);
    assert_eq!((s.executed, s.pending, s.passed, s.failed, s.conditional), (3, 1, 0, 2, 1));
    assert_eq!(s.recent_failures, vec![(2, 2), (1, 1)]);
}

#[test]
fn recent_failures_are_cut_to_ten() {
    let tests: Vec<String> = (0..12).map(|i| format!("T{}", i)).collect();
    let runs: Vec<TestRun> = (0..12).map(|i| run(&format!("R{}", i), &format!("T{}", i), Verdict::Fail, i as i64)).collect();
    let s = test_status_summary(&tests, &runs);
    assert_eq!(s.failed, 12);
    assert_eq!(s.recent_failures.len(), 10);
    assert_eq!(s.recent_failures[0], (11, 11));
    assert_eq!(s.recent_failures[9], (2, 2));
}

fn risk(t: RiskType, rpn: Option<u16>, level: Option<RiskLevel>, mitigations: usize) -> RiskSummary {
    RiskSummary { risk_type: t, rpn, risk_level: level, mitigations }
}

#[test]
fn fmea_orders_by_rpn_and_sums() {
    let risks = vec![
        risk(RiskType::Design, Some(100), Some(RiskLevel::Medium), 1),
        risk(RiskType::Process, Some(300), Some(RiskLevel::Critical), 0),
        risk(RiskType::Design, None, None, 0),
        risk(RiskType::Design, Some(300), Some(RiskLevel::High), 2),
    ];
    let all = FmeaArgs { output: None, min_rpn: 0, design_only: false, process_only: false };
    let r = fmea_report(&all, &risks);
    assert_eq!(r.rows, vec![1, 3, 0, 2]);
    assert_eq!(r.total_rpn, 700);
    assert_eq!((r.critical, r.high, r.medium, r.low, r.unmitigated), (1, 1, 1, 0, 2));
    let design = FmeaArgs { design_only: true, min_rpn: 50, ..all };
    let d = fmea_report(&design, &risks);
    assert_eq!(d.rows, vec![3, 0]);
    assert_eq!(d.total_rpn, 400);
    let both = FmeaArgs { design_only: true, process_only: true, output: None, min_rpn: 0 };
    assert!(fmea_report(&both, &risks).rows.is_empty());
}

#[test]
fn open_issues_report() {
    let ncrs = vec![NcrStatus::Open, NcrStatus::Closed, NcrStatus::Disposition];
    let capas = vec![CapaStatus::Closed, CapaStatus::Verification];
    let tests = ids(&["T1", "T2"]);
    let runs = vec![run("R1", "T1", Verdict::Fail, 1), run("R2", "T1", Verdict::Pass, 2), run("R3", "T2", Verdict::Fail, 1)];
    let o = open_issues(&ncrs, &capas, &tests, &runs);
    assert_eq!(o.ncrs, vec![0, 2]);
    assert_eq!(o.capas, vec![1]);
    assert_eq!(o.failed_tests, vec![1]);
}

fn item(id: &str, qty: u32) -> BomItem {
    BomItem { component_id: id.into(), quantity: qty }
}

#[test]
fn bom_tree_expands_subassemblies_and_cuts_cycles() {
    let asms = vec![
        AssemblyNode { id: "ASM-TOP".into(), bom: vec![item("CMP-1", 2), item("ASM-SUB", 1), item("CMP-X", 3)] },
        AssemblyNode { id: "ASM-SUB".into(), bom: vec![item("CMP-2", 4), item("ASM-TOP", 1)] },
    ];
    let comps = ids(&["CMP-1", "CMP-2"]);
    let lines = bom_lines(&asms, &comps, 0);
    let shape: Vec<(usize, bool, BomEntry)> = lines.iter().map(|l| (l.depth, l.last, l.entry)).collect();
    assert_eq!(shape, vec![
        (0, false, BomEntry::Component(0)),
        (0, false, BomEntry::Assembly(1)),
        (1, false, BomEntry::Component(1)),
        (1, true, BomEntry::Cycle(0)),
        (0, true, BomEntry::Missing),
    ]);
    assert_eq!(lines[2].quantity, 4);
    assert_eq!(lines[4].component_id, "CMP-X");
}

#[test]
fn report_assembly_found_by_prefix() {
    let asms = vec![
        AssemblyNode { id: "ASM-01AB".into(), bom: vec![] },
        AssemblyNode { id: "ASM-02CD".into(), bom: vec![] },
    ];
    assert_eq!(find_report_assembly(&asms, "ASM-02"), Some(1));
    assert_eq!(find_report_assembly(&asms, "ASM"), Some(0));
    assert_eq!(find_report_assembly(&asms, "CMP"), None);
}
