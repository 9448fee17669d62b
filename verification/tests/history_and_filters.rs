use tdt::ctrl::{control_matches, ControlSummary, ControlTypeFilter, SortField};
use tdt::feat::{feature_matches, FeatureSummary, TypeFilter as FeatTypeFilter};
use tdt::mate::{mate_matches, MateSummary, TypeFilter as MateTypeFilter};
use tdt::ncr::{ncr_matches, NcrStatusFilter, NcrSummary, NcrTypeFilter, SeverityFilter};
use tdt::proc::{process_matches, ProcessSummary, ProcessTypeFilter};
use tdt::quote::{quote_matches, QuoteFilterIds, QuoteStatusFilter, QuoteSummary};
use tdt::args::{list_format, OutputFormat};
use tdt::assembly::{add_bom_item, assembly_list_order, remove_bom_items, BomLineItem};
use tdt::cmp::{choose_quote, clear_selected_quote, QuoteChoiceError};
use tdt::common::Timestamp;
use tdt::entities::{ControlType, FeatureType, MateType, NcrSeverity, NcrStatus, NcrType, ProcessType, QuoteStatus, Status};
use tdt::history::{file_declares_id, git_log_args, history_outcome, history_search_dirs, HistoryArgs, HistoryOutcome};
use tdt::listing::SortKey;

#[test]
fn git_log_arguments() {
    let args = HistoryArgs { id: "REQ@1".into(), limit: Some(5), since: Some("2024-01-01".into()), until: None, full: false, patch: true };
    assert_eq!(git_log_args(&args, "requirements/inputs/REQ-1.tdt.yaml"), vec![
        "log", "--oneline", "--follow", "-5", "--since=2024-01-01", "-p", "--", "requirements/inputs/REQ-1.tdt.yaml",
    ]);
    let full = HistoryArgs { id: "X".into(), limit: None, since: None, until: Some("2024-02-01".into()), full: true, patch: false };
    assert_eq!(git_log_args(&full, "f"), vec!["log", "--follow", "--until=2024-02-01", "--", "f"]);
}

#[test]
fn history_looks_in_the_entity_folder() {
    assert_eq!(history_search_dirs("REQ-01AB"), vec!["requirements"]);
    assert_eq!(history_search_dirs("RSLT-9"), vec!["verification"]);
    assert!(history_search_dirs("LOT-1").is_empty());
    assert!(file_declares_id("id: REQ-1\ntitle: x", "REQ-1"));
    assert!(file_declares_id("id: \"REQ-1\"", "REQ-1"));
    assert!(!file_declares_id("parent: REQ-1", "REQ-1"));
}

#[test]
fn git_outcomes() {
    assert!(matches!(history_outcome(true, "abc123 first\n".into(), String::new()), HistoryOutcome::Log(s) if s == "abc123 first\n"));
    assert!(matches!(history_outcome(true, " \n".into(), String::new()), HistoryOutcome::NoHistory));
    assert!(matches!(history_outcome(false, String::new(), "fatal: your current branch 'main' does not have any commits yet".into()), HistoryOutcome::NoCommits));
    assert!(matches!(history_outcome(false, String::new(), "fatal: bad".into()), HistoryOutcome::GitError(s) if s == "fatal: bad"));
}

#[test]
fn formats() {
    assert_eq!(list_format(OutputFormat::Auto), OutputFormat::Tsv);
    assert_eq!(list_format(OutputFormat::Csv), OutputFormat::Csv);
    assert_eq!(OutputFormat::default(), OutputFormat::Auto);
}

fn line(id: &str, qty: u32) -> BomLineItem {
    BomLineItem { component_id: id.into(), quantity: qty, reference_designators: vec![], notes: None }
}

#[test]
fn adding_a_component_twice_merges_the_line() {
    let mut bom = vec![line("CMP-1", 2)];
    assert!(add_bom_item(&mut bom, "CMP-1", 3, &vec!["U1".into()], &Some("rev B".into())));
    assert_eq!(bom.len(), 1);
    assert_eq!(bom[0].quantity, 5);
    assert_eq!(bom[0].reference_designators, vec!["U1".to_string()]);
    assert_eq!(bom[0].notes, Some("rev B".to_string()));
    assert!(!add_bom_item(&mut bom, "CMP-2", 1, &vec![], &None));
    assert_eq!(bom.len(), 2);
    assert_eq!(bom[1].quantity, 1);
}

#[test]
fn removing_components_by_substring() {
    let mut bom = vec![line("CMP-AAA", 1), line("CMP-BBB", 1), line("CMP-AAB", 1)];
    assert!(remove_bom_items(&mut bom, "AA"));
    assert_eq!(bom.len(), 1);
    assert_eq!(bom[0].component_id, "CMP-BBB");
    assert!(!remove_bom_items(&mut bom, "ZZZ"));
    assert_eq!(bom.len(), 1);
}

#[test]
fn recent_assemblies_are_newest_first() {
    let keys = vec![SortKey::text("b"), SortKey::text("a"), SortKey::text("c")];
    let created = vec![SortKey::num(3), SortKey::num(1), SortKey::num(2)];
    assert_eq!(assembly_list_order(&keys, &created, false, false, None), vec![1, 0, 2]);
    assert_eq!(assembly_list_order(&keys, &created, false, true, None), vec![0, 2, 1]);
    assert_eq!(assembly_list_order(&keys, &created, false, true, Some(1)), vec![0]);
}

#[test]
fn selecting_a_quote() {
    let ids = vec!["QUOT-01".to_string(), "QUOT-02".to_string()];
    let comps = vec![Some("CMP-ABC".to_string()), None];
    assert_eq!(choose_quote(&ids, &comps, "QUOT-01", "CMP-ABC"), Ok(0));
    assert_eq!(choose_quote(&ids, &comps, "QUOT-01", "CMP"), Ok(0));
    assert_eq!(choose_quote(&ids, &comps, "QUOT-01", "CMP-XYZ"), Err(QuoteChoiceError::OtherComponent));
    assert_eq!(choose_quote(&ids, &comps, "QUOT-02", "CMP-ABC"), Err(QuoteChoiceError::NotLinked));
    assert_eq!(choose_quote(&ids, &comps, "QUOT-9", "CMP-ABC"), Err(QuoteChoiceError::QuoteNotFound));
    let mut selected = Some("QUOT-01".to_string());
    assert_eq!(clear_selected_quote(&mut selected), Some("QUOT-01".to_string()));
    assert_eq!(selected, None);
}

#[test]
fn ncr_filters() {
    let now = Timestamp { secs: 100_000_000, nanos: 0 };
    let n = NcrSummary {
        id: "NCR-1".into(),
        title: "Bore out of spec".into(),
        author: "Kim".into(),
        ncr_type: NcrType::Supplier,
        severity: NcrSeverity::Major,
        ncr_status: NcrStatus::Containment,
        description: None,
        ncr_number: Some("NCR-2024-3".into()),
        created: now,
    };
    let args = tdt::ncr::ListArgs {
        kind: NcrTypeFilter::Supplier,
        severity: SeverityFilter::Major,
        ncr_status: NcrStatusFilter::All,
        author: None,
        recent: true,
        search: Some("2024-3".into()),
        open: true,
        columns: vec![tdt::ncr::ListColumn::Id],
        sort: tdt::ncr::ListColumn::Created,
        reverse: false,
        limit: None,
        count: false,
    };
    assert!(ncr_matches(&args, &n, now));
    let internal = tdt::ncr::ListArgs { kind: NcrTypeFilter::Internal, ..args };
    assert!(!ncr_matches(&internal, &n, now));
}

#[test]
fn process_feature_control_mate_and_quote_filters() {
    let now = Timestamp { secs: 10 * 86_400, nanos: 0 };
    let p = ProcessSummary {
        id: "PROC-1".into(),
        title: "CNC Rough".into(),
        author: "Lee".into(),
        process_type: ProcessType::Machining,
        operation_number: Some("OP-010".into()),
        status: Status::Draft,
        description: Some("rough machining of housing".into()),
        created: now,
    };
    let pargs = tdt::proc::ListArgs {
        kind: ProcessTypeFilter::Machining,
        status: tdt::proc::StatusFilter::Draft,
        author: Some("LEE".into()),
        recent: false,
        search: Some("HOUSING".into()),
        sort: tdt::proc::ListColumn::Title,
        reverse: false,
        columns: vec![],
        limit: None,
        count: false,
    };
    assert!(process_matches(&pargs, &p, now));

    let f = FeatureSummary {
        id: "FEAT-1".into(),
        title: "Bore".into(),
        description: None,
        author: "Lee".into(),
        feature_type: FeatureType::Internal,
        component: "CMP-ABC".into(),
        status: Status::Review,
        created: Timestamp { secs: 5 * 86_400, nanos: 0 },
    };
    let fargs = tdt::feat::ListArgs {
        component: None,
        feature_type: FeatTypeFilter::Internal,
        status: tdt::feat::StatusFilter::All,
        search: None,
        author: None,
        recent: Some(3),
        columns: vec![],
        sort: tdt::feat::ListColumn::Title,
        reverse: false,
        limit: None,
        count: false,
    };
    assert!(!feature_matches(&fargs, Some("CMP-ABC"), &f, now));
    let fargs6 = tdt::feat::ListArgs { recent: Some(6), ..fargs };
    assert!(feature_matches(&fargs6, Some("CMP-ABC"), &f, now));
    assert!(!feature_matches(&fargs6, Some("CMP-XYZ"), &f, now));

    let c = ControlSummary {
        title: "Bore check".into(),
        description: None,
        control_type: ControlType::Spc,
        status: Status::Approved,
        process: Some("PROC-1ABC".into()),
        characteristic_name: "Bore Diameter".into(),
        critical: true,
        created: now,
    };
    let cargs = tdt::ctrl::ListArgs {
        kind: ControlTypeFilter::Spc,
        status: tdt::ctrl::StatusFilter::All,
        process: None,
        critical: true,
        search: Some("diameter".into()),
        sort: SortField::Title,
        reverse: false,
        limit: None,
        count: false,
    };
    assert!(control_matches(&cargs, Some("PROC-1"), &c, ));
    assert!(!control_matches(&cargs, Some("PROC-2"), &c));

    let m = MateSummary { title: "Pin fit".into(), description: None, mate_type: MateType::ClearanceFit, status: Status::Draft };
    let margs = tdt::mate::ListArgs {
        mate_type: MateTypeFilter::ClearanceFit,
        status: tdt::mate::StatusFilter::All,
        search: Some("pin".into()),
        limit: None,
        count: false,
        format: OutputFormat::Auto,
    };
    assert!(mate_matches(&margs, &m));

    let q = QuoteSummary {
        id: "QUOT-1".into(),
        title: "Housing quote".into(),
        description: None,
        author: "Ann".into(),
        supplier: "SUP-ACME".into(),
        component: Some("CMP-ABC".into()),
        assembly: None,
        quote_status: QuoteStatus::Received,
        status: Status::Draft,
        created: now,
    };
    let qargs = tdt::quote::ListArgs {
        quote_status: QuoteStatusFilter::Received,
        status: tdt::quote::StatusFilter::All,
        component: None,
        assembly: None,
        supplier: None,
        search: None,
        author: None,
        recent: None,
        columns: vec![],
        sort: tdt::quote::ListColumn::Title,
        reverse: false,
        limit: None,
        count: false,
    };
    let with_supplier = QuoteFilterIds { component: Some("CMP-ABC".into()), assembly: None, supplier: Some("ACME".into()) };
    assert!(quote_matches(&qargs, &with_supplier, &q, now));
    let with_assembly = QuoteFilterIds { component: None, assembly: Some("ASM".into()), supplier: None };
    assert!(!quote_matches(&qargs, &with_assembly, &q, now));
}
