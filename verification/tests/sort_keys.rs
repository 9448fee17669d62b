use tdt::args::OutputFormat;
use tdt::assembly::{assembly_matches, assembly_sort_key, AssemblySummary};
use tdt::common::{first_stem_match, Timestamp};
use tdt::ctrl::{control_sort_key, ControlSummary, SortField};
use tdt::entities::{ControlType, FeatureType, LotStatus, NcrSeverity, NcrStatus, NcrType, ProcessType, QuoteStatus, Status};
use tdt::feat::{feature_sort_key, FeatureSummary};
use tdt::listing::{stable_sort_order, SortKey};
use tdt::lot::{lot_sort_key, LotSummary};
use tdt::ncr::{ncr_can_use_cache, ncr_sort_key, NcrStatusFilter, NcrSummary, NcrTypeFilter, SeverityFilter};
use tdt::proc::{process_sort_key, ProcessSummary};
use tdt::quote::{quote_sort_key, QuoteSummary};

fn at(secs: i64) -> Timestamp {
    Timestamp { secs, nanos: 0 }
}

fn text_of(k: &SortKey) -> String {
    match k {
        SortKey::Text(v) => v.iter().collect(),
        SortKey::Num(n) => format!("#{}", n),
    }
}

#[test]
fn process_keys_use_debug_names_and_missing_operations_sort_first() {
    let p = |id: &str, kind: ProcessType, op: Option<&str>| ProcessSummary {
        id: id.into(),
        title: "P".into(),
        author: "A".into(),
        process_type: kind,
        operation_number: op.map(|s| s.to_string()),
        status: Status::Draft,
        description: None,
        created: at(0),
    };
    let ps = vec![p("P1", ProcessType::Machining, Some("OP-20")), p("P2", ProcessType::Assembly, None), p("P3", ProcessType::Inspection, Some("OP-10"))];
    assert_eq!(text_of(&process_sort_key(tdt::proc::ListColumn::ProcessType, &ps[0])), "Machining");
    assert_eq!(text_of(&process_sort_key(tdt::proc::ListColumn::Status, &ps[0])), "Draft");
    let keys: Vec<SortKey> = ps.iter().map(|x| process_sort_key(tdt::proc::ListColumn::Operation, x)).collect();
    assert_eq!(stable_sort_order(&keys, false), vec![1, 2, 0]);
}

#[test]
fn feature_and_control_keys() {
    let f = FeatureSummary {
        id: "FEAT-1".into(),
        title: "Bore".into(),
        description: None,
        author: "Lee".into(),
        feature_type: FeatureType::Internal,
        component: "CMP-1".into(),
        status: Status::Review,
        created: at(7),
    };
    assert_eq!(text_of(&feature_sort_key(tdt::feat::ListColumn::FeatureType, &f)), "Internal");
    assert_eq!(text_of(&feature_sort_key(tdt::feat::ListColumn::Description, &f)), "");
    assert_eq!(text_of(&feature_sort_key(tdt::feat::ListColumn::Component, &f)), "CMP-1");
    let c = ControlSummary {
        title: "Bore check".into(),
        description: None,
        control_type: ControlType::Spc,
        status: Status::Approved,
        process: None,
        characteristic_name: "Bore".into(),
        critical: false,
        created: at(3),
    };
    assert_eq!(text_of(&control_sort_key(SortField::Type, &c)), "Spc");
    assert_eq!(text_of(&control_sort_key(SortField::Status, &c)), "Approved");
    assert_eq!(text_of(&control_sort_key(SortField::Created, &c)), "#3000000000");
}

fn ncr(id: &str, severity: NcrSeverity, status: NcrStatus) -> NcrSummary {
    NcrSummary {
        id: id.into(),
        title: "N".into(),
        author: "K".into(),
        ncr_type: NcrType::Internal,
        severity,
        ncr_status: status,
        description: None,
        ncr_number: None,
        created: at(0),
    }
}

#[test]
fn ncr_keys_and_cache() {
    let ns = vec![ncr("N1", NcrSeverity::Minor, NcrStatus::Open), ncr("N2", NcrSeverity::Critical, NcrStatus::Closed), ncr("N3", NcrSeverity::Major, NcrStatus::Open)];
    let keys: Vec<SortKey> = ns.iter().map(|n| ncr_sort_key(tdt::ncr::ListColumn::Severity, n)).collect();
    // Debug names in text order: Critical, Major, Minor.
    assert_eq!(stable_sort_order(&keys, false), vec![1, 2, 0]);
    assert_eq!(text_of(&ncr_sort_key(tdt::ncr::ListColumn::NcrType, &ns[0])), "Internal");
    let args = tdt::ncr::ListArgs {
        kind: NcrTypeFilter::All,
        severity: SeverityFilter::All,
        ncr_status: NcrStatusFilter::All,
        author: Some("k".into()),
        recent: false,
        search: None,
        open: false,
        columns: vec![],
        sort: tdt::ncr::ListColumn::Id,
        reverse: false,
        limit: None,
        count: false,
    };
    assert!(ncr_can_use_cache(&args, OutputFormat::Tsv));
    assert!(!ncr_can_use_cache(&args, OutputFormat::Yaml));
    assert!(!ncr_can_use_cache(&tdt::ncr::ListArgs { open: true, ..args }, OutputFormat::Tsv));
}

#[test]
fn assembly_filters_and_keys() {
    let a = AssemblySummary {
        id: "ASM-1".into(),
        part_number: "PN-100".into(),
        title: "Actuator".into(),
        description: Some("Linear stage".into()),
        author: "Ann".into(),
        status: Status::Released,
        created: at(5),
    };
    let args = tdt::assembly::ListArgs {
        status: tdt::assembly::StatusFilter::All,
        search: Some("STAGE".into()),
        author: None,
        recent: false,
        columns: vec![],
        sort: tdt::assembly::ListColumn::Title,
        reverse: false,
        limit: None,
        count: false,
    };
    assert!(assembly_matches(&args, &a));
    assert!(!assembly_matches(&tdt::assembly::ListArgs { status: tdt::assembly::StatusFilter::Draft, ..args }, &a));
    assert_eq!(text_of(&assembly_sort_key(tdt::assembly::ListColumn::PartNumber, &a)), "PN-100");
    assert_eq!(text_of(&assembly_sort_key(tdt::assembly::ListColumn::Status, &a)), "Released");
}

#[test]
fn lots_without_quantity_sort_first() {
    let lot = |q: Option<u32>| LotSummary {
        id: "LOT".into(),
        title: "L".into(),
        author: "A".into(),
        lot_number: None,
        quantity: q,
        lot_status: LotStatus::OnHold,
        product: None,
        created: at(0),
    };
    let lots = vec![lot(Some(5)), lot(None), lot(Some(0))];
    let keys: Vec<SortKey> = lots.iter().map(|l| lot_sort_key(tdt::lot::ListColumn::Quantity, l)).collect();
    assert_eq!(stable_sort_order(&keys, false), vec![1, 2, 0]);
    assert_eq!(text_of(&lot_sort_key(tdt::lot::ListColumn::LotStatus, &lots[0])), "OnHold");
}

#[test]
fn quote_keys_leave_prices_out() {
    let q = QuoteSummary {
        id: "QUOT-1".into(),
        title: "Seals".into(),
        description: None,
        author: "A".into(),
        supplier: "SUP-1".into(),
        component: None,
        assembly: None,
        quote_status: QuoteStatus::Received,
        status: Status::Draft,
        created: at(0),
    };
    assert!(quote_sort_key(tdt::quote::ListColumn::Price, &q).is_none());
    assert_eq!(text_of(&quote_sort_key(tdt::quote::ListColumn::QuoteStatus, &q).unwrap()), "Received");
    assert_eq!(text_of(&quote_sort_key(tdt::quote::ListColumn::Component, &q).unwrap()), "");
}

#[test]
fn entity_files_are_found_by_stem() {
    let stems: Vec<String> = vec!["REQ-01AAA".into(), "CMP-01BBB".into(), "CMP-01BBBX".into()];
    assert_eq!(first_stem_match(&stems, "01BBB"), Some(1));
    assert_eq!(first_stem_match(&stems, "CMP"), Some(1));
    assert_eq!(first_stem_match(&stems, "ZZZ"), None);
}
