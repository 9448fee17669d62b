use tdt::args::OutputFormat;
use tdt::capa::{
    can_use_cache, capa_matches, capa_sort_key, check_verifiable, effectiveness_result, verify_capa, CapaRecord,
    CapaStatusFilter, CapaSummary, CapaTypeFilter, ListArgs, ListColumn, VerifyError, VerifyResult,
};
use tdt::common::Timestamp;
use tdt::entities::{CapaStatus, CapaType, EffectivenessResult};
use tdt::listing::{stable_sort_order, SortKey};

fn record(status: CapaStatus) -> CapaRecord {
    CapaRecord { capa_status: status, effectiveness: None, entity_revision: 3 }
}

#[test]
fn effective_check_closes_the_capa() {
    let mut c = record(CapaStatus::Implementation);
    assert_eq!(verify_capa(&mut c, VerifyResult::Effective, Some("audit ok".into()), 738_200), Ok(()));
    assert_eq!(c.capa_status, CapaStatus::Closed);
    assert_eq!(c.entity_revision, 4);
    let e = c.effectiveness.as_ref().unwrap();
    assert!(e.verified);
    assert_eq!(e.verified_date, Some(738_200));
    assert_eq!(e.result, Some(EffectivenessResult::Effective));
    assert_eq!(e.evidence, Some("audit ok".to_string()));
    assert_eq!(verify_capa(&mut c, VerifyResult::Partial, None, 738_201), Err(VerifyError::AlreadyClosed));
    assert_eq!(c.entity_revision, 4);
}

#[test]
fn partial_check_leaves_the_capa_in_verification() {
    let mut c = record(CapaStatus::Verification);
    assert_eq!(verify_capa(&mut c, VerifyResult::Partial, None, 1), Ok(()));
    assert_eq!(c.capa_status, CapaStatus::Verification);
    assert_eq!(c.effectiveness.as_ref().unwrap().result, Some(EffectivenessResult::PartiallyEffective));
    assert_eq!(verify_capa(&mut c, VerifyResult::Ineffective, None, 2), Ok(()));
    assert_eq!(c.effectiveness.as_ref().unwrap().result, Some(EffectivenessResult::Ineffective));
    assert_eq!(c.entity_revision, 5);
}

#[test]
fn early_capas_cannot_be_verified() {
    let mut c = record(CapaStatus::Initiation);
    assert_eq!(verify_capa(&mut c, VerifyResult::Effective, None, 1), Err(VerifyError::NotImplemented(CapaStatus::Initiation)));
    assert_eq!(c.capa_status, CapaStatus::Initiation);
    assert!(c.effectiveness.is_none());
    assert_eq!(check_verifiable(CapaStatus::Investigation), Err(VerifyError::NotImplemented(CapaStatus::Investigation)));
    assert_eq!(check_verifiable(CapaStatus::Implementation), Ok(()));
}

#[test]
fn cli_results_map_to_recorded_results() {
    assert_eq!(effectiveness_result(VerifyResult::Partial), EffectivenessResult::PartiallyEffective);
}

fn args() -> ListArgs {
    ListArgs {
        kind: CapaTypeFilter::All,
        capa_status: CapaStatusFilter::All,
        overdue: false,
        open: false,
        search: None,
        author: None,
        recent: false,
        columns: vec![ListColumn::Id],
        sort: ListColumn::Created,
        reverse: false,
        limit: None,
        count: false,
    }
}

fn summary(status: CapaStatus, target: Option<i32>) -> CapaSummary {
    CapaSummary {
        id: "CAPA-1".into(),
        title: "Improve Bore Machining".into(),
        author: "Sam".into(),
        capa_type: CapaType::Corrective,
        capa_status: status,
        problem_statement: Some("Recurring out-of-spec bores".into()),
        capa_number: Some("CAPA-2024-7".into()),
        target_date: target,
        created: Timestamp { secs: 0, nanos: 0 },
    }
}

#[test]
fn overdue_and_open_filters() {
    let now = Timestamp { secs: 0, nanos: 0 };
    let overdue = ListArgs { overdue: true, ..args() };
    assert!(capa_matches(&overdue, &summary(CapaStatus::Implementation, Some(100)), 200, now));
    assert!(!capa_matches(&overdue, &summary(CapaStatus::Closed, Some(100)), 200, now));
    assert!(!capa_matches(&overdue, &summary(CapaStatus::Implementation, None), 200, now));
    let open = ListArgs { open: true, ..args() };
    assert!(!capa_matches(&open, &summary(CapaStatus::Closed, None), 200, now));
}

#[test]
fn search_looks_in_problem_and_number() {
    let now = Timestamp { secs: 0, nanos: 0 };
    let by_problem = ListArgs { search: Some("OUT-OF-SPEC".into()), ..args() };
    assert!(capa_matches(&by_problem, &summary(CapaStatus::Initiation, None), 0, now));
    let by_number = ListArgs { search: Some("2024-7".into()), ..args() };
    assert!(capa_matches(&by_number, &summary(CapaStatus::Initiation, None), 0, now));
    let miss = ListArgs { search: Some("weld".into()), ..args() };
    assert!(!capa_matches(&miss, &summary(CapaStatus::Initiation, None), 0, now));
    let preventive = ListArgs { kind: CapaTypeFilter::Preventive, ..args() };
    assert!(!capa_matches(&preventive, &summary(CapaStatus::Initiation, None), 0, now));
}

#[test]
fn cache_only_without_file_filters() {
    assert!(can_use_cache(&args(), OutputFormat::Tsv));
    assert!(!can_use_cache(&args(), OutputFormat::Json));
    assert!(!can_use_cache(&ListArgs { recent: true, ..args() }, OutputFormat::Tsv));
}

#[test]
fn statuses_sort_by_debug_name() {
    let keys: Vec<SortKey> = [CapaStatus::Verification, CapaStatus::Closed, CapaStatus::Initiation]
        .iter()
        .map(|s| capa_sort_key(ListColumn::Status, &summary(*s, None)))
        .collect();
    assert_eq!(stable_sort_order(&keys, false), vec![1, 2, 0]);
}
