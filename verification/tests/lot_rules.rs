use tdt::common::Timestamp;
use tdt::entities::{ExecutionStatus, LotStatus};
use tdt::lot::{
    apply_step_update, check_completion, complete_lot, lot_matches, select_step, step_update_values, CliExecutionStatus,
    CompleteError, ExecutionStep, ListArgs, ListColumn, LotRecord, LotStatusFilter, LotSummary, StepArgs, StepError,
    StepTarget,
};

fn step(process: Option<&str>, status: ExecutionStatus) -> ExecutionStep {
    ExecutionStep { process: process.map(|s| s.to_string()), status, operator: None, completed_date: None, notes: None }
}

fn lot(status: LotStatus, steps: Vec<ExecutionStep>) -> LotRecord {
    LotRecord { lot_status: status, execution: steps, completion_date: None, entity_revision: 1 }
}

#[test]
fn first_open_step_is_selected_by_default() {
    let steps = vec![step(Some("PROC-A"), ExecutionStatus::Completed), step(Some("PROC-B"), ExecutionStatus::Pending)];
    assert_eq!(select_step(&steps, None), Ok(1));
}

#[test]
fn step_selected_by_process_or_number() {
    let steps = vec![step(Some("PROC-A1"), ExecutionStatus::Pending), step(Some("PROC-B2"), ExecutionStatus::Pending)];
    let by_process = StepTarget { raw: "PROC@2".into(), resolved: "PROC-B2".into() };
    assert_eq!(select_step(&steps, Some(&by_process)), Ok(1));
    let by_number = StepTarget { raw: "1".into(), resolved: "1".into() };
    assert_eq!(select_step(&steps, Some(&by_number)), Ok(0));
    let too_far = StepTarget { raw: "5".into(), resolved: "5".into() };
    assert_eq!(select_step(&steps, Some(&too_far)), Err(StepError::OutOfRange { step: 5, steps: 2 }));
}

#[test]
fn step_selection_errors() {
    assert_eq!(select_step(&vec![], None), Err(StepError::NoSteps));
    let done = vec![step(None, ExecutionStatus::Completed)];
    assert_eq!(select_step(&done, None), Err(StepError::NoPendingSteps));
}

#[test]
fn step_update_defaults() {
    let args = StepArgs { lot: "LOT@1".into(), process: None, status: None, operator: None, notes: Some("ok".into()), interactive: false };
    let (status, operator, notes) = step_update_values(&args, "jane");
    assert_eq!(status, ExecutionStatus::Completed);
    assert_eq!(operator, "jane");
    assert_eq!(notes, Some("ok".to_string()));
    let skip = StepArgs { status: Some(CliExecutionStatus::Skipped), operator: Some("bob".into()), ..args };
    let (status, operator, _) = step_update_values(&skip, "jane");
    assert_eq!(status, ExecutionStatus::Skipped);
    assert_eq!(operator, "bob");
}

#[test]
fn step_update_records_completion_day_and_revision() {
    let mut l = lot(LotStatus::InProgress, vec![step(Some("PROC-A"), ExecutionStatus::Pending)]);
    apply_step_update(&mut l, 0, ExecutionStatus::Completed, "jane".into(), None, 738_000);
    assert_eq!(l.execution[0].status, ExecutionStatus::Completed);
    assert_eq!(l.execution[0].completed_date, Some(738_000));
    assert_eq!(l.execution[0].operator, Some("jane".to_string()));
    assert_eq!(l.entity_revision, 2);
}

#[test]
fn completion_lists_unfinished_steps() {
    let l = lot(LotStatus::InProgress, vec![
        step(None, ExecutionStatus::Completed),
        step(None, ExecutionStatus::Pending),
        step(None, ExecutionStatus::Skipped),
        step(None, ExecutionStatus::InProgress),
    ]);
    assert_eq!(check_completion(&l), Ok(vec![1, 3]));
}

#[test]
fn completed_lot_cannot_be_completed_again() {
    let mut l = lot(LotStatus::OnHold, vec![]);
    assert_eq!(check_completion(&l), Ok(vec![]));
    complete_lot(&mut l, 738_100);
    assert_eq!(l.lot_status, LotStatus::Completed);
    assert_eq!(l.completion_date, Some(738_100));
    assert_eq!(l.entity_revision, 2);
    assert_eq!(check_completion(&l), Err(CompleteError::AlreadyCompleted));
    let scrapped = lot(LotStatus::Scrapped, vec![]);
    assert_eq!(check_completion(&scrapped), Err(CompleteError::Scrapped));
}

#[test]
fn lot_list_filters() {
    let now = Timestamp { secs: 1_700_000_000, nanos: 0 };
    let summary = LotSummary {
        id: "LOT-1".into(),
        title: "Housing batch".into(),
        author: "Jane Doe".into(),
        lot_number: Some("L-2024-001".into()),
        quantity: Some(50),
        lot_status: LotStatus::InProgress,
        product: Some("ASM-XYZ".into()),
        created: Timestamp { secs: 1_700_000_000 - 86_400, nanos: 0 },
    };
    let args = ListArgs {
        status: LotStatusFilter::All,
        product: Some("ASM".into()),
        author: Some("jane".into()),
        recent: true,
        search: Some("l-2024".into()),
        active: true,
        columns: vec![ListColumn::Id],
        sort: ListColumn::Created,
        reverse: false,
        limit: None,
        count: false,
    };
    assert!(lot_matches(&args, &summary, now));
    let old = LotSummary { created: Timestamp { secs: 1_700_000_000 - 40 * 86_400, nanos: 0 }, ..summary };
    assert!(!lot_matches(&args, &old, now));
}
