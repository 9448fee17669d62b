//! Production lots (device history records): the lot and step states, which
//! process step an update applies to, how a step update and a completion
//! change a lot, and which lots a listing shows.

use vstd::prelude::*;
use crate::common::{first_where, is_recent, lemma_first_where, opt_view, parse_usize, parsed_usize, text_or_empty, time_key, within_recent_window, Timestamp};
use crate::entities::{ExecutionStatus, LotStatus};
use crate::listing::{SortKey, SortKeyView};
use crate::args::{is_full_record_format, OutputFormat};
use crate::assembly::{cuts_at, cuts_cleanly};
use crate::helpers::{csv_field, dash_rule, dashes, escape_csv, format_short_id, short_id_form, shown_or, text_or, truncate_str, truncated_form};
use crate::text::{chars_of, is_empty_text, join_strings, joined, push_char, decimal, decimal_text, pad_right, padded, append_text, concat_texts, contains_ignore_case, contains_ignoring_case, replace_all, replaced, str_contains, text_contains};

verus! {

/// CLI-friendly lot status enum
#[derive(Debug, Clone, Copy, PartialEq, Eq, Structural)]
pub enum CliLotStatus {
    InProgress,
    OnHold,
    Completed,
    Scrapped,
}

/// Lot status filter
#[derive(Debug, Clone, Copy, PartialEq, Eq, Structural)]
pub enum LotStatusFilter {
    InProgress,
    OnHold,
    Completed,
    Scrapped,
    All,
}

/// List column for display and sorting
#[derive(Debug, Clone, Copy, PartialEq, Eq, Structural)]
pub enum ListColumn {
    Id,
    Title,
    LotNumber,
    Quantity,
    LotStatus,
    Author,
    Created,
}

pub struct ListArgs {
    /// Filter by lot status
    pub status: LotStatusFilter,

    /// Filter by product (ASM or CMP ID)
    pub product: Option<String>,

    /// Filter by author
    pub author: Option<String>,

    /// Show only recent lots (last 30 days)
    pub recent: bool,

    /// Search in title and lot number
    pub search: Option<String>,

    /// Show only active lots (not completed or scrapped)
    pub active: bool,

    /// Columns to display
    pub columns: Vec<ListColumn>,

    /// Sort by column
    pub sort: ListColumn,

    /// Reverse sort order
    pub reverse: bool,

    /// Limit number of results
    pub limit: Option<usize>,

    /// Show only count
    pub count: bool,
}

pub struct ShowArgs {
    /// Lot ID or short ID (LOT@N)
    pub id: String,
}

pub struct EditArgs {
    /// Lot ID or short ID (LOT@N)
    pub id: String,
}

pub struct DeleteArgs {
    /// Lot ID or short ID (LOT@N)
    pub id: String,

    /// Force deletion even if other entities reference this one
    pub force: bool,

    /// Suppress output
    pub quiet: bool,
}

pub struct ArchiveArgs {
    /// Lot ID or short ID (LOT@N)
    pub id: String,

    /// Force archive even if other entities reference this one
    pub force: bool,

    /// Suppress output
    pub quiet: bool,
}

/// CLI-friendly execution status enum
#[derive(Debug, Clone, Copy, PartialEq, Eq, Structural)]
pub enum CliExecutionStatus {
    Pending,
    InProgress,
    Completed,
    Skipped,
}

pub struct StepArgs {
    /// Lot ID or short ID (LOT@N)
    pub lot: String,

    /// Process step to update (PROC ID or index)
    pub process: Option<String>,

    /// New status for the step
    pub status: Option<CliExecutionStatus>,

    /// Operator name (defaults to config author)
    pub operator: Option<String>,

    /// Notes about the step execution
    pub notes: Option<String>,

    /// Interactive mode (prompt for step details)
    pub interactive: bool,
}

pub struct CompleteArgs {
    /// Lot ID or short ID (LOT@N)
    pub lot: String,

    /// Skip confirmation prompt
    pub yes: bool,
}

impl CliLotStatus {
    /// The name this value is written as.
    pub open spec fn display_text(self) -> Seq<char> {
        match self {
            CliLotStatus::InProgress => "in_progress"@,
            CliLotStatus::OnHold => "on_hold"@,
            CliLotStatus::Completed => "completed"@,
            CliLotStatus::Scrapped => "scrapped"@,
        }
    }

    /// The name this value is written as.
    pub fn as_str(&self) -> (r: &'static str)
        ensures
            r@ == self.display_text(),
    {
        match self {
            CliLotStatus::InProgress => "in_progress",
            CliLotStatus::OnHold => "on_hold",
            CliLotStatus::Completed => "completed",
            CliLotStatus::Scrapped => "scrapped",
        }
    }
}

impl ListColumn {
    /// The name this value is written as.
    pub open spec fn display_text(self) -> Seq<char> {
        match self {
            ListColumn::Id => "id"@,
            ListColumn::Title => "title"@,
            ListColumn::LotNumber => "lot-number"@,
            ListColumn::Quantity => "quantity"@,
            ListColumn::LotStatus => "lot-status"@,
            ListColumn::Author => "author"@,
            ListColumn::Created => "created"@,
        }
    }

    /// The name this value is written as.
    pub fn as_str(&self) -> (r: &'static str)
        ensures
            r@ == self.display_text(),
    {
        match self {
            ListColumn::Id => "id",
            ListColumn::Title => "title",
            ListColumn::LotNumber => "lot-number",
            ListColumn::Quantity => "quantity",
            ListColumn::LotStatus => "lot-status",
            ListColumn::Author => "author",
            ListColumn::Created => "created",
        }
    }
}

impl From<CliLotStatus> for LotStatus {
    fn from(cli: CliLotStatus) -> (r: LotStatus) {
        match cli {
            CliLotStatus::InProgress => LotStatus::InProgress,
            CliLotStatus::OnHold => LotStatus::OnHold,
            CliLotStatus::Completed => LotStatus::Completed,
            CliLotStatus::Scrapped => LotStatus::Scrapped,
        }
    }
}

impl vstd::std_specs::convert::FromSpecImpl<CliLotStatus> for LotStatus {
    open spec fn obeys_from_spec() -> bool {
        true
    }

    open spec fn from_spec(cli: CliLotStatus) -> LotStatus {
        match cli {
            CliLotStatus::InProgress => LotStatus::InProgress,
            CliLotStatus::OnHold => LotStatus::OnHold,
            CliLotStatus::Completed => LotStatus::Completed,
            CliLotStatus::Scrapped => LotStatus::Scrapped,
        }
    }
}

impl From<CliExecutionStatus> for ExecutionStatus {
    fn from(cli: CliExecutionStatus) -> (r: ExecutionStatus) {
        match cli {
            CliExecutionStatus::Pending => ExecutionStatus::Pending,
            CliExecutionStatus::InProgress => ExecutionStatus::InProgress,
            CliExecutionStatus::Completed => ExecutionStatus::Completed,
            CliExecutionStatus::Skipped => ExecutionStatus::Skipped,
        }
    }
}

impl vstd::std_specs::convert::FromSpecImpl<CliExecutionStatus> for ExecutionStatus {
    open spec fn obeys_from_spec() -> bool {
        true
    }

    open spec fn from_spec(cli: CliExecutionStatus) -> ExecutionStatus {
        match cli {
            CliExecutionStatus::Pending => ExecutionStatus::Pending,
            CliExecutionStatus::InProgress => ExecutionStatus::InProgress,
            CliExecutionStatus::Completed => ExecutionStatus::Completed,
            CliExecutionStatus::Skipped => ExecutionStatus::Skipped,
        }
    }
}


/// One process step of a lot.
#[derive(Debug)]
pub struct ExecutionStep {
    /// The process (PROC identifier) this step runs, if linked.
    pub process: Option<String>,
    pub status: ExecutionStatus,
    pub operator: Option<String>,
    /// Day the step was completed (days since 1 January of year 1).
    pub completed_date: Option<i32>,
    pub notes: Option<String>,
}

/// Mathematical form of an [`ExecutionStep`].
pub struct StepView {
    pub process: Option<Seq<char>>,
    pub status: ExecutionStatus,
    pub operator: Option<Seq<char>>,
    pub completed_date: Option<i32>,
    pub notes: Option<Seq<char>>,
}

impl View for ExecutionStep {
    type V = StepView;

    open spec fn view(&self) -> StepView {
        StepView {
            process: opt_view(self.process),
            status: self.status,
            operator: opt_view(self.operator),
            completed_date: self.completed_date,
            notes: opt_view(self.notes),
        }
    }
}

/// The state of a lot that step updates and completion change.
#[derive(Debug)]
pub struct LotRecord {
    pub lot_status: LotStatus,
    pub execution: Vec<ExecutionStep>,
    /// Day the lot was completed (days since 1 January of year 1).
    pub completion_date: Option<i32>,
    pub entity_revision: u32,
}

/// Mathematical form of a [`LotRecord`].
pub struct LotView {
    pub lot_status: LotStatus,
    pub execution: Seq<StepView>,
    pub completion_date: Option<i32>,
    pub entity_revision: u32,
}

impl View for LotRecord {
    type V = LotView;

    open spec fn view(&self) -> LotView {
        LotView {
            lot_status: self.lot_status,
            execution: self.execution@.map_values(|s: ExecutionStep| s@),
            completion_date: self.completion_date,
            entity_revision: self.entity_revision,
        }
    }
}

/// The process a step update names: as typed, and as resolved from a short
/// identifier.
pub struct StepTarget {
    pub raw: String,
    pub resolved: String,
}

/// Why no step could be updated.
#[derive(Debug, Clone, Copy, PartialEq, Eq, Structural)]
pub enum StepError {
    /// The lot has no execution steps.
    NoSteps,
    /// No step matches (no pending step, or no step for the process named).
    NoPendingSteps,
    /// The step number given is past the last step.
    OutOfRange { step: usize, steps: usize },
}

/// The step runs a process whose identifier holds `p`.
pub open spec fn names_process(s: StepView, p: Seq<char>) -> bool {
    s.process matches Some(x) && text_contains(x, p)
}

/// The step still has work to do.
pub open spec fn is_open_step(s: StepView) -> bool {
    s.status == ExecutionStatus::Pending || s.status == ExecutionStatus::InProgress
}

/// The step an update aims at: with a process named, the first step running
/// it, else the step number typed (counted from 1); without one, the first
/// open step.
pub open spec fn aimed_step(steps: Seq<StepView>, target: Option<(Seq<char>, Seq<char>)>) -> Option<int> {
    match target {
        Some((raw, resolved)) => match first_where(steps.len() as int, |i: int| names_process(steps[i], resolved)) {
            Some(i) => Some(i),
            None => match parsed_usize(raw) {
                Some(n) => Some(if n >= 1 {
                    n - 1
                } else {
                    0
                }),
                None => None,
            },
        },
        None => first_where(steps.len() as int, |i: int| is_open_step(steps[i])),
    }
}

/// The step an update applies to, or why there is none.
pub open spec fn step_selection(steps: Seq<StepView>, target: Option<(Seq<char>, Seq<char>)>) -> Result<int, StepError> {
    match aimed_step(steps, target) {
        None => Err(if steps.len() == 0 {
            StepError::NoSteps
        } else {
            StepError::NoPendingSteps
        }),
        Some(i) => if i >= steps.len() {
            Err(StepError::OutOfRange { step: (i + 1) as usize, steps: steps.len() as usize })
        } else {
            Ok(i)
        },
    }
}

/// The view of a step target.
pub open spec fn target_view(t: Option<&StepTarget>) -> Option<(Seq<char>, Seq<char>)> {
    match t {
        Some(t) => Some((t.raw@, t.resolved@)),
        None => None,
    }
}

/// The first step running a process whose identifier holds `p`.
fn first_step_naming(execution: &Vec<ExecutionStep>, p: &str) -> (r: Option<usize>)
    ensures
        r matches Some(i) ==> i < execution.len(),
        r matches Some(i) ==> first_where(execution@.len() as int, |i: int| names_process(execution@.map_values(|s: ExecutionStep| s@)[i], p@)) == Some(i as int),
        r is None ==> first_where(execution@.len() as int, |i: int| names_process(execution@.map_values(|s: ExecutionStep| s@)[i], p@)) is None,
{
    let ghost pred = |i: int| names_process(execution@.map_values(|s: ExecutionStep| s@)[i], p@);
    let mut i: usize = 0;
    while i < execution.len()
        invariant
            pred == (|i: int| names_process(execution@.map_values(|s: ExecutionStep| s@)[i], p@)),
            i <= execution.len(),
            forall|j: int| 0 <= j < i ==> !#[trigger] pred(j),
        decreases execution.len() - i,
    {
        let hit = match &execution[i].process {
            Some(x) => str_contains(x.as_str(), p),
            None => false,
        };
        assert(execution@.map_values(|s: ExecutionStep| s@)[i as int] == execution@[i as int]@);
        if hit {
            proof {
                lemma_first_where(execution@.len() as int, pred, i as int);
            }
            return Some(i);
        }
        i = i + 1;
    }
    None
}

/// The first step still pending or in progress.
fn first_open_step(execution: &Vec<ExecutionStep>) -> (r: Option<usize>)
    ensures
        r matches Some(i) ==> i < execution.len(),
        r matches Some(i) ==> first_where(execution@.len() as int, |i: int| is_open_step(execution@.map_values(|s: ExecutionStep| s@)[i])) == Some(i as int),
        r is None ==> first_where(execution@.len() as int, |i: int| is_open_step(execution@.map_values(|s: ExecutionStep| s@)[i])) is None,
{
    let ghost pred = |i: int| is_open_step(execution@.map_values(|s: ExecutionStep| s@)[i]);
    let mut i: usize = 0;
    while i < execution.len()
        invariant
            pred == (|i: int| is_open_step(execution@.map_values(|s: ExecutionStep| s@)[i])),
            i <= execution.len(),
            forall|j: int| 0 <= j < i ==> !#[trigger] pred(j),
        decreases execution.len() - i,
    {
        let st = execution[i].status;
        assert(execution@.map_values(|s: ExecutionStep| s@)[i as int] == execution@[i as int]@);
        if st == ExecutionStatus::Pending || st == ExecutionStatus::InProgress {
            proof {
                lemma_first_where(execution@.len() as int, pred, i as int);
            }
            return Some(i);
        }
        i = i + 1;
    }
    None
}

/// Picks the step of `lot step` to update.
pub fn select_step(execution: &Vec<ExecutionStep>, target: Option<&StepTarget>) -> (r: Result<usize, StepError>)
    ensures
        r matches Ok(i) ==> step_selection(execution@.map_values(|s: ExecutionStep| s@), target_view(target)) == Ok::<int, StepError>(i as int),
        r matches Err(e) ==> step_selection(execution@.map_values(|s: ExecutionStep| s@), target_view(target)) == Err::<int, StepError>(e),
{
    let ghost sv = execution@.map_values(|s: ExecutionStep| s@);
    let n = execution.len();
    let aimed: Option<usize> = match target {
        Some(t) => {
            let found = first_step_naming(execution, t.resolved.as_str());
            match found {
                Some(i) => Some(i),
                None => match parse_usize(t.raw.as_str()) {
                    Some(k) => Some(k.saturating_sub(1)),
                    None => None,
                },
            }
        },
        None => {
            first_open_step(execution)
        },
    };
    assert(aimed matches Some(i) ==> i < usize::MAX);
    assert(aimed_step(sv, target_view(target)) == match aimed {
        Some(i) => Some(i as int),
        None => None::<int>,
    });
    match aimed {
        None => if n == 0 {
            Err(StepError::NoSteps)
        } else {
            Err(StepError::NoPendingSteps)
        },
        Some(i) => if i >= n {
            Err(StepError::OutOfRange { step: i + 1, steps: n })
        } else {
            Ok(i)
        },
    }
}

/// The status, operator and notes a non-interactive step update records:
/// the status given (completed by default), the operator given (the
/// configured author by default), and the notes given.
pub fn step_update_values(args: &StepArgs, author: &str) -> (r: (ExecutionStatus, String, Option<String>))
    ensures
        r.0 == match args.status {
            Some(s) => execution_status_of(s),
            None => ExecutionStatus::Completed,
        },
        r.1@ == match args.operator {
            Some(o) => o@,
            None => author@,
        },
        opt_view(r.2) == opt_view(args.notes),
{
    let status = match args.status {
        Some(s) => ExecutionStatus::from(s),
        None => ExecutionStatus::Completed,
    };
    let operator = match &args.operator {
        Some(o) => o.clone(),
        None => author.to_owned(),
    };
    let notes = match &args.notes {
        Some(n) => Some(n.clone()),
        None => None,
    };
    (status, operator, notes)
}

/// The execution status a CLI status stands for.
pub open spec fn execution_status_of(s: CliExecutionStatus) -> ExecutionStatus {
    match s {
        CliExecutionStatus::Pending => ExecutionStatus::Pending,
        CliExecutionStatus::InProgress => ExecutionStatus::InProgress,
        CliExecutionStatus::Completed => ExecutionStatus::Completed,
        CliExecutionStatus::Skipped => ExecutionStatus::Skipped,
    }
}

/// A step after an update: new status and operator, the completion day when
/// completed, and the notes when given.
pub open spec fn step_after_update(s: StepView, status: ExecutionStatus, operator: Seq<char>, notes: Option<Seq<char>>, today: i32) -> StepView {
    StepView {
        process: s.process,
        status: status,
        operator: Some(operator),
        completed_date: if status == ExecutionStatus::Completed {
            Some(today)
        } else {
            s.completed_date
        },
        notes: if notes is Some {
            notes
        } else {
            s.notes
        },
    }
}

/// Applies a step update to a lot and counts a new revision.
pub fn apply_step_update(lot: &mut LotRecord, idx: usize, status: ExecutionStatus, operator: String, notes: Option<String>, today: i32)
    requires
        idx < old(lot).execution.len(),
        old(lot).entity_revision < u32::MAX,
    ensures
        final(lot)@.execution == old(lot)@.execution.update(idx as int, step_after_update(old(lot)@.execution[idx as int], status, operator@, opt_view(notes), today)),
        final(lot)@.entity_revision == old(lot)@.entity_revision + 1,
        final(lot)@.lot_status == old(lot)@.lot_status,
        final(lot)@.completion_date == old(lot)@.completion_date,
{
    let ghost before = lot@;
    let old_step = &lot.execution[idx];
    let completed_date = if status == ExecutionStatus::Completed {
        Some(today)
    } else {
        old_step.completed_date
    };
    let new_notes = match notes {
        Some(n) => Some(n),
        None => match &old_step.notes {
            Some(n) => Some(n.clone()),
            None => None,
        },
    };
    let process = match &old_step.process {
        Some(p) => Some(p.clone()),
        None => None,
    };
    let step = ExecutionStep { process, status, operator: Some(operator), completed_date, notes: new_notes };
    assert(before.execution[idx as int] == lot.execution@[idx as int]@);
    lot.execution.set(idx, step);
    lot.entity_revision = lot.entity_revision + 1;
    assert(lot@.execution =~= before.execution.update(idx as int, step_after_update(before.execution[idx as int], status, operator@, opt_view(notes), today)));
}

/// Why a lot cannot be completed.
#[derive(Debug, Clone, Copy, PartialEq, Eq, Structural)]
pub enum CompleteError {
    AlreadyCompleted,
    Scrapped,
}

/// The step is neither completed nor skipped.
pub open spec fn is_incomplete_step(s: StepView) -> bool {
    s.status != ExecutionStatus::Completed && s.status != ExecutionStatus::Skipped
}

/// Whether a lot may be completed, and if so the positions of its
/// unfinished steps (for which the user is asked to confirm).
pub open spec fn completion_check(l: LotView) -> Result<Seq<int>, CompleteError> {
    if l.lot_status == LotStatus::Completed {
        Err(CompleteError::AlreadyCompleted)
    } else if l.lot_status == LotStatus::Scrapped {
        Err(CompleteError::Scrapped)
    } else {
        Ok(Seq::new(l.execution.len(), |i: int| i).filter(|i: int| is_incomplete_step(l.execution[i])))
    }
}

/// Checks that a lot may be completed and lists its unfinished steps.
pub fn check_completion(lot: &LotRecord) -> (r: Result<Vec<usize>, CompleteError>)
    ensures
        r matches Ok(v) ==> completion_check(lot@) == Ok::<Seq<int>, CompleteError>(v@.map_values(|x: usize| x as int)),
        r matches Err(e) ==> completion_check(lot@) == Err::<Seq<int>, CompleteError>(e),
{
    if lot.lot_status == LotStatus::Completed {
        return Err(CompleteError::AlreadyCompleted);
    }
    if lot.lot_status == LotStatus::Scrapped {
        return Err(CompleteError::Scrapped);
    }
    let ghost sv = lot@.execution;
    let ghost all = Seq::new(sv.len(), |i: int| i);
    let mut r: Vec<usize> = Vec::new();
    let mut i: usize = 0;
    assert(all.take(0).filter(|i: int| is_incomplete_step(sv[i])) =~= Seq::<int>::empty());
    while i < lot.execution.len()
        invariant
            sv == lot@.execution,
            all == Seq::new(sv.len(), |i: int| i),
            i <= lot.execution.len(),
            r@.map_values(|x: usize| x as int) == all.take(i as int).filter(|i: int| is_incomplete_step(sv[i])),
        decreases lot.execution.len() - i,
    {
        reveal_with_fuel(Seq::filter, 1);
        assert(all.take(i as int + 1).drop_last() =~= all.take(i as int));
        assert(all.take(i as int + 1).last() == i as int);
        assert(sv[i as int] == lot.execution@[i as int]@);
        let st = lot.execution[i].status;
        let ghost old_r = r@;
        if st != ExecutionStatus::Completed && st != ExecutionStatus::Skipped {
            r.push(i);
            assert(r@.map_values(|x: usize| x as int) =~= old_r.map_values(|x: usize| x as int).push(i as int));
        }
        i = i + 1;
    }
    assert(all.take(lot.execution.len() as int) =~= all);
    Ok(r)
}

/// The lot after completion: completed on `today`, one revision later.
pub open spec fn lot_after_completion(l: LotView, today: i32) -> LotView {
    LotView {
        lot_status: LotStatus::Completed,
        execution: l.execution,
        completion_date: Some(today),
        entity_revision: (l.entity_revision + 1) as u32,
    }
}

/// Marks a lot completed on `today` and counts a new revision.
pub fn complete_lot(lot: &mut LotRecord, today: i32)
    requires
        old(lot).entity_revision < u32::MAX,
    ensures
        final(lot)@ == lot_after_completion(old(lot)@, today),
{
    lot.lot_status = LotStatus::Completed;
    lot.completion_date = Some(today);
    lot.entity_revision = lot.entity_revision + 1;
}

/// A completed lot cannot be completed again.
pub proof fn law_completion_is_final(l: LotView, today: i32)
    ensures
        completion_check(lot_after_completion(l, today)) == Err::<Seq<int>, CompleteError>(CompleteError::AlreadyCompleted),
{
}

/// What the lot list reads of a lot.
pub struct LotSummary {
    pub id: String,
    pub title: String,
    pub author: String,
    pub lot_number: Option<String>,
    pub quantity: Option<u32>,
    pub lot_status: LotStatus,
    /// The product (ASM or CMP identifier) the lot makes.
    pub product: Option<String>,
    pub created: Timestamp,
}

/// The lot has the status a filter asks for.
pub open spec fn lot_status_matches(f: LotStatusFilter, s: LotStatus) -> bool {
    match f {
        LotStatusFilter::InProgress => s == LotStatus::InProgress,
        LotStatusFilter::OnHold => s == LotStatus::OnHold,
        LotStatusFilter::Completed => s == LotStatus::Completed,
        LotStatusFilter::Scrapped => s == LotStatus::Scrapped,
        LotStatusFilter::All => true,
    }
}

/// The name of the status a status filter asks for (the filter's own
/// variant name).
pub open spec fn lot_filter_name(f: LotStatusFilter) -> Seq<char> {
    match f {
        LotStatusFilter::InProgress => "InProgress"@,
        LotStatusFilter::OnHold => "OnHold"@,
        LotStatusFilter::Completed => "Completed"@,
        LotStatusFilter::Scrapped => "Scrapped"@,
        LotStatusFilter::All => "All"@,
    }
}

/// A status filter other than `All` keeps exactly the lots whose status
/// has the filter's name; `All` keeps every lot.
pub proof fn law_status_filter_keeps_its_status(f: LotStatusFilter, s: LotStatus)
    ensures
        f != LotStatusFilter::All ==> (lot_status_matches(f, s) <==> lot_status_debug_name(s) == lot_filter_name(f)),
        f == LotStatusFilter::All ==> lot_status_matches(f, s),
{
    reveal_strlit("InProgress");
    reveal_strlit("OnHold");
    reveal_strlit("Completed");
    reveal_strlit("Scrapped");
    assert("InProgress"@.len() == 10 && "OnHold"@.len() == 6 && "Completed"@.len() == 9 && "Scrapped"@.len() == 8);
    assert("Completed"@[0] == 'C' && "Scrapped"@[0] == 'S');
}

/// The lot passes every filter of `lot list`.
pub open spec fn lot_listed(args: &ListArgs, l: &LotSummary, now: Timestamp) -> bool {
    &&& lot_status_matches(args.status, l.lot_status)
    &&& (args.author matches Some(a) ==> contains_ignoring_case(l.author@, a@))
    &&& (args.product matches Some(p) ==> (l.product matches Some(x) && text_contains(x@, p@)))
    &&& (args.recent ==> is_recent(l.created, now))
    &&& (args.search matches Some(s) ==> (contains_ignoring_case(l.title@, s@) || (l.lot_number matches Some(n) && contains_ignoring_case(n@, s@))))
    &&& (args.active ==> (l.lot_status == LotStatus::InProgress || l.lot_status == LotStatus::OnHold))
}

/// Whether `lot list` shows the lot.
pub fn lot_matches(args: &ListArgs, l: &LotSummary, now: Timestamp) -> (r: bool)
    ensures
        r == lot_listed(args, l, now),
        r && args.status != LotStatusFilter::All ==> lot_status_debug_name(l.lot_status) == lot_filter_name(args.status),
{
    proof {
        law_status_filter_keeps_its_status(args.status, l.lot_status);
    }
    let status_ok = match args.status {
        LotStatusFilter::InProgress => l.lot_status == LotStatus::InProgress,
        LotStatusFilter::OnHold => l.lot_status == LotStatus::OnHold,
        LotStatusFilter::Completed => l.lot_status == LotStatus::Completed,
        LotStatusFilter::Scrapped => l.lot_status == LotStatus::Scrapped,
        LotStatusFilter::All => true,
    };
    if !status_ok {
        return false;
    }
    if let Some(a) = &args.author {
        if !contains_ignore_case(l.author.as_str(), a.as_str()) {
            return false;
        }
    }
    if let Some(p) = &args.product {
        let ok = match &l.product {
            Some(x) => str_contains(x.as_str(), p.as_str()),
            None => false,
        };
        if !ok {
            return false;
        }
    }
    if args.recent && !within_recent_window(l.created, now) {
        return false;
    }
    if let Some(s) = &args.search {
        let in_number = match &l.lot_number {
            Some(n) => contains_ignore_case(n.as_str(), s.as_str()),
            None => false,
        };
        if !(contains_ignore_case(l.title.as_str(), s.as_str()) || in_number) {
            return false;
        }
    }
    if args.active && !(l.lot_status == LotStatus::InProgress || l.lot_status == LotStatus::OnHold) {
        return false;
    }
    true
}

/// The name a lot status has in its debug form (which orders the status column).
pub open spec fn lot_status_debug_name(s: LotStatus) -> Seq<char> {
    match s {
        LotStatus::InProgress => "InProgress"@,
        LotStatus::OnHold => "OnHold"@,
        LotStatus::Completed => "Completed"@,
        LotStatus::Scrapped => "Scrapped"@,
    }
}

/// The key a lot is sorted by for a column.
pub open spec fn lot_key(c: ListColumn, l: &LotSummary) -> SortKeyView {
    match c {
        ListColumn::Id => SortKeyView::Text(l.id@),
        ListColumn::Title => SortKeyView::Text(l.title@),
        ListColumn::LotNumber => SortKeyView::Text(text_or_empty(l.lot_number)),
        ListColumn::Quantity => SortKeyView::Num(match l.quantity {
            Some(q) => q as int,
            None => -1,
        }),
        ListColumn::LotStatus => SortKeyView::Text(lot_status_debug_name(l.lot_status)),
        ListColumn::Author => SortKeyView::Text(l.author@),
        ListColumn::Created => SortKeyView::Num(crate::common::instant(l.created)),
    }
}

/// The sort key of a lot for the chosen column (an absent quantity sorts
/// before every quantity, as `Option` ordering does).
pub fn lot_sort_key(column: ListColumn, l: &LotSummary) -> (r: SortKey)
    ensures
        r@ == lot_key(column, l),
{
    match column {
        ListColumn::Id => {
            let r = SortKey::text(l.id.as_str());
            assert(r@ == lot_key(column, l));
            r
        },
        ListColumn::Title => {
            let r = SortKey::text(l.title.as_str());
            assert(r@ == lot_key(column, l));
            r
        },
        ListColumn::LotNumber => match &l.lot_number {
            Some(n) => {
                let r = SortKey::text(n.as_str());
                assert(r@ == lot_key(column, l));
                r
            },
            None => {
                let r = SortKey::text("");
                proof {
                    reveal_strlit("");
                    assert(""@ =~= Seq::<char>::empty());
                }
                assert(r@ == lot_key(column, l));
                r
            },
        },
        ListColumn::Quantity => {
            let r = match l.quantity {
                Some(q) => SortKey::num(q as i128),
                None => SortKey::num(-1),
            };
            assert(r@ == lot_key(column, l));
            r
        },
        ListColumn::LotStatus => {
            let r = SortKey::text(match l.lot_status {
                LotStatus::InProgress => "InProgress",
                LotStatus::OnHold => "OnHold",
                LotStatus::Completed => "Completed",
                LotStatus::Scrapped => "Scrapped",
            });
            assert(r@ == lot_key(column, l));
            r
        },
        ListColumn::Author => {
            let r = SortKey::text(l.author.as_str());
            assert(r@ == lot_key(column, l));
            r
        },
        ListColumn::Created => {
            let r = time_key(l.created);
            assert(r@ == lot_key(column, l));
            r
        },
    }
}


/// The text of a new lot file: the generated template with the product it
/// makes, when given, in place of the empty product link.
pub open spec fn new_lot_text(template: Seq<char>, product: Option<Seq<char>>) -> Seq<char> {
    match product {
        Some(p) => replaced(template, "  product: null"@, "  product: \""@ + p + "\""@),
        None => template,
    }
}

/// Fills the generated template of a new lot with its product (its
/// identifier, short forms resolved).
pub fn new_lot_file(template: &str, product: Option<&str>) -> (r: String)
    ensures
        r@ == new_lot_text(template@, match product {
            Some(p) => Some(p@),
            None => None,
        }),
{
    proof {
        reveal_strlit("  product: null");
    }
    match product {
        Some(p) => {
            let mut with = concat_texts("  product: \"", p);
            append_text(&mut with, "\"");
            replace_all(template, "  product: null", with.as_str())
        },
        None => template.to_owned(),
    }
}
/// The quantity in decimal, or the stand-in.
pub open spec fn quantity_or(q: Option<u32>, none: Seq<char>) -> Seq<char> {
    match q {
        Some(n) => decimal(n as nat),
        None => none,
    }
}

/// The quantity in decimal, or the stand-in.
fn quantity_text(q: Option<u32>, none: &str) -> (r: String)
    ensures
        r@ == quantity_or(q, none@),
{
    match q {
        Some(n) => decimal_text(n as usize),
        None => none.to_owned(),
    }
}

/// A production lot as the list shows it: each text as written, with the
/// short form the caller found and the creation time already written.
pub struct LotListRow {
    pub id: String,
    /// The lot's short form, if it has one.
    pub short_id: Option<String>,
    pub title: String,
    pub lot_number: Option<String>,
    pub quantity: Option<u32>,
    /// The lot status, as written.
    pub lot_status: String,
    pub author: String,
    /// The creation time, as written.
    pub created: String,
}

/// The header of the CSV listing.
pub open spec fn lot_csv_header() -> Seq<char> {
    "short_id,id,title,lot_number,quantity,lot_status,author"@
}

/// The CSV line of a lot.
pub open spec fn lot_csv_line(n: &LotListRow) -> Seq<char> {
    text_or(n.short_id, Seq::empty()) + ","@ + n.id@ + ","@ + csv_field(n.title@) + ","@ + text_or(n.lot_number, Seq::empty()) + ","@
        + quantity_or(n.quantity, Seq::empty()) + ","@ + n.lot_status@ + ","@ + csv_field(n.author@)
}

/// The Markdown line of a lot.
pub open spec fn lot_md_line(n: &LotListRow) -> Seq<char> {
    "| "@ + text_or(n.short_id, Seq::empty()) + " | "@ + short_id_form(n.id@) + " | "@ + n.title@ + " | "@
        + text_or(n.lot_number, "-"@) + " | "@ + quantity_or(n.quantity, "-"@) + " | "@ + n.lot_status@ + " | "@ + n.author@ + " |"@
}

/// The width of a column in the table listing.
pub open spec fn lot_width(c: ListColumn) -> nat {
    match c {
        ListColumn::Id => 17,
        ListColumn::Title => 26,
        ListColumn::LotNumber => 14,
        ListColumn::Quantity => 6,
        ListColumn::LotStatus => 12,
        ListColumn::Author => 16,
        ListColumn::Created => 20,
    }
}

/// The heading of a column in the table listing, before padding.
pub open spec fn lot_heading(c: ListColumn) -> Seq<char> {
    match c {
        ListColumn::Id => "ID"@,
        ListColumn::Title => "TITLE"@,
        ListColumn::LotNumber => "LOT #"@,
        ListColumn::Quantity => "QTY"@,
        ListColumn::LotStatus => "STATUS"@,
        ListColumn::Author => "AUTHOR"@,
        ListColumn::Created => "CREATED"@,
    }
}

/// The cell of a lot in a column of the table listing, before padding.
pub open spec fn lot_cell(n: &LotListRow, c: ListColumn) -> Seq<char> {
    match c {
        ListColumn::Id => short_id_form(n.id@),
        ListColumn::Title => truncated_form(n.title@, 24),
        ListColumn::LotNumber => text_or(n.lot_number, Seq::empty()),
        ListColumn::Quantity => quantity_or(n.quantity, Seq::empty()),
        ListColumn::LotStatus => n.lot_status@,
        ListColumn::Author => truncated_form(n.author@, 14),
        ListColumn::Created => n.created@,
    }
}

/// The first `k` columns' texts, each padded to its width and followed by
/// a space.
pub open spec fn lot_cells(cells: spec_fn(ListColumn) -> Seq<char>, cols: Seq<ListColumn>, k: int) -> Seq<char>
    decreases k,
{
    if k <= 0 {
        Seq::empty()
    } else {
        lot_cells(cells, cols, k - 1) + padded(cells(cols[k - 1]), lot_width(cols[k - 1]) as int) + " "@
    }
}

/// The sum of the widths of the first `k` columns.
pub open spec fn lot_widths_sum(cols: Seq<ListColumn>, k: int) -> nat
    decreases k,
{
    if k <= 0 {
        0
    } else {
        lot_widths_sum(cols, k - 1) + lot_width(cols[k - 1])
    }
}

/// The length of the rule under the table header.
pub open spec fn lot_rule_len(cols: Seq<ListColumn>) -> nat {
    8 + lot_widths_sum(cols, cols.len() as int) + cols.len()
}

/// The header line of the table listing.
pub open spec fn lot_table_header(cols: Seq<ListColumn>) -> Seq<char> {
    padded("SHORT"@, 8) + " "@ + lot_cells(|c: ListColumn| lot_heading(c), cols, cols.len() as int)
}

/// The line of a lot in the table listing.
pub open spec fn lot_table_line(n: &LotListRow, cols: Seq<ListColumn>) -> Seq<char> {
    padded(text_or(n.short_id, Seq::empty()), 8) + " "@ + lot_cells(|c: ListColumn| lot_cell(n, c), cols, cols.len() as int)
}

/// What `lot list` prints for the lots, one text per line: the count when
/// only that is asked for, a notice when there are none, else the lines of
/// the format.
pub open spec fn lot_list_output(ns: Seq<LotListRow>, cols: Seq<ListColumn>, count: bool, format: OutputFormat) -> Seq<Seq<char>> {
    if count {
        seq![decimal(ns.len())]
    } else if ns.len() == 0 {
        seq!["No lots found."@]
    } else {
        match format {
            OutputFormat::Csv => seq![lot_csv_header()] + ns.map_values(|n: LotListRow| lot_csv_line(&n)),
            OutputFormat::Md => seq!["| Short | ID | Title | Lot # | Qty | Status | Author |"@, "|---|---|---|---|---|---|---|"@]
                + ns.map_values(|n: LotListRow| lot_md_line(&n)),
            OutputFormat::Id => ns.map_values(|n: LotListRow| n.id@),
            OutputFormat::ShortId => ns.map_values(|n: LotListRow| text_or(n.short_id, Seq::empty())),
            _ => seq![lot_table_header(cols), dash_rule(lot_rule_len(cols))]
                + ns.map_values(|n: LotListRow| lot_table_line(&n, cols))
                + seq![Seq::empty(), decimal(ns.len()) + " lot(s) found. Use LOT@N to reference by short ID."@],
        }
    }
}

/// The texts of a lot that the table listing cuts can be cut cleanly.
pub open spec fn lot_row_fits(n: &LotListRow) -> bool {
    &&& cuts_cleanly(n.id@, 16)
    &&& cuts_cleanly(n.title@, 24)
    &&& cuts_cleanly(n.author@, 14)
}

impl LotListRow {
    /// Whether the texts that the table listing cuts can be cut cleanly.
    pub fn fits(&self) -> (r: bool)
        ensures
            r == lot_row_fits(self),
    {
        cuts_at(self.id.as_str(), 16) && cuts_at(self.title.as_str(), 24) && cuts_at(self.author.as_str(), 14)
    }
}

/// The CSV line of a lot.
fn lot_csv(n: &LotListRow) -> (r: String)
    ensures
        r@ == lot_csv_line(n),
{
    proof {
        reveal_strlit("");
        assert(""@ =~= Seq::<char>::empty());
    }
    let mut r = shown_or(&n.short_id, "");
    append_text(&mut r, ",");
    append_text(&mut r, n.id.as_str());
    append_text(&mut r, ",");
    append_text(&mut r, escape_csv(n.title.as_str()).as_str());
    append_text(&mut r, ",");
    append_text(&mut r, shown_or(&n.lot_number, "").as_str());
    append_text(&mut r, ",");
    append_text(&mut r, quantity_text(n.quantity, "").as_str());
    append_text(&mut r, ",");
    append_text(&mut r, n.lot_status.as_str());
    append_text(&mut r, ",");
    append_text(&mut r, escape_csv(n.author.as_str()).as_str());
    r
}

/// The Markdown line of a lot.
fn lot_md(n: &LotListRow) -> (r: String)
    requires
        cuts_cleanly(n.id@, 16),
    ensures
        r@ == lot_md_line(n),
{
    proof {
        reveal_strlit("");
        assert(""@ =~= Seq::<char>::empty());
    }
    let mut r = concat_texts("| ", shown_or(&n.short_id, "").as_str());
    append_text(&mut r, " | ");
    append_text(&mut r, format_short_id(n.id.as_str()).as_str());
    append_text(&mut r, " | ");
    append_text(&mut r, n.title.as_str());
    append_text(&mut r, " | ");
    append_text(&mut r, shown_or(&n.lot_number, "-").as_str());
    append_text(&mut r, " | ");
    append_text(&mut r, quantity_text(n.quantity, "-").as_str());
    append_text(&mut r, " | ");
    append_text(&mut r, n.lot_status.as_str());
    append_text(&mut r, " | ");
    append_text(&mut r, n.author.as_str());
    append_text(&mut r, " |");
    r
}

/// The width of a column.
fn column_width(c: ListColumn) -> (r: usize)
    ensures
        r == lot_width(c),
{
    match c {
        ListColumn::Id => 17,
        ListColumn::Title => 26,
        ListColumn::LotNumber => 14,
        ListColumn::Quantity => 6,
        ListColumn::LotStatus => 12,
        ListColumn::Author => 16,
        ListColumn::Created => 20,
    }
}

/// The heading of a column, before padding.
fn column_heading(c: ListColumn) -> (r: &'static str)
    ensures
        r@ == lot_heading(c),
{
    match c {
        ListColumn::Id => "ID",
        ListColumn::Title => "TITLE",
        ListColumn::LotNumber => "LOT #",
        ListColumn::Quantity => "QTY",
        ListColumn::LotStatus => "STATUS",
        ListColumn::Author => "AUTHOR",
        ListColumn::Created => "CREATED",
    }
}

/// The cell of a lot in a column, before padding.
fn cell_text(n: &LotListRow, c: ListColumn) -> (r: String)
    requires
        lot_row_fits(n),
    ensures
        r@ == lot_cell(n, c),
{
    proof {
        reveal_strlit("");
        assert(""@ =~= Seq::<char>::empty());
    }
    match c {
        ListColumn::Id => format_short_id(n.id.as_str()),
        ListColumn::Title => truncate_str(n.title.as_str(), 24),
        ListColumn::LotNumber => shown_or(&n.lot_number, ""),
        ListColumn::Quantity => quantity_text(n.quantity, ""),
        ListColumn::LotStatus => n.lot_status.clone(),
        ListColumn::Author => truncate_str(n.author.as_str(), 14),
        ListColumn::Created => n.created.clone(),
    }
}

/// The header line of the table listing.
fn lot_header(cols: &Vec<ListColumn>) -> (r: String)
    ensures
        r@ == lot_table_header(cols@),
{
    let mut r = pad_right("SHORT", 8);
    append_text(&mut r, " ");
    let ghost g = |c: ListColumn| lot_heading(c);
    let mut i: usize = 0;
    while i < cols.len()
        invariant
            i <= cols.len(),
            g == (|c: ListColumn| lot_heading(c)),
            r@ == padded("SHORT"@, 8) + " "@ + lot_cells(g, cols@, i as int),
        decreases cols.len() - i,
    {
        append_text(&mut r, pad_right(column_heading(cols[i]), column_width(cols[i])).as_str());
        append_text(&mut r, " ");
        assert(r@ =~= padded("SHORT"@, 8) + " "@ + lot_cells(g, cols@, i as int + 1));
        i = i + 1;
    }
    r
}

/// The line of a lot in the table listing.
fn lot_line(n: &LotListRow, cols: &Vec<ListColumn>) -> (r: String)
    requires
        lot_row_fits(n),
    ensures
        r@ == lot_table_line(n, cols@),
{
    proof {
        reveal_strlit("");
        assert(""@ =~= Seq::<char>::empty());
    }
    let mut r = pad_right(shown_or(&n.short_id, "").as_str(), 8);
    append_text(&mut r, " ");
    let ghost g = |c: ListColumn| lot_cell(n, c);
    let mut i: usize = 0;
    while i < cols.len()
        invariant
            i <= cols.len(),
            lot_row_fits(n),
            g == (|c: ListColumn| lot_cell(n, c)),
            r@ == padded(text_or(n.short_id, Seq::empty()), 8) + " "@ + lot_cells(g, cols@, i as int),
        decreases cols.len() - i,
    {
        append_text(&mut r, pad_right(cell_text(n, cols[i]).as_str(), column_width(cols[i])).as_str());
        append_text(&mut r, " ");
        assert(r@ =~= padded(text_or(n.short_id, Seq::empty()), 8) + " "@ + lot_cells(g, cols@, i as int + 1));
        i = i + 1;
    }
    r
}

/// The sum of the widths of fewer columns is no larger.
proof fn lemma_lot_widths_grow(cols: Seq<ListColumn>, m: int, k: int)
    requires
        0 <= m <= k <= cols.len(),
    ensures
        lot_widths_sum(cols, m) + m <= lot_widths_sum(cols, k) + k,
    decreases k - m,
{
    if m < k {
        lemma_lot_widths_grow(cols, m, k - 1);
    }
}

/// The length of the rule under the table header.
fn rule_length(cols: &Vec<ListColumn>) -> (r: usize)
    requires
        lot_rule_len(cols@) <= usize::MAX,
    ensures
        r == lot_rule_len(cols@),
{
    let mut total: usize = 8;
    let mut i: usize = 0;
    while i < cols.len()
        invariant
            i <= cols.len(),
            lot_rule_len(cols@) <= usize::MAX,
            total == 8 + lot_widths_sum(cols@, i as int) + i,
        decreases cols.len() - i,
    {
        proof {
            lemma_lot_widths_grow(cols@, i as int + 1, cols.len() as int);
        }
        total = total + column_width(cols[i]) + 1;
        i = i + 1;
    }
    total
}

/// Writes what `lot list` prints for the lots, one text per line.
pub fn lot_list_lines(lots: &Vec<LotListRow>, columns: &Vec<ListColumn>, count: bool, format: OutputFormat) -> (r: Vec<String>)
    requires
        lots.len() > 0 && !count ==> !is_full_record_format(format) && format != OutputFormat::Auto,
        format == OutputFormat::Tsv ==> lot_rule_len(columns@) <= usize::MAX,
        format == OutputFormat::Tsv ==> forall|i: int| 0 <= i < lots.len() ==> lot_row_fits(#[trigger] &lots@[i]),
        format == OutputFormat::Md ==> forall|i: int| 0 <= i < lots.len() ==> cuts_cleanly((#[trigger] lots@[i]).id@, 16),
    ensures
        r@.map_values(|s: String| s@) == lot_list_output(lots@, columns@, count, format),
{
    let mut out: Vec<String> = Vec::new();
    if count {
        out.push(decimal_text(lots.len()));
        proof {
            assert(out@.map_values(|s: String| s@) =~= lot_list_output(lots@, columns@, count, format));
        }
        return out;
    }
    if lots.len() == 0 {
        out.push("No lots found.".to_owned());
        proof {
            assert(out@.map_values(|s: String| s@) =~= lot_list_output(lots@, columns@, count, format));
        }
        return out;
    }
    let ghost head: Seq<Seq<char>> = match format {
        OutputFormat::Csv => seq![lot_csv_header()],
        OutputFormat::Md => seq!["| Short | ID | Title | Lot # | Qty | Status | Author |"@, "|---|---|---|---|---|---|---|"@],
        OutputFormat::Id => seq![],
        OutputFormat::ShortId => seq![],
        _ => seq![lot_table_header(columns@), dash_rule(lot_rule_len(columns@))],
    };
    let ghost line = |n: LotListRow| match format {
        OutputFormat::Csv => lot_csv_line(&n),
        OutputFormat::Md => lot_md_line(&n),
        OutputFormat::Id => n.id@,
        OutputFormat::ShortId => text_or(n.short_id, Seq::empty()),
        _ => lot_table_line(&n, columns@),
    };
    match format {
        OutputFormat::Csv => {
            out.push("short_id,id,title,lot_number,quantity,lot_status,author".to_owned());
        },
        OutputFormat::Md => {
            out.push("| Short | ID | Title | Lot # | Qty | Status | Author |".to_owned());
            out.push("|---|---|---|---|---|---|---|".to_owned());
        },
        OutputFormat::Id => {},
        OutputFormat::ShortId => {},
        _ => {
            out.push(lot_header(columns));
            out.push(dashes(rule_length(columns)));
        },
    }
    assert(out@.map_values(|s: String| s@) =~= head);
    let mut i: usize = 0;
    while i < lots.len()
        invariant
            i <= lots.len(),
            lots.len() > 0 && !count,
            !is_full_record_format(format) && format != OutputFormat::Auto,
            format == OutputFormat::Tsv ==> forall|k: int| 0 <= k < lots.len() ==> lot_row_fits(#[trigger] &lots@[k]),
            format == OutputFormat::Md ==> forall|k: int| 0 <= k < lots.len() ==> cuts_cleanly((#[trigger] lots@[k]).id@, 16),
            line == (|n: LotListRow| match format {
                OutputFormat::Csv => lot_csv_line(&n),
                OutputFormat::Md => lot_md_line(&n),
                OutputFormat::Id => n.id@,
                OutputFormat::ShortId => text_or(n.short_id, Seq::empty()),
                _ => lot_table_line(&n, columns@),
            }),
            out@.map_values(|s: String| s@) == head + lots@.take(i as int).map_values(line),
        decreases lots.len() - i,
    {
        let n = &lots[i];
        let text = match format {
            OutputFormat::Csv => lot_csv(n),
            OutputFormat::Md => lot_md(n),
            OutputFormat::Id => n.id.clone(),
            OutputFormat::ShortId => shown_or(&n.short_id, ""),
            _ => lot_line(n, columns),
        };
        proof {
            reveal_strlit("");
            assert(""@ =~= Seq::<char>::empty());
        }
        assert(text@ == line(lots@[i as int]));
        let ghost before = out@.map_values(|s: String| s@);
        out.push(text);
        assert(out@.map_values(|s: String| s@) =~= before.push(text@));
        assert(lots@.take(i as int + 1) =~= lots@.take(i as int).push(lots@[i as int]));
        assert(lots@.take(i as int + 1).map_values(line) =~= lots@.take(i as int).map_values(line).push(line(lots@[i as int])));
        i = i + 1;
    }
    assert(lots@.take(lots.len() as int) =~= lots@);
    match format {
        OutputFormat::Csv => {},
        OutputFormat::Md => {},
        OutputFormat::Id => {},
        OutputFormat::ShortId => {},
        _ => {
            let ghost before = out@.map_values(|s: String| s@);
            out.push(String::new());
            let mut footer = decimal_text(lots.len());
            append_text(&mut footer, " lot(s) found. Use LOT@N to reference by short ID.");
            out.push(footer);
            assert(out@.map_values(|s: String| s@) =~= before + seq![Seq::<char>::empty(), decimal(lots.len() as nat) + " lot(s) found. Use LOT@N to reference by short ID."@]);
        },
    }
    assert(out@.map_values(|s: String| s@) =~= lot_list_output(lots@, columns@, count, format));
    out
}

/// A material of a lot as its display shows it.
pub struct MaterialLine {
    /// The component used, if linked.
    pub component: Option<String>,
    pub supplier_lot: Option<String>,
    pub quantity: Option<u32>,
}

/// An execution step of a lot as its display shows it, its date already
/// written.
pub struct StepLine {
    /// The process the step runs, if linked.
    pub process: Option<String>,
    /// The step status, as written.
    pub status: String,
    /// The day the step was completed, as written.
    pub completed: Option<String>,
    pub operator: Option<String>,
    pub notes: Option<String>,
}

/// A production lot as `lot show` displays it: each text as written, dates
/// and times already written, and each linked identifier already replaced
/// by its short form where it has one.
pub struct LotDisplay {
    pub id: String,
    pub title: String,
    pub lot_number: Option<String>,
    pub quantity: Option<u32>,
    /// The lot status, as written.
    pub lot_status: String,
    pub start_date: Option<String>,
    pub completion_date: Option<String>,
    pub materials: Vec<MaterialLine>,
    pub steps: Vec<StepLine>,
    /// The product the lot makes, if linked.
    pub product: Option<String>,
    pub processes: Vec<String>,
    pub ncrs: Vec<String>,
    /// Whether the lot links work instructions or results, which the
    /// display does not list.
    pub other_links: bool,
    pub notes: Option<String>,
    pub author: String,
    /// The creation time, as written.
    pub created: String,
    pub revision: u32,
}

/// The rule that frames the display.
pub open spec fn display_rule() -> Seq<char> {
    Seq::new(60, |i: int| '\u{2500}')
}

/// A labelled line for a value the lot may lack.
pub open spec fn labelled(label: Seq<char>, v: Option<String>) -> Seq<Seq<char>> {
    match v {
        Some(x) => seq![label + x@],
        None => seq![],
    }
}

/// The text after a step's status for a value the step may lack.
pub open spec fn suffix(label: Seq<char>, v: Option<String>) -> Seq<char> {
    match v {
        Some(x) => label + x@,
        None => Seq::empty(),
    }
}

/// The line of a material.
pub open spec fn material_text(m: MaterialLine) -> Seq<char> {
    "  \u{2022} "@ + text_or(m.component, "(no CMP)"@) + " | Lot: "@ + text_or(m.supplier_lot, "-"@) + " | Qty: "@
        + quantity_or(m.quantity, "-"@)
}

/// The lines of the step at position `i`: the step, then its notes when
/// it has some.
pub open spec fn step_texts(i: int, s: StepLine) -> Seq<Seq<char>> {
    seq!["  "@ + decimal((i + 1) as nat) + ". "@ + text_or(s.process, "(unlinked)"@) + " ["@ + s.status@ + "]"@
        + suffix(" - "@, s.completed) + suffix(" by "@, s.operator)] + match s.notes {
        Some(n) => if n@.len() > 0 {
            seq!["     "@ + n@]
        } else {
            seq![]
        },
        None => seq![],
    }
}

/// The lines of the first `n` steps.
pub open spec fn steps_texts(steps: Seq<StepLine>, n: int) -> Seq<Seq<char>>
    decreases n,
{
    if n <= 0 {
        seq![]
    } else {
        steps_texts(steps, n - 1) + step_texts(n - 1, steps[n - 1])
    }
}

/// The lines of the links, when the lot has any.
pub open spec fn links_texts(l: &LotDisplay) -> Seq<Seq<char>> {
    if l.product is Some || l.processes@.len() > 0 || l.ncrs@.len() > 0 || l.other_links {
        seq![Seq::empty(), "Links:"@] + labelled("  Product: "@, l.product) + (if l.processes@.len() > 0 {
            seq!["  Processes: "@ + joined(l.processes@.map_values(|x: String| x@), ", "@)]
        } else {
            seq![]
        }) + (if l.ncrs@.len() > 0 {
            seq!["  NCRs: "@ + joined(l.ncrs@.map_values(|x: String| x@), ", "@)]
        } else {
            seq![]
        })
    } else {
        seq![]
    }
}

/// The lines of the notes, shown when they are not empty and do not start
/// with `#`.
pub open spec fn notes_texts(notes: Option<String>) -> Seq<Seq<char>> {
    match notes {
        Some(n) => if n@.len() > 0 && n@[0] != '#' {
            seq![Seq::empty(), "Notes:"@, n@]
        } else {
            seq![]
        },
        None => seq![],
    }
}

/// The first lines of the display: the lot's identity, status and dates,
/// between two rules.
pub open spec fn head_texts(l: &LotDisplay) -> Seq<Seq<char>> {
    seq![display_rule(), "ID: "@ + l.id@, "Title: "@ + l.title@] + labelled("Lot Number: "@, l.lot_number)
        + (match l.quantity {
            Some(q) => seq!["Quantity: "@ + decimal(q as nat)],
            None => seq![],
        }) + seq!["Status: "@ + l.lot_status@] + labelled("Start Date: "@, l.start_date)
        + labelled("Completion Date: "@, l.completion_date) + seq![display_rule()]
}

/// The lines of the materials, when the lot has any.
pub open spec fn materials_texts(l: &LotDisplay) -> Seq<Seq<char>> {
    if l.materials@.len() > 0 {
        seq![Seq::empty(), "Materials Used ("@ + decimal(l.materials@.len()) + "):"@]
            + l.materials@.map_values(|m: MaterialLine| material_text(m))
    } else {
        seq![]
    }
}

/// The lines of the execution steps, when the lot has any.
pub open spec fn execution_texts(l: &LotDisplay) -> Seq<Seq<char>> {
    if l.steps@.len() > 0 {
        seq![Seq::empty(), "Execution Steps ("@ + decimal(l.steps@.len()) + "):"@] + steps_texts(l.steps@, l.steps@.len() as int)
    } else {
        seq![]
    }
}

/// The last lines of the display: a rule, then who made the lot, when, and
/// its revision.
pub open spec fn footer_texts(l: &LotDisplay) -> Seq<Seq<char>> {
    seq![display_rule(), "Author: "@ + l.author@ + " | Created: "@ + l.created@ + " | Revision: "@ + decimal(l.revision as nat)]
}

/// What `lot show` displays for a lot, one text per line.
pub open spec fn lot_display_texts(l: &LotDisplay) -> Seq<Seq<char>> {
    head_texts(l) + materials_texts(l) + execution_texts(l) + links_texts(l) + notes_texts(l.notes) + footer_texts(l)
}

/// Appends a labelled line for a value the lot may lack.
fn push_labelled(out: &mut Vec<String>, label: &str, v: &Option<String>)
    ensures
        final(out)@.map_values(|s: String| s@) == old(out)@.map_values(|s: String| s@) + labelled(label@, *v),
{
    let ghost before = out@.map_values(|s: String| s@);
    match v {
        Some(x) => {
            out.push(concat_texts(label, x.as_str()));
        },
        None => {},
    }
    assert(out@.map_values(|s: String| s@) =~= before + labelled(label@, *v));
}

/// Appends the text after a step's status for a value the step may lack.
fn append_suffix(r: &mut String, label: &str, v: &Option<String>)
    ensures
        final(r)@ == old(r)@ + suffix(label@, *v),
{
    match v {
        Some(x) => {
            append_text(r, label);
            append_text(r, x.as_str());
        },
        None => {
            assert(suffix(label@, *v) =~= Seq::<char>::empty());
        },
    }
}

/// Writes the rule that frames the display.
fn rule_line() -> (r: String)
    ensures
        r@ == display_rule(),
{
    let mut r = String::new();
    let mut k: usize = 0;
    while k < 60
        invariant
            k <= 60,
            r@ == Seq::new(k as nat, |i: int| '\u{2500}'),
        decreases 60 - k,
    {
        push_char(&mut r, '\u{2500}');
        assert(r@ =~= Seq::new(k as nat + 1, |i: int| '\u{2500}'));
        k = k + 1;
    }
    r
}

/// Appends the texts of `more` to `out`.
fn extend_lines(out: &mut Vec<String>, more: &Vec<String>)
    ensures
        final(out)@.map_values(|s: String| s@) == old(out)@.map_values(|s: String| s@) + more@.map_values(|s: String| s@),
{
    let ghost start = out@.map_values(|s: String| s@);
    let ghost mv = more@.map_values(|s: String| s@);
    let mut i: usize = 0;
    while i < more.len()
        invariant
            i <= more.len(),
            mv == more@.map_values(|s: String| s@),
            out@.map_values(|s: String| s@) == start + mv.take(i as int),
        decreases more.len() - i,
    {
        let ghost before = out@.map_values(|s: String| s@);
        out.push(more[i].clone());
        assert(out@.map_values(|s: String| s@) =~= before.push(mv[i as int]));
        assert(mv.take(i as int + 1) =~= mv.take(i as int).push(mv[i as int]));
        i = i + 1;
    }
    assert(mv.take(more.len() as int) =~= mv);
}

/// Writes the first lines of the display.
fn head_lines(l: &LotDisplay) -> (r: Vec<String>)
    ensures
        r@.map_values(|s: String| s@) == head_texts(l),
{
    let mut out: Vec<String> = Vec::new();
    out.push(rule_line());
    out.push(concat_texts("ID: ", l.id.as_str()));
    out.push(concat_texts("Title: ", l.title.as_str()));
    let ghost a = seq![display_rule(), "ID: "@ + l.id@, "Title: "@ + l.title@];
    assert(out@.map_values(|s: String| s@) =~= a);
    push_labelled(&mut out, "Lot Number: ", &l.lot_number);
    let ghost b = out@.map_values(|s: String| s@);
    match l.quantity {
        Some(q) => {
            out.push(concat_texts("Quantity: ", decimal_text(q as usize).as_str()));
        },
        None => {},
    }
    let ghost qs: Seq<Seq<char>> = match l.quantity {
        Some(q) => seq!["Quantity: "@ + decimal(q as nat)],
        None => seq![],
    };
    assert(out@.map_values(|s: String| s@) =~= b + qs);
    let ghost c = out@.map_values(|s: String| s@);
    out.push(concat_texts("Status: ", l.lot_status.as_str()));
    assert(out@.map_values(|s: String| s@) =~= c + seq!["Status: "@ + l.lot_status@]);
    push_labelled(&mut out, "Start Date: ", &l.start_date);
    push_labelled(&mut out, "Completion Date: ", &l.completion_date);
    let ghost d = out@.map_values(|s: String| s@);
    out.push(rule_line());
    assert(out@.map_values(|s: String| s@) =~= d + seq![display_rule()]);
    out
}

/// Writes the lines of the materials.
fn material_lines(l: &LotDisplay) -> (r: Vec<String>)
    ensures
        r@.map_values(|s: String| s@) == materials_texts(l),
{
    let mut out: Vec<String> = Vec::new();
    if l.materials.len() == 0 {
        assert(out@.map_values(|s: String| s@) =~= materials_texts(l));
        return out;
    }
    out.push(String::new());
    let mut head = concat_texts("Materials Used (", decimal_text(l.materials.len()).as_str());
    append_text(&mut head, "):");
    out.push(head);
    let ghost e2 = out@.map_values(|s: String| s@);
    let mut i: usize = 0;
    while i < l.materials.len()
        invariant
            i <= l.materials.len(),
            out@.map_values(|s: String| s@) == e2 + l.materials@.take(i as int).map_values(|m: MaterialLine| material_text(m)),
        decreases l.materials.len() - i,
    {
        let m = &l.materials[i];
        let mut line = concat_texts("  \u{2022} ", shown_or(&m.component, "(no CMP)").as_str());
        append_text(&mut line, " | Lot: ");
        append_text(&mut line, shown_or(&m.supplier_lot, "-").as_str());
        append_text(&mut line, " | Qty: ");
        append_text(&mut line, quantity_text(m.quantity, "-").as_str());
        let ghost before = out@.map_values(|s: String| s@);
        out.push(line);
        assert(out@.map_values(|s: String| s@) =~= before.push(material_text(l.materials@[i as int])));
        assert(l.materials@.take(i as int + 1) =~= l.materials@.take(i as int).push(l.materials@[i as int]));
        assert(l.materials@.take(i as int + 1).map_values(|m: MaterialLine| material_text(m))
            =~= l.materials@.take(i as int).map_values(|m: MaterialLine| material_text(m)).push(material_text(l.materials@[i as int])));
        i = i + 1;
    }
    assert(l.materials@.take(l.materials.len() as int) =~= l.materials@);
    assert(out@.map_values(|s: String| s@) =~= materials_texts(l));
    out
}

/// Writes the lines of the step at position `i`.
fn step_lines(i: usize, st: &StepLine) -> (r: Vec<String>)
    requires
        i < usize::MAX,
    ensures
        r@.map_values(|s: String| s@) == step_texts(i as int, *st),
{
    let mut line = concat_texts("  ", decimal_text(i + 1).as_str());
    append_text(&mut line, ". ");
    append_text(&mut line, shown_or(&st.process, "(unlinked)").as_str());
    append_text(&mut line, " [");
    append_text(&mut line, st.status.as_str());
    append_text(&mut line, "]");
    append_suffix(&mut line, " - ", &st.completed);
    append_suffix(&mut line, " by ", &st.operator);
    let mut out: Vec<String> = Vec::new();
    out.push(line);
    match &st.notes {
        Some(n) => {
            if !is_empty_text(n.as_str()) {
                out.push(concat_texts("     ", n.as_str()));
            }
        },
        None => {},
    }
    assert(out@.map_values(|s: String| s@) =~= step_texts(i as int, *st));
    out
}

/// Writes the lines of the execution steps.
fn execution_lines(l: &LotDisplay) -> (r: Vec<String>)
    requires
        l.steps.len() < usize::MAX,
    ensures
        r@.map_values(|s: String| s@) == execution_texts(l),
{
    let mut out: Vec<String> = Vec::new();
    if l.steps.len() == 0 {
        assert(out@.map_values(|s: String| s@) =~= execution_texts(l));
        return out;
    }
    out.push(String::new());
    let mut head = concat_texts("Execution Steps (", decimal_text(l.steps.len()).as_str());
    append_text(&mut head, "):");
    out.push(head);
    let ghost f2 = out@.map_values(|s: String| s@);
    let mut i: usize = 0;
    while i < l.steps.len()
        invariant
            i <= l.steps.len(),
            l.steps.len() < usize::MAX,
            out@.map_values(|s: String| s@) == f2 + steps_texts(l.steps@, i as int),
        decreases l.steps.len() - i,
    {
        let more = step_lines(i, &l.steps[i]);
        extend_lines(&mut out, &more);
        assert(f2 + steps_texts(l.steps@, i as int + 1) =~= f2 + steps_texts(l.steps@, i as int) + step_texts(i as int, l.steps@[i as int]));
        i = i + 1;
    }
    assert(out@.map_values(|s: String| s@) =~= execution_texts(l));
    out
}

/// Writes the lines of the links.
fn links_lines(l: &LotDisplay) -> (r: Vec<String>)
    ensures
        r@.map_values(|s: String| s@) == links_texts(l),
{
    let mut out: Vec<String> = Vec::new();
    if !(l.product.is_some() || l.processes.len() > 0 || l.ncrs.len() > 0 || l.other_links) {
        assert(out@.map_values(|s: String| s@) =~= links_texts(l));
        return out;
    }
    out.push(String::new());
    out.push("Links:".to_owned());
    push_labelled(&mut out, "  Product: ", &l.product);
    let ghost h = out@.map_values(|s: String| s@);
    if l.processes.len() > 0 {
        out.push(concat_texts("  Processes: ", join_strings(&l.processes, ", ").as_str()));
    }
    let ghost h2 = out@.map_values(|s: String| s@);
    assert(h2 =~= h + (if l.processes@.len() > 0 {
        seq!["  Processes: "@ + joined(l.processes@.map_values(|x: String| x@), ", "@)]
    } else {
        seq![]
    }));
    if l.ncrs.len() > 0 {
        out.push(concat_texts("  NCRs: ", join_strings(&l.ncrs, ", ").as_str()));
    }
    assert(out@.map_values(|s: String| s@) =~= h2 + (if l.ncrs@.len() > 0 {
        seq!["  NCRs: "@ + joined(l.ncrs@.map_values(|x: String| x@), ", "@)]
    } else {
        seq![]
    }));
    assert(out@.map_values(|s: String| s@) =~= links_texts(l));
    out
}

/// Writes the lines of the notes.
fn notes_lines(notes: &Option<String>) -> (r: Vec<String>)
    ensures
        r@.map_values(|s: String| s@) == notes_texts(*notes),
{
    let mut out: Vec<String> = Vec::new();
    match notes {
        Some(n) => {
            let cs = chars_of(n.as_str());
            if cs.len() > 0 && cs[0] != '#' {
                out.push(String::new());
                out.push("Notes:".to_owned());
                out.push(n.clone());
            }
        },
        None => {},
    }
    assert(out@.map_values(|s: String| s@) =~= notes_texts(*notes));
    out
}

/// Writes the last lines of the display.
fn footer_lines(l: &LotDisplay) -> (r: Vec<String>)
    ensures
        r@.map_values(|s: String| s@) == footer_texts(l),
{
    let mut out: Vec<String> = Vec::new();
    out.push(rule_line());
    let mut footer = concat_texts("Author: ", l.author.as_str());
    append_text(&mut footer, " | Created: ");
    append_text(&mut footer, l.created.as_str());
    append_text(&mut footer, " | Revision: ");
    append_text(&mut footer, decimal_text(l.revision as usize).as_str());
    out.push(footer);
    assert(out@.map_values(|s: String| s@) =~= footer_texts(l));
    out
}

/// Writes what `lot show` displays for a lot, one text per line.
pub fn lot_display_lines(l: &LotDisplay) -> (r: Vec<String>)
    requires
        l.steps.len() < usize::MAX,
    ensures
        r@.map_values(|s: String| s@) == lot_display_texts(l),
{
    let mut out = head_lines(l);
    extend_lines(&mut out, &material_lines(l));
    extend_lines(&mut out, &execution_lines(l));
    extend_lines(&mut out, &links_lines(l));
    extend_lines(&mut out, &notes_lines(&l.notes));
    extend_lines(&mut out, &footer_lines(l));
    out
}
} // verus!
