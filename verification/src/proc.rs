//! Manufacturing processes: their kinds as typed on the command line, and
//! which processes a listing shows, in which order.

use vstd::prelude::*;
use crate::assembly::{status_debug_name, status_debug_text};
use crate::common::{instant, is_recent, text_or_empty, time_key, within_recent_window, Timestamp};
use crate::entities::{ProcessType, Status};
use crate::listing::{SortKey, SortKeyView};
use crate::args::{is_full_record_format, OutputFormat};
use crate::assembly::{cuts_at, cuts_cleanly};
use crate::helpers::{csv_field, dash_rule, dashes, escape_csv, shown_or, text_or, truncate_str, truncated_form};
use crate::text::{append_text, concat_texts, contains_ignore_case, contains_ignoring_case, decimal, decimal_text, pad_right, padded};

verus! {

/// CLI-friendly process type enum
#[derive(Debug, Clone, Copy, PartialEq, Eq, Structural)]
pub enum CliProcessType {
    Machining,
    Assembly,
    Inspection,
    Test,
    Finishing,
    Packaging,
    Handling,
    HeatTreat,
    Welding,
    Coating,
}

/// Process type filter
#[derive(Debug, Clone, Copy, PartialEq, Eq, Structural)]
pub enum ProcessTypeFilter {
    Machining,
    Assembly,
    Inspection,
    Test,
    Finishing,
    Packaging,
    Handling,
    HeatTreat,
    Welding,
    Coating,
    All,
}

/// Status filter
#[derive(Debug, Clone, Copy, PartialEq, Eq, Structural)]
pub enum StatusFilter {
    Draft,
    Review,
    Approved,
    Released,
    Obsolete,
    All,
}

pub struct ListArgs {
    /// Filter by process type
    pub kind: ProcessTypeFilter,

    /// Filter by status
    pub status: StatusFilter,

    /// Filter by author
    pub author: Option<String>,

    /// Show only recent processes (last 30 days)
    pub recent: bool,

    /// Search in title and description
    pub search: Option<String>,

    /// Sort by column
    pub sort: ListColumn,

    /// Reverse sort order
    pub reverse: bool,

    /// Columns to display (comma-separated)
    pub columns: Vec<ListColumn>,

    /// Limit number of results
    pub limit: Option<usize>,

    /// Show only count
    pub count: bool,
}

/// Column selection for list output
#[derive(Debug, Clone, Copy, PartialEq, Eq, Structural)]
pub enum ListColumn {
    Id,
    Title,
    ProcessType,
    Operation,
    Status,
    Author,
    Created,
}

#[derive(Debug, Clone, Copy, PartialEq, Eq, Structural)]
pub enum SortField {
    Title,
    Type,
    Status,
    Created,
}

pub struct ShowArgs {
    /// Process ID or short ID (PROC@N)
    pub id: String,
}

pub struct EditArgs {
    /// Process ID or short ID (PROC@N)
    pub id: String,
}

impl CliProcessType {
    /// The name this value is written as.
    pub open spec fn display_text(self) -> Seq<char> {
        match self {
            CliProcessType::Machining => "machining"@,
            CliProcessType::Assembly => "assembly"@,
            CliProcessType::Inspection => "inspection"@,
            CliProcessType::Test => "test"@,
            CliProcessType::Finishing => "finishing"@,
            CliProcessType::Packaging => "packaging"@,
            CliProcessType::Handling => "handling"@,
            CliProcessType::HeatTreat => "heat_treat"@,
            CliProcessType::Welding => "welding"@,
            CliProcessType::Coating => "coating"@,
        }
    }

    /// The name this value is written as.
    pub fn as_str(&self) -> (r: &'static str)
        ensures
            r@ == self.display_text(),
    {
        match self {
            CliProcessType::Machining => "machining",
            CliProcessType::Assembly => "assembly",
            CliProcessType::Inspection => "inspection",
            CliProcessType::Test => "test",
            CliProcessType::Finishing => "finishing",
            CliProcessType::Packaging => "packaging",
            CliProcessType::Handling => "handling",
            CliProcessType::HeatTreat => "heat_treat",
            CliProcessType::Welding => "welding",
            CliProcessType::Coating => "coating",
        }
    }
}

impl ListColumn {
    /// The name this value is written as.
    pub open spec fn display_text(self) -> Seq<char> {
        match self {
            ListColumn::Id => "id"@,
            ListColumn::Title => "title"@,
            ListColumn::ProcessType => "process-type"@,
            ListColumn::Operation => "operation"@,
            ListColumn::Status => "status"@,
            ListColumn::Author => "author"@,
            ListColumn::Created => "created"@,
        }
    }

    /// The name this value is written as.
    pub fn as_str(&self) -> (r: &'static str)
        ensures
            r@ == self.display_text(),
    {
        match self {
            ListColumn::Id => "id",
            ListColumn::Title => "title",
            ListColumn::ProcessType => "process-type",
            ListColumn::Operation => "operation",
            ListColumn::Status => "status",
            ListColumn::Author => "author",
            ListColumn::Created => "created",
        }
    }
}

impl From<CliProcessType> for ProcessType {
    fn from(cli: CliProcessType) -> (r: ProcessType) {
        match cli {
            CliProcessType::Machining => ProcessType::Machining,
            CliProcessType::Assembly => ProcessType::Assembly,
            CliProcessType::Inspection => ProcessType::Inspection,
            CliProcessType::Test => ProcessType::Test,
            CliProcessType::Finishing => ProcessType::Finishing,
            CliProcessType::Packaging => ProcessType::Packaging,
            CliProcessType::Handling => ProcessType::Handling,
            CliProcessType::HeatTreat => ProcessType::HeatTreat,
            CliProcessType::Welding => ProcessType::Welding,
            CliProcessType::Coating => ProcessType::Coating,
        }
    }
}

impl vstd::std_specs::convert::FromSpecImpl<CliProcessType> for ProcessType {
    open spec fn obeys_from_spec() -> bool {
        true
    }

    open spec fn from_spec(cli: CliProcessType) -> ProcessType {
        match cli {
            CliProcessType::Machining => ProcessType::Machining,
            CliProcessType::Assembly => ProcessType::Assembly,
            CliProcessType::Inspection => ProcessType::Inspection,
            CliProcessType::Test => ProcessType::Test,
            CliProcessType::Finishing => ProcessType::Finishing,
            CliProcessType::Packaging => ProcessType::Packaging,
            CliProcessType::Handling => ProcessType::Handling,
            CliProcessType::HeatTreat => ProcessType::HeatTreat,
            CliProcessType::Welding => ProcessType::Welding,
            CliProcessType::Coating => ProcessType::Coating,
        }
    }
}


/// What the process list reads of a process.
pub struct ProcessSummary {
    pub id: String,
    pub title: String,
    pub author: String,
    pub process_type: ProcessType,
    pub operation_number: Option<String>,
    pub status: Status,
    pub description: Option<String>,
    pub created: Timestamp,
}

/// The process has the kind a filter asks for.
pub open spec fn process_type_matches(f: ProcessTypeFilter, t: ProcessType) -> bool {
    match f {
        ProcessTypeFilter::Machining => t == ProcessType::Machining,
        ProcessTypeFilter::Assembly => t == ProcessType::Assembly,
        ProcessTypeFilter::Inspection => t == ProcessType::Inspection,
        ProcessTypeFilter::Test => t == ProcessType::Test,
        ProcessTypeFilter::Finishing => t == ProcessType::Finishing,
        ProcessTypeFilter::Packaging => t == ProcessType::Packaging,
        ProcessTypeFilter::Handling => t == ProcessType::Handling,
        ProcessTypeFilter::HeatTreat => t == ProcessType::HeatTreat,
        ProcessTypeFilter::Welding => t == ProcessType::Welding,
        ProcessTypeFilter::Coating => t == ProcessType::Coating,
        ProcessTypeFilter::All => true,
    }
}

/// The name of the value a `ProcessTypeFilter` asks for (the filter's own variant
/// name).
pub open spec fn process_type_filter_name(f: ProcessTypeFilter) -> Seq<char> {
    match f {
        ProcessTypeFilter::Machining => "Machining"@,
        ProcessTypeFilter::Assembly => "Assembly"@,
        ProcessTypeFilter::Inspection => "Inspection"@,
        ProcessTypeFilter::Test => "Test"@,
        ProcessTypeFilter::Finishing => "Finishing"@,
        ProcessTypeFilter::Packaging => "Packaging"@,
        ProcessTypeFilter::Handling => "Handling"@,
        ProcessTypeFilter::HeatTreat => "HeatTreat"@,
        ProcessTypeFilter::Welding => "Welding"@,
        ProcessTypeFilter::Coating => "Coating"@,
        ProcessTypeFilter::All => "All"@,
    }
}

/// A filter other than `All` keeps exactly the values whose name is the
/// filter's; `All` keeps every value.
pub proof fn law_process_type_filter_keeps_its_value(f: ProcessTypeFilter, v: ProcessType)
    ensures
        f != ProcessTypeFilter::All ==> (process_type_matches(f, v) <==> process_type_debug_name(v) == process_type_filter_name(f)),
        f == ProcessTypeFilter::All ==> process_type_matches(f, v),
{
    reveal_strlit("Machining");
    reveal_strlit("Assembly");
    reveal_strlit("Inspection");
    reveal_strlit("Test");
    reveal_strlit("Finishing");
    reveal_strlit("Packaging");
    reveal_strlit("Handling");
    reveal_strlit("HeatTreat");
    reveal_strlit("Welding");
    reveal_strlit("Coating");
    reveal_strlit("All");
    assert("Machining"@.len() == 9 && "Machining"@[0] == 'M');
    assert("Assembly"@.len() == 8 && "Assembly"@[0] == 'A');
    assert("Inspection"@.len() == 10);
    assert("Test"@.len() == 4);
    assert("Finishing"@.len() == 9 && "Finishing"@[0] == 'F');
    assert("Packaging"@.len() == 9 && "Packaging"@[0] == 'P');
    assert("Handling"@.len() == 8 && "Handling"@[0] == 'H');
    assert("HeatTreat"@.len() == 9 && "HeatTreat"@[0] == 'H');
    assert("Welding"@.len() == 7 && "Welding"@[0] == 'W');
    assert("Coating"@.len() == 7 && "Coating"@[0] == 'C');
    assert("All"@.len() == 3);
}


/// The process has the status a filter asks for.
pub open spec fn status_matches(f: StatusFilter, s: Status) -> bool {
    match f {
        StatusFilter::Draft => s == Status::Draft,
        StatusFilter::Review => s == Status::Review,
        StatusFilter::Approved => s == Status::Approved,
        StatusFilter::Released => s == Status::Released,
        StatusFilter::Obsolete => s == Status::Obsolete,
        StatusFilter::All => true,
    }
}

/// The name of the value a `StatusFilter` asks for (the filter's own variant
/// name).
pub open spec fn status_filter_name(f: StatusFilter) -> Seq<char> {
    match f {
        StatusFilter::Draft => "Draft"@,
        StatusFilter::Review => "Review"@,
        StatusFilter::Approved => "Approved"@,
        StatusFilter::Released => "Released"@,
        StatusFilter::Obsolete => "Obsolete"@,
        StatusFilter::All => "All"@,
    }
}

/// A filter other than `All` keeps exactly the values whose name is the
/// filter's; `All` keeps every value.
pub proof fn law_status_filter_keeps_its_value(f: StatusFilter, v: Status)
    ensures
        f != StatusFilter::All ==> (status_matches(f, v) <==> status_debug_name(v) == status_filter_name(f)),
        f == StatusFilter::All ==> status_matches(f, v),
{
    reveal_strlit("Draft");
    reveal_strlit("Review");
    reveal_strlit("Approved");
    reveal_strlit("Released");
    reveal_strlit("Obsolete");
    reveal_strlit("All");
    assert("Draft"@.len() == 5);
    assert("Review"@.len() == 6);
    assert("Approved"@.len() == 8 && "Approved"@[0] == 'A');
    assert("Released"@.len() == 8 && "Released"@[0] == 'R');
    assert("Obsolete"@.len() == 8 && "Obsolete"@[0] == 'O');
    assert("All"@.len() == 3);
}


/// The process passes every filter of `proc list`.
pub open spec fn process_listed(args: &ListArgs, p: &ProcessSummary, now: Timestamp) -> bool {
    &&& process_type_matches(args.kind, p.process_type)
    &&& status_matches(args.status, p.status)
    &&& (args.author matches Some(a) ==> contains_ignoring_case(p.author@, a@))
    &&& (args.recent ==> is_recent(p.created, now))
    &&& (args.search matches Some(s) ==> (contains_ignoring_case(p.title@, s@)
        || (p.description matches Some(d) && contains_ignoring_case(d@, s@))))
}

/// Whether `proc list` shows the process.
pub fn process_matches(args: &ListArgs, p: &ProcessSummary, now: Timestamp) -> (r: bool)
    ensures
        r == process_listed(args, p, now),
{
    let type_ok = match args.kind {
        ProcessTypeFilter::Machining => p.process_type == ProcessType::Machining,
        ProcessTypeFilter::Assembly => p.process_type == ProcessType::Assembly,
        ProcessTypeFilter::Inspection => p.process_type == ProcessType::Inspection,
        ProcessTypeFilter::Test => p.process_type == ProcessType::Test,
        ProcessTypeFilter::Finishing => p.process_type == ProcessType::Finishing,
        ProcessTypeFilter::Packaging => p.process_type == ProcessType::Packaging,
        ProcessTypeFilter::Handling => p.process_type == ProcessType::Handling,
        ProcessTypeFilter::HeatTreat => p.process_type == ProcessType::HeatTreat,
        ProcessTypeFilter::Welding => p.process_type == ProcessType::Welding,
        ProcessTypeFilter::Coating => p.process_type == ProcessType::Coating,
        ProcessTypeFilter::All => true,
    };
    let status_ok = match args.status {
        StatusFilter::Draft => p.status == Status::Draft,
        StatusFilter::Review => p.status == Status::Review,
        StatusFilter::Approved => p.status == Status::Approved,
        StatusFilter::Released => p.status == Status::Released,
        StatusFilter::Obsolete => p.status == Status::Obsolete,
        StatusFilter::All => true,
    };
    if !type_ok || !status_ok {
        return false;
    }
    if let Some(a) = &args.author {
        if !contains_ignore_case(p.author.as_str(), a.as_str()) {
            return false;
        }
    }
    if args.recent && !within_recent_window(p.created, now) {
        return false;
    }
    if let Some(s) = &args.search {
        let in_description = match &p.description {
            Some(d) => contains_ignore_case(d.as_str(), s.as_str()),
            None => false,
        };
        if !(contains_ignore_case(p.title.as_str(), s.as_str()) || in_description) {
            return false;
        }
    }
    true
}

/// The name a process kind has in its debug form.
pub open spec fn process_type_debug_name(t: ProcessType) -> Seq<char> {
    match t {
        ProcessType::Machining => "Machining"@,
        ProcessType::Assembly => "Assembly"@,
        ProcessType::Inspection => "Inspection"@,
        ProcessType::Test => "Test"@,
        ProcessType::Finishing => "Finishing"@,
        ProcessType::Packaging => "Packaging"@,
        ProcessType::Handling => "Handling"@,
        ProcessType::HeatTreat => "HeatTreat"@,
        ProcessType::Welding => "Welding"@,
        ProcessType::Coating => "Coating"@,
    }
}

/// The key a process is sorted by for a column.
pub open spec fn process_key(col: ListColumn, p: &ProcessSummary) -> SortKeyView {
    match col {
        ListColumn::Id => SortKeyView::Text(p.id@),
        ListColumn::Title => SortKeyView::Text(p.title@),
        ListColumn::ProcessType => SortKeyView::Text(process_type_debug_name(p.process_type)),
        ListColumn::Operation => SortKeyView::Text(text_or_empty(p.operation_number)),
        ListColumn::Status => SortKeyView::Text(status_debug_name(p.status)),
        ListColumn::Author => SortKeyView::Text(p.author@),
        ListColumn::Created => SortKeyView::Num(instant(p.created)),
    }
}

/// The sort key of a process for the chosen column.
pub fn process_sort_key(col: ListColumn, p: &ProcessSummary) -> (r: SortKey)
    ensures
        r@ == process_key(col, p),
{
    match col {
        ListColumn::Id => SortKey::text(p.id.as_str()),
        ListColumn::Title => SortKey::text(p.title.as_str()),
        ListColumn::ProcessType => SortKey::text(match p.process_type {
            ProcessType::Machining => "Machining",
            ProcessType::Assembly => "Assembly",
            ProcessType::Inspection => "Inspection",
            ProcessType::Test => "Test",
            ProcessType::Finishing => "Finishing",
            ProcessType::Packaging => "Packaging",
            ProcessType::Handling => "Handling",
            ProcessType::HeatTreat => "HeatTreat",
            ProcessType::Welding => "Welding",
            ProcessType::Coating => "Coating",
        }),
        ListColumn::Operation => match &p.operation_number {
            Some(o) => SortKey::text(o.as_str()),
            None => {
                proof {
                    reveal_strlit("");
                    assert(""@ =~= Seq::<char>::empty());
                }
                let r = SortKey::text("");
                assert(r@ == process_key(col, p));
                r
            },
        },
        ListColumn::Status => SortKey::text(status_debug_text(p.status)),
        ListColumn::Author => SortKey::text(p.author.as_str()),
        ListColumn::Created => time_key(p.created),
    }
}

/// A process as the list shows it (from the entity cache): each text as
/// stored, with the short form the caller found and the creation time
/// already written.
pub struct ProcessListRow {
    pub id: String,
    /// The process's short form, if it has one.
    pub short_id: Option<String>,
    pub title: String,
    /// The process type, as written.
    pub process_type: Option<String>,
    /// The status, as written.
    pub status: String,
    pub author: String,
    /// The creation time, as written.
    pub created: String,
}

/// The header of the CSV listing.
pub open spec fn process_csv_header() -> Seq<char> {
    "short_id,id,title,type,status"@
}

/// The CSV line of a process.
pub open spec fn process_csv_line(n: &ProcessListRow) -> Seq<char> {
    text_or(n.short_id, Seq::empty()) + ","@ + n.id@ + ","@ + csv_field(n.title@) + ","@ + text_or(n.process_type, Seq::empty()) + ","@
        + n.status@
}

/// The Markdown line of a process.
pub open spec fn process_md_line(n: &ProcessListRow) -> Seq<char> {
    "| "@ + text_or(n.short_id, Seq::empty()) + " | "@ + truncated_form(n.id@, 16) + " | "@ + n.title@ + " | "@
        + text_or(n.process_type, Seq::empty()) + " | "@ + n.status@ + " |"@
}

/// The width of a column in the table listing.
pub open spec fn process_width(c: ListColumn) -> nat {
    match c {
        ListColumn::Id => 17,
        ListColumn::Title => 30,
        ListColumn::ProcessType => 12,
        ListColumn::Operation => 10,
        ListColumn::Status => 10,
        ListColumn::Author => 16,
        ListColumn::Created => 20,
    }
}

/// The heading of a column in the table listing, before padding.
pub open spec fn process_heading(c: ListColumn) -> Seq<char> {
    match c {
        ListColumn::Id => "ID"@,
        ListColumn::Title => "TITLE"@,
        ListColumn::ProcessType => "TYPE"@,
        ListColumn::Operation => "OPERATION"@,
        ListColumn::Status => "STATUS"@,
        ListColumn::Author => "AUTHOR"@,
        ListColumn::Created => "CREATED"@,
    }
}

/// The cell of a process in a column of the table listing, before padding.
pub open spec fn process_cell(n: &ProcessListRow, c: ListColumn) -> Seq<char> {
    match c {
        ListColumn::Id => truncated_form(n.id@, 15),
        ListColumn::Title => truncated_form(n.title@, 28),
        ListColumn::ProcessType => text_or(n.process_type, Seq::empty()),
        ListColumn::Operation => "-"@,
        ListColumn::Status => n.status@,
        ListColumn::Author => truncated_form(n.author@, 14),
        ListColumn::Created => n.created@,
    }
}

/// The first `k` columns' texts, each padded to its width and followed by
/// a space.
pub open spec fn process_cells(cells: spec_fn(ListColumn) -> Seq<char>, cols: Seq<ListColumn>, k: int) -> Seq<char>
    decreases k,
{
    if k <= 0 {
        Seq::empty()
    } else {
        process_cells(cells, cols, k - 1) + padded(cells(cols[k - 1]), process_width(cols[k - 1]) as int) + " "@
    }
}

/// The sum of the widths of the first `k` columns.
pub open spec fn process_widths_sum(cols: Seq<ListColumn>, k: int) -> nat
    decreases k,
{
    if k <= 0 {
        0
    } else {
        process_widths_sum(cols, k - 1) + process_width(cols[k - 1])
    }
}

/// The length of the rule under the table header.
pub open spec fn process_rule_len(cols: Seq<ListColumn>) -> nat {
    8 + process_widths_sum(cols, cols.len() as int) + cols.len()
}

/// The header line of the table listing.
pub open spec fn process_table_header(cols: Seq<ListColumn>) -> Seq<char> {
    padded("SHORT"@, 8) + " "@ + process_cells(|c: ListColumn| process_heading(c), cols, cols.len() as int)
}

/// The line of a process in the table listing.
pub open spec fn process_table_line(n: &ProcessListRow, cols: Seq<ListColumn>) -> Seq<char> {
    padded(text_or(n.short_id, Seq::empty()), 8) + " "@ + process_cells(|c: ListColumn| process_cell(n, c), cols, cols.len() as int)
}

/// What `proc list` prints for the processes, one text per line: the count when
/// only that is asked for, a notice when there are none, else the lines of
/// the format.
pub open spec fn process_list_output(ns: Seq<ProcessListRow>, cols: Seq<ListColumn>, count: bool, format: OutputFormat) -> Seq<Seq<char>> {
    if count {
        seq![decimal(ns.len())]
    } else if ns.len() == 0 {
        seq!["No processes found."@]
    } else {
        match format {
            OutputFormat::Csv => seq![process_csv_header()] + ns.map_values(|n: ProcessListRow| process_csv_line(&n)),
            OutputFormat::Md => seq!["| Short | ID | Title | Type | Status |"@, "|---|---|---|---|---|"@]
                + ns.map_values(|n: ProcessListRow| process_md_line(&n)),
            OutputFormat::Id => ns.map_values(|n: ProcessListRow| n.id@),
            _ => seq![process_table_header(cols), dash_rule(process_rule_len(cols))]
                + ns.map_values(|n: ProcessListRow| process_table_line(&n, cols))
                + seq![Seq::empty(), decimal(ns.len()) + " process(es) found. Use PROC@N to reference by short ID."@],
        }
    }
}

/// The texts of a process that the table listing cuts can be cut cleanly.
pub open spec fn process_row_fits(n: &ProcessListRow) -> bool {
    &&& cuts_cleanly(n.id@, 15)
    &&& cuts_cleanly(n.title@, 28)
    &&& cuts_cleanly(n.author@, 14)
}

impl ProcessListRow {
    /// Whether the texts that the table listing cuts can be cut cleanly.
    pub fn fits(&self) -> (r: bool)
        ensures
            r == process_row_fits(self),
    {
        cuts_at(self.id.as_str(), 15) && cuts_at(self.title.as_str(), 28) && cuts_at(self.author.as_str(), 14)
    }
}

/// The CSV line of a process.
fn process_csv(n: &ProcessListRow) -> (r: String)
    ensures
        r@ == process_csv_line(n),
{
    proof {
        reveal_strlit("");
        assert(""@ =~= Seq::<char>::empty());
    }
    let mut r = shown_or(&n.short_id, "");
    append_text(&mut r, ",");
    append_text(&mut r, n.id.as_str());
    append_text(&mut r, ",");
    append_text(&mut r, escape_csv(n.title.as_str()).as_str());
    append_text(&mut r, ",");
    append_text(&mut r, shown_or(&n.process_type, "").as_str());
    append_text(&mut r, ",");
    append_text(&mut r, n.status.as_str());
    r
}

/// The Markdown line of a process.
fn process_md(n: &ProcessListRow) -> (r: String)
    requires
        cuts_cleanly(n.id@, 16),
    ensures
        r@ == process_md_line(n),
{
    proof {
        reveal_strlit("");
        assert(""@ =~= Seq::<char>::empty());
    }
    let mut r = concat_texts("| ", shown_or(&n.short_id, "").as_str());
    append_text(&mut r, " | ");
    append_text(&mut r, truncate_str(n.id.as_str(), 16).as_str());
    append_text(&mut r, " | ");
    append_text(&mut r, n.title.as_str());
    append_text(&mut r, " | ");
    append_text(&mut r, shown_or(&n.process_type, "").as_str());
    append_text(&mut r, " | ");
    append_text(&mut r, n.status.as_str());
    append_text(&mut r, " |");
    r
}

/// The width of a column.
fn column_width(c: ListColumn) -> (r: usize)
    ensures
        r == process_width(c),
{
    match c {
        ListColumn::Id => 17,
        ListColumn::Title => 30,
        ListColumn::ProcessType => 12,
        ListColumn::Operation => 10,
        ListColumn::Status => 10,
        ListColumn::Author => 16,
        ListColumn::Created => 20,
    }
}

/// The heading of a column, before padding.
fn column_heading(c: ListColumn) -> (r: &'static str)
    ensures
        r@ == process_heading(c),
{
    match c {
        ListColumn::Id => "ID",
        ListColumn::Title => "TITLE",
        ListColumn::ProcessType => "TYPE",
        ListColumn::Operation => "OPERATION",
        ListColumn::Status => "STATUS",
        ListColumn::Author => "AUTHOR",
        ListColumn::Created => "CREATED",
    }
}

/// The cell of a process in a column, before padding.
fn cell_text(n: &ProcessListRow, c: ListColumn) -> (r: String)
    requires
        process_row_fits(n),
    ensures
        r@ == process_cell(n, c),
{
    proof {
        reveal_strlit("");
        assert(""@ =~= Seq::<char>::empty());
    }
    match c {
        ListColumn::Id => truncate_str(n.id.as_str(), 15),
        ListColumn::Title => truncate_str(n.title.as_str(), 28),
        ListColumn::ProcessType => shown_or(&n.process_type, ""),
        ListColumn::Operation => "-".to_owned(),
        ListColumn::Status => n.status.clone(),
        ListColumn::Author => truncate_str(n.author.as_str(), 14),
        ListColumn::Created => n.created.clone(),
    }
}

/// The header line of the table listing.
fn process_header(cols: &Vec<ListColumn>) -> (r: String)
    ensures
        r@ == process_table_header(cols@),
{
    let mut r = pad_right("SHORT", 8);
    append_text(&mut r, " ");
    let ghost g = |c: ListColumn| process_heading(c);
    let mut i: usize = 0;
    while i < cols.len()
        invariant
            i <= cols.len(),
            g == (|c: ListColumn| process_heading(c)),
            r@ == padded("SHORT"@, 8) + " "@ + process_cells(g, cols@, i as int),
        decreases cols.len() - i,
    {
        append_text(&mut r, pad_right(column_heading(cols[i]), column_width(cols[i])).as_str());
        append_text(&mut r, " ");
        assert(r@ =~= padded("SHORT"@, 8) + " "@ + process_cells(g, cols@, i as int + 1));
        i = i + 1;
    }
    r
}

/// The line of a process in the table listing.
fn process_line(n: &ProcessListRow, cols: &Vec<ListColumn>) -> (r: String)
    requires
        process_row_fits(n),
    ensures
        r@ == process_table_line(n, cols@),
{
    proof {
        reveal_strlit("");
        assert(""@ =~= Seq::<char>::empty());
    }
    let mut r = pad_right(shown_or(&n.short_id, "").as_str(), 8);
    append_text(&mut r, " ");
    let ghost g = |c: ListColumn| process_cell(n, c);
    let mut i: usize = 0;
    while i < cols.len()
        invariant
            i <= cols.len(),
            process_row_fits(n),
            g == (|c: ListColumn| process_cell(n, c)),
            r@ == padded(text_or(n.short_id, Seq::empty()), 8) + " "@ + process_cells(g, cols@, i as int),
        decreases cols.len() - i,
    {
        append_text(&mut r, pad_right(cell_text(n, cols[i]).as_str(), column_width(cols[i])).as_str());
        append_text(&mut r, " ");
        assert(r@ =~= padded(text_or(n.short_id, Seq::empty()), 8) + " "@ + process_cells(g, cols@, i as int + 1));
        i = i + 1;
    }
    r
}

/// The sum of the widths of fewer columns is no larger.
proof fn lemma_process_widths_grow(cols: Seq<ListColumn>, m: int, k: int)
    requires
        0 <= m <= k <= cols.len(),
    ensures
        process_widths_sum(cols, m) + m <= process_widths_sum(cols, k) + k,
    decreases k - m,
{
    if m < k {
        lemma_process_widths_grow(cols, m, k - 1);
    }
}

/// The length of the rule under the table header.
fn rule_length(cols: &Vec<ListColumn>) -> (r: usize)
    requires
        process_rule_len(cols@) <= usize::MAX,
    ensures
        r == process_rule_len(cols@),
{
    let mut total: usize = 8;
    let mut i: usize = 0;
    while i < cols.len()
        invariant
            i <= cols.len(),
            process_rule_len(cols@) <= usize::MAX,
            total == 8 + process_widths_sum(cols@, i as int) + i,
        decreases cols.len() - i,
    {
        proof {
            lemma_process_widths_grow(cols@, i as int + 1, cols.len() as int);
        }
        total = total + column_width(cols[i]) + 1;
        i = i + 1;
    }
    total
}

/// Writes what `proc list` prints for the processes, one text per line.
pub fn process_list_lines(processes: &Vec<ProcessListRow>, columns: &Vec<ListColumn>, count: bool, format: OutputFormat) -> (r: Vec<String>)
    requires
        processes.len() > 0 && !count ==> !is_full_record_format(format) && format != OutputFormat::Auto && format != OutputFormat::ShortId,
        format == OutputFormat::Tsv ==> process_rule_len(columns@) <= usize::MAX,
        format == OutputFormat::Tsv ==> forall|i: int| 0 <= i < processes.len() ==> process_row_fits(#[trigger] &processes@[i]),
        format == OutputFormat::Md ==> forall|i: int| 0 <= i < processes.len() ==> cuts_cleanly((#[trigger] processes@[i]).id@, 16),
    ensures
        r@.map_values(|s: String| s@) == process_list_output(processes@, columns@, count, format),
{
    let mut out: Vec<String> = Vec::new();
    if count {
        out.push(decimal_text(processes.len()));
        proof {
            assert(out@.map_values(|s: String| s@) =~= process_list_output(processes@, columns@, count, format));
        }
        return out;
    }
    if processes.len() == 0 {
        out.push("No processes found.".to_owned());
        proof {
            assert(out@.map_values(|s: String| s@) =~= process_list_output(processes@, columns@, count, format));
        }
        return out;
    }
    let ghost head: Seq<Seq<char>> = match format {
        OutputFormat::Csv => seq![process_csv_header()],
        OutputFormat::Md => seq!["| Short | ID | Title | Type | Status |"@, "|---|---|---|---|---|"@],
        OutputFormat::Id => seq![],
        _ => seq![process_table_header(columns@), dash_rule(process_rule_len(columns@))],
    };
    let ghost line = |n: ProcessListRow| match format {
        OutputFormat::Csv => process_csv_line(&n),
        OutputFormat::Md => process_md_line(&n),
        OutputFormat::Id => n.id@,
        _ => process_table_line(&n, columns@),
    };
    match format {
        OutputFormat::Csv => {
            out.push("short_id,id,title,type,status".to_owned());
        },
        OutputFormat::Md => {
            out.push("| Short | ID | Title | Type | Status |".to_owned());
            out.push("|---|---|---|---|---|".to_owned());
        },
        OutputFormat::Id => {},
        _ => {
            out.push(process_header(columns));
            out.push(dashes(rule_length(columns)));
        },
    }
    assert(out@.map_values(|s: String| s@) =~= head);
    let mut i: usize = 0;
    while i < processes.len()
        invariant
            i <= processes.len(),
            processes.len() > 0 && !count,
            !is_full_record_format(format) && format != OutputFormat::Auto && format != OutputFormat::ShortId,
            format == OutputFormat::Tsv ==> forall|k: int| 0 <= k < processes.len() ==> process_row_fits(#[trigger] &processes@[k]),
            format == OutputFormat::Md ==> forall|k: int| 0 <= k < processes.len() ==> cuts_cleanly((#[trigger] processes@[k]).id@, 16),
            line == (|n: ProcessListRow| match format {
                OutputFormat::Csv => process_csv_line(&n),
                OutputFormat::Md => process_md_line(&n),
                OutputFormat::Id => n.id@,
                _ => process_table_line(&n, columns@),
            }),
            out@.map_values(|s: String| s@) == head + processes@.take(i as int).map_values(line),
        decreases processes.len() - i,
    {
        let n = &processes[i];
        let text = match format {
            OutputFormat::Csv => process_csv(n),
            OutputFormat::Md => process_md(n),
            OutputFormat::Id => n.id.clone(),
            _ => process_line(n, columns),
        };
        assert(text@ == line(processes@[i as int]));
        let ghost before = out@.map_values(|s: String| s@);
        out.push(text);
        assert(out@.map_values(|s: String| s@) =~= before.push(text@));
        assert(processes@.take(i as int + 1) =~= processes@.take(i as int).push(processes@[i as int]));
        assert(processes@.take(i as int + 1).map_values(line) =~= processes@.take(i as int).map_values(line).push(line(processes@[i as int])));
        i = i + 1;
    }
    assert(processes@.take(processes.len() as int) =~= processes@);
    match format {
        OutputFormat::Csv => {},
        OutputFormat::Md => {},
        OutputFormat::Id => {},
        _ => {
            let ghost before = out@.map_values(|s: String| s@);
            out.push(String::new());
            let mut footer = decimal_text(processes.len());
            append_text(&mut footer, " process(es) found. Use PROC@N to reference by short ID.");
            out.push(footer);
            assert(out@.map_values(|s: String| s@) =~= before + seq![Seq::<char>::empty(), decimal(processes.len() as nat) + " process(es) found. Use PROC@N to reference by short ID."@]);
        },
    }
    assert(out@.map_values(|s: String| s@) =~= process_list_output(processes@, columns@, count, format));
    out
}
} // verus!
