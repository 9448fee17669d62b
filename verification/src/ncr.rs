//! Non-conformance reports: their kinds and states as typed on the command
//! line, and which NCRs a listing shows, in which order.

use vstd::prelude::*;
use crate::args::{is_full_record_format, full_record_format, OutputFormat};
use crate::common::{instant, is_recent, time_key, within_recent_window, Timestamp};
use crate::entities::{NcrCategory, NcrSeverity, NcrStatus, NcrType};
use crate::listing::{SortKey, SortKeyView};
use crate::assembly::{cuts_at, cuts_cleanly};
use crate::helpers::{csv_field, dash_rule, dashes, escape_csv, shown_or, text_or, truncate_str, truncated_form};
use crate::text::{append_text, concat_texts, contains_ignore_case, contains_ignoring_case, decimal, decimal_text, pad_right, padded};

verus! {

/// CLI-friendly NCR type enum
#[derive(Debug, Clone, Copy, PartialEq, Eq, Structural)]
pub enum CliNcrType {
    Internal,
    Supplier,
    Customer,
}

/// CLI-friendly NCR severity enum
#[derive(Debug, Clone, Copy, PartialEq, Eq, Structural)]
pub enum CliNcrSeverity {
    Minor,
    Major,
    Critical,
}

/// CLI-friendly NCR category enum
#[derive(Debug, Clone, Copy, PartialEq, Eq, Structural)]
pub enum CliNcrCategory {
    Dimensional,
    Cosmetic,
    Material,
    Functional,
    Documentation,
    Process,
    Packaging,
}

/// NCR type filter
#[derive(Debug, Clone, Copy, PartialEq, Eq, Structural)]
pub enum NcrTypeFilter {
    Internal,
    Supplier,
    Customer,
    All,
}

/// Severity filter
#[derive(Debug, Clone, Copy, PartialEq, Eq, Structural)]
pub enum SeverityFilter {
    Minor,
    Major,
    Critical,
    All,
}

/// NCR status filter
#[derive(Debug, Clone, Copy, PartialEq, Eq, Structural)]
pub enum NcrStatusFilter {
    Open,
    Containment,
    Investigation,
    Disposition,
    Closed,
    All,
}

/// List column for display and sorting
#[derive(Debug, Clone, Copy, PartialEq, Eq, Structural)]
pub enum ListColumn {
    Id,
    Title,
    NcrType,
    Severity,
    Status,
    Author,
    Created,
}

pub struct ListArgs {
    /// Filter by NCR type
    pub kind: NcrTypeFilter,

    /// Filter by severity
    pub severity: SeverityFilter,

    /// Filter by NCR status
    pub ncr_status: NcrStatusFilter,

    /// Filter by author
    pub author: Option<String>,

    /// Show only recent NCRs (last 30 days)
    pub recent: bool,

    /// Search in title and description
    pub search: Option<String>,

    /// Show only open NCRs (status != closed) - shortcut filter
    pub open: bool,

    /// Columns to display
    pub columns: Vec<ListColumn>,

    /// Sort by column
    pub sort: ListColumn,

    /// Reverse sort order
    pub reverse: bool,

    /// Limit number of results
    pub limit: Option<usize>,

    /// Show only count
    pub count: bool,
}

pub struct ShowArgs {
    /// NCR ID or short ID (NCR@N)
    pub id: String,
}

pub struct EditArgs {
    /// NCR ID or short ID (NCR@N)
    pub id: String,
}

impl CliNcrType {
    /// The name this value is written as.
    pub open spec fn display_text(self) -> Seq<char> {
        match self {
            CliNcrType::Internal => "internal"@,
            CliNcrType::Supplier => "supplier"@,
            CliNcrType::Customer => "customer"@,
        }
    }

    /// The name this value is written as.
    pub fn as_str(&self) -> (r: &'static str)
        ensures
            r@ == self.display_text(),
    {
        match self {
            CliNcrType::Internal => "internal",
            CliNcrType::Supplier => "supplier",
            CliNcrType::Customer => "customer",
        }
    }
}

impl CliNcrSeverity {
    /// The name this value is written as.
    pub open spec fn display_text(self) -> Seq<char> {
        match self {
            CliNcrSeverity::Minor => "minor"@,
            CliNcrSeverity::Major => "major"@,
            CliNcrSeverity::Critical => "critical"@,
        }
    }

    /// The name this value is written as.
    pub fn as_str(&self) -> (r: &'static str)
        ensures
            r@ == self.display_text(),
    {
        match self {
            CliNcrSeverity::Minor => "minor",
            CliNcrSeverity::Major => "major",
            CliNcrSeverity::Critical => "critical",
        }
    }
}

impl CliNcrCategory {
    /// The name this value is written as.
    pub open spec fn display_text(self) -> Seq<char> {
        match self {
            CliNcrCategory::Dimensional => "dimensional"@,
            CliNcrCategory::Cosmetic => "cosmetic"@,
            CliNcrCategory::Material => "material"@,
            CliNcrCategory::Functional => "functional"@,
            CliNcrCategory::Documentation => "documentation"@,
            CliNcrCategory::Process => "process"@,
            CliNcrCategory::Packaging => "packaging"@,
        }
    }

    /// The name this value is written as.
    pub fn as_str(&self) -> (r: &'static str)
        ensures
            r@ == self.display_text(),
    {
        match self {
            CliNcrCategory::Dimensional => "dimensional",
            CliNcrCategory::Cosmetic => "cosmetic",
            CliNcrCategory::Material => "material",
            CliNcrCategory::Functional => "functional",
            CliNcrCategory::Documentation => "documentation",
            CliNcrCategory::Process => "process",
            CliNcrCategory::Packaging => "packaging",
        }
    }
}

impl ListColumn {
    /// The name this value is written as.
    pub open spec fn display_text(self) -> Seq<char> {
        match self {
            ListColumn::Id => "id"@,
            ListColumn::Title => "title"@,
            ListColumn::NcrType => "ncr-type"@,
            ListColumn::Severity => "severity"@,
            ListColumn::Status => "status"@,
            ListColumn::Author => "author"@,
            ListColumn::Created => "created"@,
        }
    }

    /// The name this value is written as.
    pub fn as_str(&self) -> (r: &'static str)
        ensures
            r@ == self.display_text(),
    {
        match self {
            ListColumn::Id => "id",
            ListColumn::Title => "title",
            ListColumn::NcrType => "ncr-type",
            ListColumn::Severity => "severity",
            ListColumn::Status => "status",
            ListColumn::Author => "author",
            ListColumn::Created => "created",
        }
    }
}

impl From<CliNcrType> for NcrType {
    fn from(cli: CliNcrType) -> (r: NcrType) {
        match cli {
            CliNcrType::Internal => NcrType::Internal,
            CliNcrType::Supplier => NcrType::Supplier,
            CliNcrType::Customer => NcrType::Customer,
        }
    }
}

impl vstd::std_specs::convert::FromSpecImpl<CliNcrType> for NcrType {
    open spec fn obeys_from_spec() -> bool {
        true
    }

    open spec fn from_spec(cli: CliNcrType) -> NcrType {
        match cli {
            CliNcrType::Internal => NcrType::Internal,
            CliNcrType::Supplier => NcrType::Supplier,
            CliNcrType::Customer => NcrType::Customer,
        }
    }
}

impl From<CliNcrSeverity> for NcrSeverity {
    fn from(cli: CliNcrSeverity) -> (r: NcrSeverity) {
        match cli {
            CliNcrSeverity::Minor => NcrSeverity::Minor,
            CliNcrSeverity::Major => NcrSeverity::Major,
            CliNcrSeverity::Critical => NcrSeverity::Critical,
        }
    }
}

impl vstd::std_specs::convert::FromSpecImpl<CliNcrSeverity> for NcrSeverity {
    open spec fn obeys_from_spec() -> bool {
        true
    }

    open spec fn from_spec(cli: CliNcrSeverity) -> NcrSeverity {
        match cli {
            CliNcrSeverity::Minor => NcrSeverity::Minor,
            CliNcrSeverity::Major => NcrSeverity::Major,
            CliNcrSeverity::Critical => NcrSeverity::Critical,
        }
    }
}

impl From<CliNcrCategory> for NcrCategory {
    fn from(cli: CliNcrCategory) -> (r: NcrCategory) {
        match cli {
            CliNcrCategory::Dimensional => NcrCategory::Dimensional,
            CliNcrCategory::Cosmetic => NcrCategory::Cosmetic,
            CliNcrCategory::Material => NcrCategory::Material,
            CliNcrCategory::Functional => NcrCategory::Functional,
            CliNcrCategory::Documentation => NcrCategory::Documentation,
            CliNcrCategory::Process => NcrCategory::Process,
            CliNcrCategory::Packaging => NcrCategory::Packaging,
        }
    }
}

impl vstd::std_specs::convert::FromSpecImpl<CliNcrCategory> for NcrCategory {
    open spec fn obeys_from_spec() -> bool {
        true
    }

    open spec fn from_spec(cli: CliNcrCategory) -> NcrCategory {
        match cli {
            CliNcrCategory::Dimensional => NcrCategory::Dimensional,
            CliNcrCategory::Cosmetic => NcrCategory::Cosmetic,
            CliNcrCategory::Material => NcrCategory::Material,
            CliNcrCategory::Functional => NcrCategory::Functional,
            CliNcrCategory::Documentation => NcrCategory::Documentation,
            CliNcrCategory::Process => NcrCategory::Process,
            CliNcrCategory::Packaging => NcrCategory::Packaging,
        }
    }
}


/// What the NCR list reads of an NCR.
pub struct NcrSummary {
    pub id: String,
    pub title: String,
    pub author: String,
    pub ncr_type: NcrType,
    pub severity: NcrSeverity,
    pub ncr_status: NcrStatus,
    pub description: Option<String>,
    pub ncr_number: Option<String>,
    pub created: Timestamp,
}

/// The NCR has the type a filter asks for.
pub open spec fn ncr_type_matches(f: NcrTypeFilter, t: NcrType) -> bool {
    match f {
        NcrTypeFilter::Internal => t == NcrType::Internal,
        NcrTypeFilter::Supplier => t == NcrType::Supplier,
        NcrTypeFilter::Customer => t == NcrType::Customer,
        NcrTypeFilter::All => true,
    }
}

/// The name of the value a `NcrTypeFilter` asks for (the filter's own variant
/// name).
pub open spec fn ncr_type_filter_name(f: NcrTypeFilter) -> Seq<char> {
    match f {
        NcrTypeFilter::Internal => "Internal"@,
        NcrTypeFilter::Supplier => "Supplier"@,
        NcrTypeFilter::Customer => "Customer"@,
        NcrTypeFilter::All => "All"@,
    }
}

/// A filter other than `All` keeps exactly the values whose name is the
/// filter's; `All` keeps every value.
pub proof fn law_ncr_type_filter_keeps_its_value(f: NcrTypeFilter, v: NcrType)
    ensures
        f != NcrTypeFilter::All ==> (ncr_type_matches(f, v) <==> ncr_type_debug_name(v) == ncr_type_filter_name(f)),
        f == NcrTypeFilter::All ==> ncr_type_matches(f, v),
{
    reveal_strlit("Internal");
    reveal_strlit("Supplier");
    reveal_strlit("Customer");
    reveal_strlit("All");
    assert("Internal"@.len() == 8 && "Internal"@[0] == 'I');
    assert("Supplier"@.len() == 8 && "Supplier"@[0] == 'S');
    assert("Customer"@.len() == 8 && "Customer"@[0] == 'C');
    assert("All"@.len() == 3);
}


/// The NCR has the severity a filter asks for.
pub open spec fn severity_matches(f: SeverityFilter, s: NcrSeverity) -> bool {
    match f {
        SeverityFilter::Minor => s == NcrSeverity::Minor,
        SeverityFilter::Major => s == NcrSeverity::Major,
        SeverityFilter::Critical => s == NcrSeverity::Critical,
        SeverityFilter::All => true,
    }
}

/// The name of the value a `SeverityFilter` asks for (the filter's own variant
/// name).
pub open spec fn severity_filter_name(f: SeverityFilter) -> Seq<char> {
    match f {
        SeverityFilter::Minor => "Minor"@,
        SeverityFilter::Major => "Major"@,
        SeverityFilter::Critical => "Critical"@,
        SeverityFilter::All => "All"@,
    }
}

/// A filter other than `All` keeps exactly the values whose name is the
/// filter's; `All` keeps every value.
pub proof fn law_severity_filter_keeps_its_value(f: SeverityFilter, v: NcrSeverity)
    ensures
        f != SeverityFilter::All ==> (severity_matches(f, v) <==> severity_debug_name(v) == severity_filter_name(f)),
        f == SeverityFilter::All ==> severity_matches(f, v),
{
    reveal_strlit("Minor");
    reveal_strlit("Major");
    reveal_strlit("Critical");
    reveal_strlit("All");
    assert("Minor"@.len() == 5 && "Minor"@[1] == 'i');
    assert("Major"@.len() == 5 && "Major"@[1] == 'a');
    assert("Critical"@.len() == 8);
    assert("All"@.len() == 3);
}


/// The NCR has the status a filter asks for.
pub open spec fn ncr_status_matches(f: NcrStatusFilter, s: NcrStatus) -> bool {
    match f {
        NcrStatusFilter::Open => s == NcrStatus::Open,
        NcrStatusFilter::Containment => s == NcrStatus::Containment,
        NcrStatusFilter::Investigation => s == NcrStatus::Investigation,
        NcrStatusFilter::Disposition => s == NcrStatus::Disposition,
        NcrStatusFilter::Closed => s == NcrStatus::Closed,
        NcrStatusFilter::All => true,
    }
}

/// The name of the value a `NcrStatusFilter` asks for (the filter's own variant
/// name).
pub open spec fn ncr_status_filter_name(f: NcrStatusFilter) -> Seq<char> {
    match f {
        NcrStatusFilter::Open => "Open"@,
        NcrStatusFilter::Containment => "Containment"@,
        NcrStatusFilter::Investigation => "Investigation"@,
        NcrStatusFilter::Disposition => "Disposition"@,
        NcrStatusFilter::Closed => "Closed"@,
        NcrStatusFilter::All => "All"@,
    }
}

/// A filter other than `All` keeps exactly the values whose name is the
/// filter's; `All` keeps every value.
pub proof fn law_ncr_status_filter_keeps_its_value(f: NcrStatusFilter, v: NcrStatus)
    ensures
        f != NcrStatusFilter::All ==> (ncr_status_matches(f, v) <==> ncr_status_debug_name(v) == ncr_status_filter_name(f)),
        f == NcrStatusFilter::All ==> ncr_status_matches(f, v),
{
    reveal_strlit("Open");
    reveal_strlit("Containment");
    reveal_strlit("Investigation");
    reveal_strlit("Disposition");
    reveal_strlit("Closed");
    reveal_strlit("All");
    assert("Open"@.len() == 4);
    assert("Containment"@.len() == 11 && "Containment"@[0] == 'C');
    assert("Investigation"@.len() == 13);
    assert("Disposition"@.len() == 11 && "Disposition"@[0] == 'D');
    assert("Closed"@.len() == 6);
    assert("All"@.len() == 3);
}


/// The NCR passes every filter of `ncr list`.
pub open spec fn ncr_listed(args: &ListArgs, n: &NcrSummary, now: Timestamp) -> bool {
    &&& ncr_type_matches(args.kind, n.ncr_type)
    &&& severity_matches(args.severity, n.severity)
    &&& ncr_status_matches(args.ncr_status, n.ncr_status)
    &&& (args.author matches Some(a) ==> contains_ignoring_case(n.author@, a@))
    &&& (args.recent ==> is_recent(n.created, now))
    &&& (args.search matches Some(s) ==> (contains_ignoring_case(n.title@, s@)
        || (n.description matches Some(d) && contains_ignoring_case(d@, s@))
        || (n.ncr_number matches Some(x) && contains_ignoring_case(x@, s@))))
    &&& (args.open ==> n.ncr_status != NcrStatus::Closed)
}

/// Whether `ncr list` shows the NCR.
pub fn ncr_matches(args: &ListArgs, n: &NcrSummary, now: Timestamp) -> (r: bool)
    ensures
        r == ncr_listed(args, n, now),
{
    let type_ok = match args.kind {
        NcrTypeFilter::Internal => n.ncr_type == NcrType::Internal,
        NcrTypeFilter::Supplier => n.ncr_type == NcrType::Supplier,
        NcrTypeFilter::Customer => n.ncr_type == NcrType::Customer,
        NcrTypeFilter::All => true,
    };
    let severity_ok = match args.severity {
        SeverityFilter::Minor => n.severity == NcrSeverity::Minor,
        SeverityFilter::Major => n.severity == NcrSeverity::Major,
        SeverityFilter::Critical => n.severity == NcrSeverity::Critical,
        SeverityFilter::All => true,
    };
    let status_ok = match args.ncr_status {
        NcrStatusFilter::Open => n.ncr_status == NcrStatus::Open,
        NcrStatusFilter::Containment => n.ncr_status == NcrStatus::Containment,
        NcrStatusFilter::Investigation => n.ncr_status == NcrStatus::Investigation,
        NcrStatusFilter::Disposition => n.ncr_status == NcrStatus::Disposition,
        NcrStatusFilter::Closed => n.ncr_status == NcrStatus::Closed,
        NcrStatusFilter::All => true,
    };
    if !type_ok || !severity_ok || !status_ok {
        return false;
    }
    if let Some(a) = &args.author {
        if !contains_ignore_case(n.author.as_str(), a.as_str()) {
            return false;
        }
    }
    if args.recent && !within_recent_window(n.created, now) {
        return false;
    }
    if let Some(s) = &args.search {
        let in_description = match &n.description {
            Some(d) => contains_ignore_case(d.as_str(), s.as_str()),
            None => false,
        };
        let in_number = match &n.ncr_number {
            Some(x) => contains_ignore_case(x.as_str(), s.as_str()),
            None => false,
        };
        if !(contains_ignore_case(n.title.as_str(), s.as_str()) || in_description || in_number) {
            return false;
        }
    }
    if args.open && n.ncr_status == NcrStatus::Closed {
        return false;
    }
    true
}

/// The listing can be answered from the entity cache.
pub open spec fn ncr_cache_serves(args: &ListArgs, format: OutputFormat) -> bool {
    !args.recent && args.search is None && !args.open && !is_full_record_format(format)
}

/// Whether `ncr list` may read the entity cache.
pub fn ncr_can_use_cache(args: &ListArgs, format: OutputFormat) -> (r: bool)
    ensures
        r == ncr_cache_serves(args, format),
{
    !args.recent && args.search.is_none() && !args.open && !full_record_format(format)
}

/// The name an NCR type has in its debug form.
pub open spec fn ncr_type_debug_name(t: NcrType) -> Seq<char> {
    match t {
        NcrType::Internal => "Internal"@,
        NcrType::Supplier => "Supplier"@,
        NcrType::Customer => "Customer"@,
    }
}

/// The name an NCR severity has in its debug form.
pub open spec fn severity_debug_name(s: NcrSeverity) -> Seq<char> {
    match s {
        NcrSeverity::Minor => "Minor"@,
        NcrSeverity::Major => "Major"@,
        NcrSeverity::Critical => "Critical"@,
    }
}

/// The name an NCR status has in its debug form.
pub open spec fn ncr_status_debug_name(s: NcrStatus) -> Seq<char> {
    match s {
        NcrStatus::Open => "Open"@,
        NcrStatus::Containment => "Containment"@,
        NcrStatus::Investigation => "Investigation"@,
        NcrStatus::Disposition => "Disposition"@,
        NcrStatus::Closed => "Closed"@,
    }
}

/// The key an NCR is sorted by for a column.
pub open spec fn ncr_key(col: ListColumn, n: &NcrSummary) -> SortKeyView {
    match col {
        ListColumn::Id => SortKeyView::Text(n.id@),
        ListColumn::Title => SortKeyView::Text(n.title@),
        ListColumn::NcrType => SortKeyView::Text(ncr_type_debug_name(n.ncr_type)),
        ListColumn::Severity => SortKeyView::Text(severity_debug_name(n.severity)),
        ListColumn::Status => SortKeyView::Text(ncr_status_debug_name(n.ncr_status)),
        ListColumn::Author => SortKeyView::Text(n.author@),
        ListColumn::Created => SortKeyView::Num(instant(n.created)),
    }
}

/// The sort key of an NCR for the chosen column.
pub fn ncr_sort_key(col: ListColumn, n: &NcrSummary) -> (r: SortKey)
    ensures
        r@ == ncr_key(col, n),
{
    match col {
        ListColumn::Id => SortKey::text(n.id.as_str()),
        ListColumn::Title => SortKey::text(n.title.as_str()),
        ListColumn::NcrType => SortKey::text(match n.ncr_type {
            NcrType::Internal => "Internal",
            NcrType::Supplier => "Supplier",
            NcrType::Customer => "Customer",
        }),
        ListColumn::Severity => SortKey::text(match n.severity {
            NcrSeverity::Minor => "Minor",
            NcrSeverity::Major => "Major",
            NcrSeverity::Critical => "Critical",
        }),
        ListColumn::Status => SortKey::text(match n.ncr_status {
            NcrStatus::Open => "Open",
            NcrStatus::Containment => "Containment",
            NcrStatus::Investigation => "Investigation",
            NcrStatus::Disposition => "Disposition",
            NcrStatus::Closed => "Closed",
        }),
        ListColumn::Author => SortKey::text(n.author.as_str()),
        ListColumn::Created => time_key(n.created),
    }
}


/// An NCR as the list shows it (from the entity cache): each text as
/// stored, with the short form the caller found and the creation time
/// already written.
pub struct NcrListRow {
    pub id: String,
    /// The NCR's short form, if it has one.
    pub short_id: Option<String>,
    pub title: String,
    pub ncr_type: Option<String>,
    pub severity: Option<String>,
    pub category: Option<String>,
    pub ncr_status: Option<String>,
    pub author: String,
    /// The creation time, as written.
    pub created: String,
}

/// The header of the CSV listing.
pub open spec fn ncr_csv_header() -> Seq<char> {
    "short_id,id,title,type,severity,category,ncr_status"@
}

/// The CSV line of an NCR.
pub open spec fn ncr_csv_line(n: &NcrListRow) -> Seq<char> {
    text_or(n.short_id, Seq::empty()) + ","@ + n.id@ + ","@ + csv_field(n.title@) + ","@ + text_or(n.ncr_type, Seq::empty()) + ","@
        + text_or(n.severity, Seq::empty()) + ","@ + text_or(n.category, Seq::empty()) + ","@ + text_or(n.ncr_status, Seq::empty())
}

/// The Markdown line of an NCR.
pub open spec fn ncr_md_line(n: &NcrListRow) -> Seq<char> {
    "| "@ + text_or(n.short_id, Seq::empty()) + " | "@ + truncated_form(n.id@, 16) + " | "@ + n.title@ + " | "@
        + text_or(n.ncr_type, Seq::empty()) + " | "@ + text_or(n.severity, Seq::empty()) + " | "@ + text_or(n.category, Seq::empty())
        + " | "@ + text_or(n.ncr_status, Seq::empty()) + " |"@
}

/// The width of a column in the table listing.
pub open spec fn ncr_width(c: ListColumn) -> nat {
    match c {
        ListColumn::Id => 17,
        ListColumn::Title => 26,
        ListColumn::NcrType => 10,
        ListColumn::Severity => 10,
        ListColumn::Status => 12,
        ListColumn::Author => 16,
        ListColumn::Created => 20,
    }
}

/// The heading of a column in the table listing, before padding.
pub open spec fn ncr_heading(c: ListColumn) -> Seq<char> {
    match c {
        ListColumn::Id => "ID"@,
        ListColumn::Title => "TITLE"@,
        ListColumn::NcrType => "TYPE"@,
        ListColumn::Severity => "SEVERITY"@,
        ListColumn::Status => "STATUS"@,
        ListColumn::Author => "AUTHOR"@,
        ListColumn::Created => "CREATED"@,
    }
}

/// The cell of an NCR in a column of the table listing, before padding.
pub open spec fn ncr_cell(n: &NcrListRow, c: ListColumn) -> Seq<char> {
    match c {
        ListColumn::Id => truncated_form(n.id@, 15),
        ListColumn::Title => truncated_form(n.title@, 24),
        ListColumn::NcrType => text_or(n.ncr_type, Seq::empty()),
        ListColumn::Severity => text_or(n.severity, Seq::empty()),
        ListColumn::Status => text_or(n.ncr_status, Seq::empty()),
        ListColumn::Author => truncated_form(n.author@, 14),
        ListColumn::Created => n.created@,
    }
}

/// The first `k` columns' texts, each padded to its width and followed by
/// a space.
pub open spec fn ncr_cells(cells: spec_fn(ListColumn) -> Seq<char>, cols: Seq<ListColumn>, k: int) -> Seq<char>
    decreases k,
{
    if k <= 0 {
        Seq::empty()
    } else {
        ncr_cells(cells, cols, k - 1) + padded(cells(cols[k - 1]), ncr_width(cols[k - 1]) as int) + " "@
    }
}

/// The sum of the widths of the first `k` columns.
pub open spec fn ncr_widths_sum(cols: Seq<ListColumn>, k: int) -> nat
    decreases k,
{
    if k <= 0 {
        0
    } else {
        ncr_widths_sum(cols, k - 1) + ncr_width(cols[k - 1])
    }
}

/// The length of the rule under the table header.
pub open spec fn ncr_rule_len(cols: Seq<ListColumn>) -> nat {
    8 + ncr_widths_sum(cols, cols.len() as int) + cols.len()
}

/// The header line of the table listing.
pub open spec fn ncr_table_header(cols: Seq<ListColumn>) -> Seq<char> {
    padded("SHORT"@, 8) + " "@ + ncr_cells(|c: ListColumn| ncr_heading(c), cols, cols.len() as int)
}

/// The line of an NCR in the table listing.
pub open spec fn ncr_table_line(n: &NcrListRow, cols: Seq<ListColumn>) -> Seq<char> {
    padded(text_or(n.short_id, Seq::empty()), 8) + " "@ + ncr_cells(|c: ListColumn| ncr_cell(n, c), cols, cols.len() as int)
}

/// What `ncr list` prints for the NCRs, one text per line: the count when
/// only that is asked for, a notice when there are none, else the lines of
/// the format.
pub open spec fn ncr_list_output(ns: Seq<NcrListRow>, cols: Seq<ListColumn>, count: bool, format: OutputFormat) -> Seq<Seq<char>> {
    if count {
        seq![decimal(ns.len())]
    } else if ns.len() == 0 {
        seq!["No NCRs found."@]
    } else {
        match format {
            OutputFormat::Csv => seq![ncr_csv_header()] + ns.map_values(|n: NcrListRow| ncr_csv_line(&n)),
            OutputFormat::Md => seq!["| Short | ID | Title | Type | Severity | Category | Status |"@, "|---|---|---|---|---|---|---|"@]
                + ns.map_values(|n: NcrListRow| ncr_md_line(&n)),
            OutputFormat::Id => ns.map_values(|n: NcrListRow| n.id@),
            _ => seq![ncr_table_header(cols), dash_rule(ncr_rule_len(cols))]
                + ns.map_values(|n: NcrListRow| ncr_table_line(&n, cols))
                + seq![Seq::empty(), decimal(ns.len()) + " NCR(s) found. Use NCR@N to reference by short ID."@],
        }
    }
}

/// The texts of an NCR that the table listing cuts can be cut cleanly.
pub open spec fn ncr_row_fits(n: &NcrListRow) -> bool {
    &&& cuts_cleanly(n.id@, 15)
    &&& cuts_cleanly(n.title@, 24)
    &&& cuts_cleanly(n.author@, 14)
}

impl NcrListRow {
    /// Whether the texts that the table listing cuts can be cut cleanly.
    pub fn fits(&self) -> (r: bool)
        ensures
            r == ncr_row_fits(self),
    {
        cuts_at(self.id.as_str(), 15) && cuts_at(self.title.as_str(), 24) && cuts_at(self.author.as_str(), 14)
    }
}

/// The CSV line of an NCR.
fn ncr_csv(n: &NcrListRow) -> (r: String)
    ensures
        r@ == ncr_csv_line(n),
{
    proof {
        reveal_strlit("");
        assert(""@ =~= Seq::<char>::empty());
    }
    let mut r = shown_or(&n.short_id, "");
    append_text(&mut r, ",");
    append_text(&mut r, n.id.as_str());
    append_text(&mut r, ",");
    append_text(&mut r, escape_csv(n.title.as_str()).as_str());
    append_text(&mut r, ",");
    append_text(&mut r, shown_or(&n.ncr_type, "").as_str());
    append_text(&mut r, ",");
    append_text(&mut r, shown_or(&n.severity, "").as_str());
    append_text(&mut r, ",");
    append_text(&mut r, shown_or(&n.category, "").as_str());
    append_text(&mut r, ",");
    append_text(&mut r, shown_or(&n.ncr_status, "").as_str());
    r
}

/// The Markdown line of an NCR.
fn ncr_md(n: &NcrListRow) -> (r: String)
    requires
        cuts_cleanly(n.id@, 16),
    ensures
        r@ == ncr_md_line(n),
{
    proof {
        reveal_strlit("");
        assert(""@ =~= Seq::<char>::empty());
    }
    let mut r = concat_texts("| ", shown_or(&n.short_id, "").as_str());
    append_text(&mut r, " | ");
    append_text(&mut r, truncate_str(n.id.as_str(), 16).as_str());
    append_text(&mut r, " | ");
    append_text(&mut r, n.title.as_str());
    append_text(&mut r, " | ");
    append_text(&mut r, shown_or(&n.ncr_type, "").as_str());
    append_text(&mut r, " | ");
    append_text(&mut r, shown_or(&n.severity, "").as_str());
    append_text(&mut r, " | ");
    append_text(&mut r, shown_or(&n.category, "").as_str());
    append_text(&mut r, " | ");
    append_text(&mut r, shown_or(&n.ncr_status, "").as_str());
    append_text(&mut r, " |");
    r
}

/// The width of a column.
fn column_width(c: ListColumn) -> (r: usize)
    ensures
        r == ncr_width(c),
{
    match c {
        ListColumn::Id => 17,
        ListColumn::Title => 26,
        ListColumn::NcrType => 10,
        ListColumn::Severity => 10,
        ListColumn::Status => 12,
        ListColumn::Author => 16,
        ListColumn::Created => 20,
    }
}

/// The heading of a column, before padding.
fn column_heading(c: ListColumn) -> (r: &'static str)
    ensures
        r@ == ncr_heading(c),
{
    match c {
        ListColumn::Id => "ID",
        ListColumn::Title => "TITLE",
        ListColumn::NcrType => "TYPE",
        ListColumn::Severity => "SEVERITY",
        ListColumn::Status => "STATUS",
        ListColumn::Author => "AUTHOR",
        ListColumn::Created => "CREATED",
    }
}

/// The cell of an NCR in a column, before padding.
fn cell_text(n: &NcrListRow, c: ListColumn) -> (r: String)
    requires
        ncr_row_fits(n),
    ensures
        r@ == ncr_cell(n, c),
{
    proof {
        reveal_strlit("");
        assert(""@ =~= Seq::<char>::empty());
    }
    match c {
        ListColumn::Id => truncate_str(n.id.as_str(), 15),
        ListColumn::Title => truncate_str(n.title.as_str(), 24),
        ListColumn::NcrType => shown_or(&n.ncr_type, ""),
        ListColumn::Severity => shown_or(&n.severity, ""),
        ListColumn::Status => shown_or(&n.ncr_status, ""),
        ListColumn::Author => truncate_str(n.author.as_str(), 14),
        ListColumn::Created => n.created.clone(),
    }
}

/// The header line of the table listing.
fn ncr_header(cols: &Vec<ListColumn>) -> (r: String)
    ensures
        r@ == ncr_table_header(cols@),
{
    let mut r = pad_right("SHORT", 8);
    append_text(&mut r, " ");
    let ghost g = |c: ListColumn| ncr_heading(c);
    let mut i: usize = 0;
    while i < cols.len()
        invariant
            i <= cols.len(),
            g == (|c: ListColumn| ncr_heading(c)),
            r@ == padded("SHORT"@, 8) + " "@ + ncr_cells(g, cols@, i as int),
        decreases cols.len() - i,
    {
        append_text(&mut r, pad_right(column_heading(cols[i]), column_width(cols[i])).as_str());
        append_text(&mut r, " ");
        assert(r@ =~= padded("SHORT"@, 8) + " "@ + ncr_cells(g, cols@, i as int + 1));
        i = i + 1;
    }
    r
}

/// The line of an NCR in the table listing.
fn ncr_line(n: &NcrListRow, cols: &Vec<ListColumn>) -> (r: String)
    requires
        ncr_row_fits(n),
    ensures
        r@ == ncr_table_line(n, cols@),
{
    proof {
        reveal_strlit("");
        assert(""@ =~= Seq::<char>::empty());
    }
    let mut r = pad_right(shown_or(&n.short_id, "").as_str(), 8);
    append_text(&mut r, " ");
    let ghost g = |c: ListColumn| ncr_cell(n, c);
    let mut i: usize = 0;
    while i < cols.len()
        invariant
            i <= cols.len(),
            ncr_row_fits(n),
            g == (|c: ListColumn| ncr_cell(n, c)),
            r@ == padded(text_or(n.short_id, Seq::empty()), 8) + " "@ + ncr_cells(g, cols@, i as int),
        decreases cols.len() - i,
    {
        append_text(&mut r, pad_right(cell_text(n, cols[i]).as_str(), column_width(cols[i])).as_str());
        append_text(&mut r, " ");
        assert(r@ =~= padded(text_or(n.short_id, Seq::empty()), 8) + " "@ + ncr_cells(g, cols@, i as int + 1));
        i = i + 1;
    }
    r
}

/// The sum of the widths of fewer columns is no larger.
proof fn lemma_ncr_widths_grow(cols: Seq<ListColumn>, m: int, k: int)
    requires
        0 <= m <= k <= cols.len(),
    ensures
        ncr_widths_sum(cols, m) + m <= ncr_widths_sum(cols, k) + k,
    decreases k - m,
{
    if m < k {
        lemma_ncr_widths_grow(cols, m, k - 1);
    }
}

/// The length of the rule under the table header.
fn rule_length(cols: &Vec<ListColumn>) -> (r: usize)
    requires
        ncr_rule_len(cols@) <= usize::MAX,
    ensures
        r == ncr_rule_len(cols@),
{
    let mut total: usize = 8;
    let mut i: usize = 0;
    while i < cols.len()
        invariant
            i <= cols.len(),
            ncr_rule_len(cols@) <= usize::MAX,
            total == 8 + ncr_widths_sum(cols@, i as int) + i,
        decreases cols.len() - i,
    {
        proof {
            lemma_ncr_widths_grow(cols@, i as int + 1, cols.len() as int);
        }
        total = total + column_width(cols[i]) + 1;
        i = i + 1;
    }
    total
}

/// Writes what `ncr list` prints for the NCRs, one text per line.
pub fn ncr_list_lines(ncrs: &Vec<NcrListRow>, columns: &Vec<ListColumn>, count: bool, format: OutputFormat) -> (r: Vec<String>)
    requires
        ncrs.len() > 0 && !count ==> !is_full_record_format(format) && format != OutputFormat::Auto && format != OutputFormat::ShortId,
        format == OutputFormat::Tsv ==> ncr_rule_len(columns@) <= usize::MAX,
        format == OutputFormat::Tsv ==> forall|i: int| 0 <= i < ncrs.len() ==> ncr_row_fits(#[trigger] &ncrs@[i]),
        format == OutputFormat::Md ==> forall|i: int| 0 <= i < ncrs.len() ==> cuts_cleanly((#[trigger] ncrs@[i]).id@, 16),
    ensures
        r@.map_values(|s: String| s@) == ncr_list_output(ncrs@, columns@, count, format),
{
    let mut out: Vec<String> = Vec::new();
    if count {
        out.push(decimal_text(ncrs.len()));
        proof {
            assert(out@.map_values(|s: String| s@) =~= ncr_list_output(ncrs@, columns@, count, format));
        }
        return out;
    }
    if ncrs.len() == 0 {
        out.push("No NCRs found.".to_owned());
        proof {
            assert(out@.map_values(|s: String| s@) =~= ncr_list_output(ncrs@, columns@, count, format));
        }
        return out;
    }
    let ghost head: Seq<Seq<char>> = match format {
        OutputFormat::Csv => seq![ncr_csv_header()],
        OutputFormat::Md => seq!["| Short | ID | Title | Type | Severity | Category | Status |"@, "|---|---|---|---|---|---|---|"@],
        OutputFormat::Id => seq![],
        _ => seq![ncr_table_header(columns@), dash_rule(ncr_rule_len(columns@))],
    };
    let ghost line = |n: NcrListRow| match format {
        OutputFormat::Csv => ncr_csv_line(&n),
        OutputFormat::Md => ncr_md_line(&n),
        OutputFormat::Id => n.id@,
        _ => ncr_table_line(&n, columns@),
    };
    match format {
        OutputFormat::Csv => {
            out.push("short_id,id,title,type,severity,category,ncr_status".to_owned());
        },
        OutputFormat::Md => {
            out.push("| Short | ID | Title | Type | Severity | Category | Status |".to_owned());
            out.push("|---|---|---|---|---|---|---|".to_owned());
        },
        OutputFormat::Id => {},
        _ => {
            out.push(ncr_header(columns));
            out.push(dashes(rule_length(columns)));
        },
    }
    assert(out@.map_values(|s: String| s@) =~= head);
    let mut i: usize = 0;
    while i < ncrs.len()
        invariant
            i <= ncrs.len(),
            ncrs.len() > 0 && !count,
            !is_full_record_format(format) && format != OutputFormat::Auto && format != OutputFormat::ShortId,
            format == OutputFormat::Tsv ==> forall|k: int| 0 <= k < ncrs.len() ==> ncr_row_fits(#[trigger] &ncrs@[k]),
            format == OutputFormat::Md ==> forall|k: int| 0 <= k < ncrs.len() ==> cuts_cleanly((#[trigger] ncrs@[k]).id@, 16),
            line == (|n: NcrListRow| match format {
                OutputFormat::Csv => ncr_csv_line(&n),
                OutputFormat::Md => ncr_md_line(&n),
                OutputFormat::Id => n.id@,
                _ => ncr_table_line(&n, columns@),
            }),
            out@.map_values(|s: String| s@) == head + ncrs@.take(i as int).map_values(line),
        decreases ncrs.len() - i,
    {
        let n = &ncrs[i];
        let text = match format {
            OutputFormat::Csv => ncr_csv(n),
            OutputFormat::Md => ncr_md(n),
            OutputFormat::Id => n.id.clone(),
            _ => ncr_line(n, columns),
        };
        assert(text@ == line(ncrs@[i as int]));
        let ghost before = out@.map_values(|s: String| s@);
        out.push(text);
        assert(out@.map_values(|s: String| s@) =~= before.push(text@));
        assert(ncrs@.take(i as int + 1) =~= ncrs@.take(i as int).push(ncrs@[i as int]));
        assert(ncrs@.take(i as int + 1).map_values(line) =~= ncrs@.take(i as int).map_values(line).push(line(ncrs@[i as int])));
        i = i + 1;
    }
    assert(ncrs@.take(ncrs.len() as int) =~= ncrs@);
    match format {
        OutputFormat::Csv => {},
        OutputFormat::Md => {},
        OutputFormat::Id => {},
        _ => {
            let ghost before = out@.map_values(|s: String| s@);
            out.push(String::new());
            let mut footer = decimal_text(ncrs.len());
            append_text(&mut footer, " NCR(s) found. Use NCR@N to reference by short ID.");
            out.push(footer);
            assert(out@.map_values(|s: String| s@) =~= before + seq![Seq::<char>::empty(), decimal(ncrs.len() as nat) + " NCR(s) found. Use NCR@N to reference by short ID."@]);
        },
    }
    assert(out@.map_values(|s: String| s@) =~= ncr_list_output(ncrs@, columns@, count, format));
    out
}
} // verus!
