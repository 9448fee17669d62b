//! Corrective and preventive actions: when an effectiveness check may be
//! recorded and what it changes, and which CAPAs a listing shows.

use vstd::prelude::*;
use crate::args::{is_full_record_format, full_record_format, OutputFormat};
use crate::common::{is_recent, opt_view, within_recent_window, time_key, Timestamp};
use crate::entities::{CapaStatus, CapaType, EffectivenessResult};
use crate::listing::{SortKey, SortKeyView};
use crate::assembly::{cuts_at, cuts_cleanly};
use crate::helpers::{csv_field, dash_rule, dashes, escape_csv, shown_or, text_or, truncate_str, truncated_form};
use crate::text::{append_text, decimal, decimal_text, pad_right, padded, concat_texts, contains_ignore_case, contains_ignoring_case, indent_lines, indented_lines, is_empty_text, replace_all, replaced};

verus! {

/// CAPA type filter
#[derive(Debug, Clone, Copy, PartialEq, Eq, Structural)]
pub enum CapaTypeFilter {
    Corrective,
    Preventive,
    All,
}

/// CAPA status filter
#[derive(Debug, Clone, Copy, PartialEq, Eq, Structural)]
pub enum CapaStatusFilter {
    Initiation,
    Investigation,
    Implementation,
    Verification,
    Closed,
    All,
}

/// List column selection
#[derive(Debug, Clone, Copy, PartialEq, Eq, Structural)]
pub enum ListColumn {
    Id,
    Title,
    CapaType,
    Status,
    Author,
    Created,
}

pub struct ListArgs {
    /// Filter by CAPA type
    pub kind: CapaTypeFilter,

    /// Filter by CAPA status
    pub capa_status: CapaStatusFilter,

    /// Show only overdue CAPAs
    pub overdue: bool,

    /// Show only open CAPAs (status != closed) - shortcut filter
    pub open: bool,

    /// Search in title and problem statement
    pub search: Option<String>,

    /// Filter by author
    pub author: Option<String>,

    /// Show only recent CAPAs (last 30 days)
    pub recent: bool,

    /// Columns to display
    pub columns: Vec<ListColumn>,

    /// Sort by field
    pub sort: ListColumn,

    /// Reverse sort order
    pub reverse: bool,

    /// Limit number of results
    pub limit: Option<usize>,

    /// Show only count
    pub count: bool,
}

pub struct ShowArgs {
    /// CAPA ID or short ID (CAPA@N)
    pub id: String,
}

pub struct EditArgs {
    /// CAPA ID or short ID (CAPA@N)
    pub id: String,
}

/// Verification result CLI option
#[derive(Debug, Clone, Copy, PartialEq, Eq, Structural)]
pub enum VerifyResult {
    Effective,
    Partial,
    Ineffective,
}

pub struct VerifyArgs {
    /// CAPA ID or short ID (CAPA@N)
    pub capa: String,

    /// Verification result
    pub result: VerifyResult,

    /// Evidence or notes (optional)
    pub evidence: Option<String>,

    /// Skip confirmation prompt
    pub yes: bool,
}

impl ListColumn {
    /// The name this value is written as.
    pub open spec fn display_text(self) -> Seq<char> {
        match self {
            ListColumn::Id => "id"@,
            ListColumn::Title => "title"@,
            ListColumn::CapaType => "capa-type"@,
            ListColumn::Status => "status"@,
            ListColumn::Author => "author"@,
            ListColumn::Created => "created"@,
        }
    }

    /// The name this value is written as.
    pub fn as_str(&self) -> (r: &'static str)
        ensures
            r@ == self.display_text(),
    {
        match self {
            ListColumn::Id => "id",
            ListColumn::Title => "title",
            ListColumn::CapaType => "capa-type",
            ListColumn::Status => "status",
            ListColumn::Author => "author",
            ListColumn::Created => "created",
        }
    }
}


/// The effectiveness result a CLI verification result records.
pub open spec fn effectiveness_of(r: VerifyResult) -> EffectivenessResult {
    match r {
        VerifyResult::Effective => EffectivenessResult::Effective,
        VerifyResult::Partial => EffectivenessResult::PartiallyEffective,
        VerifyResult::Ineffective => EffectivenessResult::Ineffective,
    }
}

/// Converts a CLI verification result to the result recorded on the CAPA.
pub fn effectiveness_result(r: VerifyResult) -> (e: EffectivenessResult)
    ensures
        e == effectiveness_of(r),
{
    match r {
        VerifyResult::Effective => EffectivenessResult::Effective,
        VerifyResult::Partial => EffectivenessResult::PartiallyEffective,
        VerifyResult::Ineffective => EffectivenessResult::Ineffective,
    }
}

/// The record of an effectiveness check.
#[derive(Debug)]
pub struct Effectiveness {
    pub verified: bool,
    /// Day of the check (days since 1 January of year 1).
    pub verified_date: Option<i32>,
    pub result: Option<EffectivenessResult>,
    pub evidence: Option<String>,
}

/// Mathematical form of an [`Effectiveness`].
pub struct EffectivenessView {
    pub verified: bool,
    pub verified_date: Option<i32>,
    pub result: Option<EffectivenessResult>,
    pub evidence: Option<Seq<char>>,
}

impl View for Effectiveness {
    type V = EffectivenessView;

    open spec fn view(&self) -> EffectivenessView {
        EffectivenessView {
            verified: self.verified,
            verified_date: self.verified_date,
            result: self.result,
            evidence: opt_view(self.evidence),
        }
    }
}

/// The state of a CAPA that an effectiveness check changes.
#[derive(Debug)]
pub struct CapaRecord {
    pub capa_status: CapaStatus,
    pub effectiveness: Option<Effectiveness>,
    pub entity_revision: u32,
}

/// Mathematical form of a [`CapaRecord`].
pub struct CapaView {
    pub capa_status: CapaStatus,
    pub effectiveness: Option<EffectivenessView>,
    pub entity_revision: u32,
}

impl View for CapaRecord {
    type V = CapaView;

    open spec fn view(&self) -> CapaView {
        CapaView {
            capa_status: self.capa_status,
            effectiveness: match self.effectiveness {
                Some(e) => Some(e@),
                None => None,
            },
            entity_revision: self.entity_revision,
        }
    }
}

/// Why an effectiveness check cannot be recorded.
#[derive(Debug, Clone, Copy, PartialEq, Eq, Structural)]
pub enum VerifyError {
    /// The CAPA is closed already.
    AlreadyClosed,
    /// The actions are not implemented yet: the CAPA is in this status.
    NotImplemented(CapaStatus),
}

/// Whether a CAPA in this status may be verified: only once its actions are
/// implemented, and not once closed.
pub open spec fn verification_check(s: CapaStatus) -> Result<(), VerifyError> {
    match s {
        CapaStatus::Closed => Err(VerifyError::AlreadyClosed),
        CapaStatus::Initiation | CapaStatus::Investigation => Err(VerifyError::NotImplemented(s)),
        _ => Ok(()),
    }
}

/// Checks that a CAPA in this status may be verified.
pub fn check_verifiable(s: CapaStatus) -> (r: Result<(), VerifyError>)
    ensures
        r == verification_check(s),
{
    match s {
        CapaStatus::Closed => Err(VerifyError::AlreadyClosed),
        CapaStatus::Initiation | CapaStatus::Investigation => Err(VerifyError::NotImplemented(s)),
        _ => Ok(()),
    }
}

/// The CAPA after a recorded check: the check is stored, an effective result
/// closes the CAPA, any other leaves it in verification, and the revision
/// counts up.
pub open spec fn capa_after_verification(c: CapaView, r: VerifyResult, evidence: Option<Seq<char>>, today: i32) -> CapaView {
    CapaView {
        capa_status: if r == VerifyResult::Effective {
            CapaStatus::Closed
        } else {
            CapaStatus::Verification
        },
        effectiveness: Some(EffectivenessView {
            verified: true,
            verified_date: Some(today),
            result: Some(effectiveness_of(r)),
            evidence: evidence,
        }),
        entity_revision: (c.entity_revision + 1) as u32,
    }
}

/// Records an effectiveness check on `today` (`capa verify`): refused for a
/// closed CAPA and for one whose actions are not implemented, else the CAPA
/// changes as [`capa_after_verification`] says.
pub fn verify_capa(capa: &mut CapaRecord, result: VerifyResult, evidence: Option<String>, today: i32) -> (r: Result<(), VerifyError>)
    requires
        old(capa).entity_revision < u32::MAX,
    ensures
        r == verification_check(old(capa)@.capa_status),
        r is Ok ==> final(capa)@ == capa_after_verification(old(capa)@, result, opt_view(evidence), today),
        r is Err ==> final(capa)@ == old(capa)@,
{
    let check = check_verifiable(capa.capa_status);
    if check.is_err() {
        return check;
    }
    let effectiveness_result = effectiveness_result(result);
    capa.effectiveness = Some(Effectiveness {
        verified: true,
        verified_date: Some(today),
        result: Some(effectiveness_result),
        evidence,
    });
    if result == VerifyResult::Effective {
        capa.capa_status = CapaStatus::Closed;
    } else {
        capa.capa_status = CapaStatus::Verification;
    }
    capa.entity_revision = capa.entity_revision + 1;
    Ok(())
}

/// After an effective check a CAPA is closed, and a further check is refused.
pub proof fn law_effective_check_closes(c: CapaView, evidence: Option<Seq<char>>, today: i32)
    requires
        verification_check(c.capa_status) is Ok,
    ensures
        capa_after_verification(c, VerifyResult::Effective, evidence, today).capa_status == CapaStatus::Closed,
        verification_check(capa_after_verification(c, VerifyResult::Effective, evidence, today).capa_status)
            == Err::<(), VerifyError>(VerifyError::AlreadyClosed),
{
}

/// After a partial or ineffective check the CAPA stays open for another check.
pub proof fn law_other_check_reopens_verification(c: CapaView, r: VerifyResult, evidence: Option<Seq<char>>, today: i32)
    requires
        r != VerifyResult::Effective,
    ensures
        capa_after_verification(c, r, evidence, today).capa_status == CapaStatus::Verification,
        verification_check(capa_after_verification(c, r, evidence, today).capa_status) is Ok,
{
}

/// What the CAPA list reads of a CAPA.
pub struct CapaSummary {
    pub id: String,
    pub title: String,
    pub author: String,
    pub capa_type: CapaType,
    pub capa_status: CapaStatus,
    pub problem_statement: Option<String>,
    pub capa_number: Option<String>,
    /// Target day of the timeline (days since 1 January of year 1), if set.
    pub target_date: Option<i32>,
    pub created: Timestamp,
}

/// The CAPA has the type a filter asks for.
pub open spec fn capa_type_matches(f: CapaTypeFilter, t: CapaType) -> bool {
    match f {
        CapaTypeFilter::Corrective => t == CapaType::Corrective,
        CapaTypeFilter::Preventive => t == CapaType::Preventive,
        CapaTypeFilter::All => true,
    }
}

/// The name of the value a `CapaTypeFilter` asks for (the filter's own variant
/// name).
pub open spec fn capa_type_filter_name(f: CapaTypeFilter) -> Seq<char> {
    match f {
        CapaTypeFilter::Corrective => "Corrective"@,
        CapaTypeFilter::Preventive => "Preventive"@,
        CapaTypeFilter::All => "All"@,
    }
}

/// A filter other than `All` keeps exactly the values whose name is the
/// filter's; `All` keeps every value.
pub proof fn law_capa_type_filter_keeps_its_value(f: CapaTypeFilter, v: CapaType)
    ensures
        f != CapaTypeFilter::All ==> (capa_type_matches(f, v) <==> capa_type_debug_name(v) == capa_type_filter_name(f)),
        f == CapaTypeFilter::All ==> capa_type_matches(f, v),
{
    reveal_strlit("Corrective");
    reveal_strlit("Preventive");
    reveal_strlit("All");
    assert("Corrective"@.len() == 10 && "Corrective"@[0] == 'C');
    assert("Preventive"@.len() == 10 && "Preventive"@[0] == 'P');
    assert("All"@.len() == 3);
}


/// The CAPA has the status a filter asks for.
pub open spec fn capa_status_matches(f: CapaStatusFilter, s: CapaStatus) -> bool {
    match f {
        CapaStatusFilter::Initiation => s == CapaStatus::Initiation,
        CapaStatusFilter::Investigation => s == CapaStatus::Investigation,
        CapaStatusFilter::Implementation => s == CapaStatus::Implementation,
        CapaStatusFilter::Verification => s == CapaStatus::Verification,
        CapaStatusFilter::Closed => s == CapaStatus::Closed,
        CapaStatusFilter::All => true,
    }
}

/// The name of the value a `CapaStatusFilter` asks for (the filter's own variant
/// name).
pub open spec fn capa_status_filter_name(f: CapaStatusFilter) -> Seq<char> {
    match f {
        CapaStatusFilter::Initiation => "Initiation"@,
        CapaStatusFilter::Investigation => "Investigation"@,
        CapaStatusFilter::Implementation => "Implementation"@,
        CapaStatusFilter::Verification => "Verification"@,
        CapaStatusFilter::Closed => "Closed"@,
        CapaStatusFilter::All => "All"@,
    }
}

/// A filter other than `All` keeps exactly the values whose name is the
/// filter's; `All` keeps every value.
pub proof fn law_capa_status_filter_keeps_its_value(f: CapaStatusFilter, v: CapaStatus)
    ensures
        f != CapaStatusFilter::All ==> (capa_status_matches(f, v) <==> capa_status_debug_name(v) == capa_status_filter_name(f)),
        f == CapaStatusFilter::All ==> capa_status_matches(f, v),
{
    reveal_strlit("Initiation");
    reveal_strlit("Investigation");
    reveal_strlit("Implementation");
    reveal_strlit("Verification");
    reveal_strlit("Closed");
    reveal_strlit("All");
    assert("Initiation"@.len() == 10);
    assert("Investigation"@.len() == 13);
    assert("Implementation"@.len() == 14);
    assert("Verification"@.len() == 12);
    assert("Closed"@.len() == 6);
    assert("All"@.len() == 3);
}


/// The CAPA is past its target day and not closed.
pub open spec fn is_overdue(c: &CapaSummary, today: i32) -> bool {
    c.target_date matches Some(t) && t < today && c.capa_status != CapaStatus::Closed
}

/// The CAPA passes every filter of `capa list`.
pub open spec fn capa_listed(args: &ListArgs, c: &CapaSummary, today: i32, now: Timestamp) -> bool {
    &&& capa_type_matches(args.kind, c.capa_type)
    &&& capa_status_matches(args.capa_status, c.capa_status)
    &&& (args.overdue ==> is_overdue(c, today))
    &&& (args.open ==> c.capa_status != CapaStatus::Closed)
    &&& (args.search matches Some(s) ==> (contains_ignoring_case(c.title@, s@)
        || (c.problem_statement matches Some(p) && contains_ignoring_case(p@, s@))
        || (c.capa_number matches Some(n) && contains_ignoring_case(n@, s@))))
    &&& (args.author matches Some(a) ==> contains_ignoring_case(c.author@, a@))
    &&& (args.recent ==> is_recent(c.created, now))
}

/// Whether `capa list` shows the CAPA.
pub fn capa_matches(args: &ListArgs, c: &CapaSummary, today: i32, now: Timestamp) -> (r: bool)
    ensures
        r == capa_listed(args, c, today, now),
{
    let type_ok = match args.kind {
        CapaTypeFilter::Corrective => c.capa_type == CapaType::Corrective,
        CapaTypeFilter::Preventive => c.capa_type == CapaType::Preventive,
        CapaTypeFilter::All => true,
    };
    let status_ok = match args.capa_status {
        CapaStatusFilter::Initiation => c.capa_status == CapaStatus::Initiation,
        CapaStatusFilter::Investigation => c.capa_status == CapaStatus::Investigation,
        CapaStatusFilter::Implementation => c.capa_status == CapaStatus::Implementation,
        CapaStatusFilter::Verification => c.capa_status == CapaStatus::Verification,
        CapaStatusFilter::Closed => c.capa_status == CapaStatus::Closed,
        CapaStatusFilter::All => true,
    };
    if !type_ok || !status_ok {
        return false;
    }
    if args.overdue {
        let overdue = match c.target_date {
            Some(t) => t < today && c.capa_status != CapaStatus::Closed,
            None => false,
        };
        if !overdue {
            return false;
        }
    }
    if args.open && c.capa_status == CapaStatus::Closed {
        return false;
    }
    if let Some(s) = &args.search {
        let in_problem = match &c.problem_statement {
            Some(p) => contains_ignore_case(p.as_str(), s.as_str()),
            None => false,
        };
        let in_number = match &c.capa_number {
            Some(n) => contains_ignore_case(n.as_str(), s.as_str()),
            None => false,
        };
        if !(contains_ignore_case(c.title.as_str(), s.as_str()) || in_problem || in_number) {
            return false;
        }
    }
    if let Some(a) = &args.author {
        if !contains_ignore_case(c.author.as_str(), a.as_str()) {
            return false;
        }
    }
    if args.recent && !within_recent_window(c.created, now) {
        return false;
    }
    true
}

/// The listing can be answered from the entity cache: no filter that the
/// cache cannot apply is set, and the format does not ask for whole records.
pub open spec fn cache_serves(args: &ListArgs, format: OutputFormat) -> bool {
    !args.overdue && !args.open && args.search is None && !args.recent && !is_full_record_format(format)
}

/// Whether `capa list` may read the entity cache.
pub fn can_use_cache(args: &ListArgs, format: OutputFormat) -> (r: bool)
    ensures
        r == cache_serves(args, format),
{
    !args.overdue && !args.open && args.search.is_none() && !args.recent && !full_record_format(format)
}

/// The name a CAPA type has in its debug form.
pub open spec fn capa_type_debug_name(t: CapaType) -> Seq<char> {
    match t {
        CapaType::Corrective => "Corrective"@,
        CapaType::Preventive => "Preventive"@,
    }
}

/// The name a CAPA status has in its debug form.
pub open spec fn capa_status_debug_name(s: CapaStatus) -> Seq<char> {
    match s {
        CapaStatus::Initiation => "Initiation"@,
        CapaStatus::Investigation => "Investigation"@,
        CapaStatus::Implementation => "Implementation"@,
        CapaStatus::Verification => "Verification"@,
        CapaStatus::Closed => "Closed"@,
    }
}

/// The key a CAPA is sorted by for a column (types and statuses order by
/// their debug names).
pub open spec fn capa_key(col: ListColumn, c: &CapaSummary) -> SortKeyView {
    match col {
        ListColumn::Id => SortKeyView::Text(c.id@),
        ListColumn::Title => SortKeyView::Text(c.title@),
        ListColumn::CapaType => SortKeyView::Text(capa_type_debug_name(c.capa_type)),
        ListColumn::Status => SortKeyView::Text(capa_status_debug_name(c.capa_status)),
        ListColumn::Author => SortKeyView::Text(c.author@),
        ListColumn::Created => SortKeyView::Num(crate::common::instant(c.created)),
    }
}

/// The sort key of a CAPA for the chosen column.
pub fn capa_sort_key(col: ListColumn, c: &CapaSummary) -> (r: SortKey)
    ensures
        r@ == capa_key(col, c),
{
    match col {
        ListColumn::Id => SortKey::text(c.id.as_str()),
        ListColumn::Title => SortKey::text(c.title.as_str()),
        ListColumn::CapaType => SortKey::text(match c.capa_type {
            CapaType::Corrective => "Corrective",
            CapaType::Preventive => "Preventive",
        }),
        ListColumn::Status => SortKey::text(match c.capa_status {
            CapaStatus::Initiation => "Initiation",
            CapaStatus::Investigation => "Investigation",
            CapaStatus::Implementation => "Implementation",
            CapaStatus::Verification => "Verification",
            CapaStatus::Closed => "Closed",
        }),
        ListColumn::Author => SortKey::text(c.author.as_str()),
        ListColumn::Created => time_key(c.created),
    }
}


/// The text of a new CAPA file: the generated template with the problem
/// statement answered in the wizard, when there is one, as its block.
pub open spec fn new_capa_text(template: Seq<char>, problem: Option<Seq<char>>) -> Seq<char> {
    match problem {
        Some(p) => if p.len() > 0 {
            replaced(
                template,
                "problem_statement: |\n  # Describe the problem being addressed\n  # Include scope and impact"@,
                "problem_statement: |\n"@ + indented_lines(p),
            )
        } else {
            template
        },
        None => template,
    }
}

/// Fills the generated template of a new CAPA with the wizard's problem
/// statement.
pub fn new_capa_file(template: &str, problem: &Option<String>) -> (r: String)
    ensures
        r@ == new_capa_text(template@, opt_view(*problem)),
{
    proof {
        reveal_strlit("problem_statement: |\n  # Describe the problem being addressed\n  # Include scope and impact");
    }
    match problem {
        Some(p) => if !is_empty_text(p.as_str()) {
            let with = concat_texts("problem_statement: |\n", indent_lines(p.as_str()).as_str());
            replace_all(template, "problem_statement: |\n  # Describe the problem being addressed\n  # Include scope and impact", with.as_str())
        } else {
            template.to_owned()
        },
        None => template.to_owned(),
    }
}
/// A CAPA as the list shows it (from the entity cache): each text as
/// stored, with the short form the caller found and the creation time
/// already written.
pub struct CapaListRow {
    pub id: String,
    /// The CAPA's short form, if it has one.
    pub short_id: Option<String>,
    pub title: String,
    pub capa_type: Option<String>,
    pub capa_status: Option<String>,
    pub author: String,
    /// The creation time, as written.
    pub created: String,
}

/// The header of the CSV listing.
pub open spec fn capa_csv_header() -> Seq<char> {
    "short_id,id,title,type,capa_status"@
}

/// The CSV line of a CAPA.
pub open spec fn capa_csv_line(n: &CapaListRow) -> Seq<char> {
    text_or(n.short_id, Seq::empty()) + ","@ + n.id@ + ","@ + csv_field(n.title@) + ","@ + text_or(n.capa_type, Seq::empty()) + ","@
        + text_or(n.capa_status, Seq::empty())
}

/// The Markdown line of a CAPA.
pub open spec fn capa_md_line(n: &CapaListRow) -> Seq<char> {
    "| "@ + text_or(n.short_id, Seq::empty()) + " | "@ + truncated_form(n.id@, 16) + " | "@ + n.title@ + " | "@
        + text_or(n.capa_type, Seq::empty()) + " | "@ + text_or(n.capa_status, Seq::empty()) + " |"@
}

/// The width of a column in the table listing.
pub open spec fn capa_width(c: ListColumn) -> nat {
    match c {
        ListColumn::Id => 17,
        ListColumn::Title => 30,
        ListColumn::CapaType => 12,
        ListColumn::Status => 14,
        ListColumn::Author => 16,
        ListColumn::Created => 20,
    }
}

/// The heading of a column in the table listing, before padding.
pub open spec fn capa_heading(c: ListColumn) -> Seq<char> {
    match c {
        ListColumn::Id => "ID"@,
        ListColumn::Title => "TITLE"@,
        ListColumn::CapaType => "TYPE"@,
        ListColumn::Status => "STATUS"@,
        ListColumn::Author => "AUTHOR"@,
        ListColumn::Created => "CREATED"@,
    }
}

/// The cell of a CAPA in a column of the table listing, before padding.
pub open spec fn capa_cell(n: &CapaListRow, c: ListColumn) -> Seq<char> {
    match c {
        ListColumn::Id => truncated_form(n.id@, 15),
        ListColumn::Title => truncated_form(n.title@, 28),
        ListColumn::CapaType => text_or(n.capa_type, Seq::empty()),
        ListColumn::Status => text_or(n.capa_status, Seq::empty()),
        ListColumn::Author => truncated_form(n.author@, 14),
        ListColumn::Created => n.created@,
    }
}

/// The first `k` columns' texts, each padded to its width and followed by
/// a space.
pub open spec fn capa_cells(cells: spec_fn(ListColumn) -> Seq<char>, cols: Seq<ListColumn>, k: int) -> Seq<char>
    decreases k,
{
    if k <= 0 {
        Seq::empty()
    } else {
        capa_cells(cells, cols, k - 1) + padded(cells(cols[k - 1]), capa_width(cols[k - 1]) as int) + " "@
    }
}

/// The sum of the widths of the first `k` columns.
pub open spec fn capa_widths_sum(cols: Seq<ListColumn>, k: int) -> nat
    decreases k,
{
    if k <= 0 {
        0
    } else {
        capa_widths_sum(cols, k - 1) + capa_width(cols[k - 1])
    }
}

/// The length of the rule under the table header.
pub open spec fn capa_rule_len(cols: Seq<ListColumn>) -> nat {
    8 + capa_widths_sum(cols, cols.len() as int) + cols.len()
}

/// The header line of the table listing.
pub open spec fn capa_table_header(cols: Seq<ListColumn>) -> Seq<char> {
    padded("SHORT"@, 8) + " "@ + capa_cells(|c: ListColumn| capa_heading(c), cols, cols.len() as int)
}

/// The line of a CAPA in the table listing.
pub open spec fn capa_table_line(n: &CapaListRow, cols: Seq<ListColumn>) -> Seq<char> {
    padded(text_or(n.short_id, Seq::empty()), 8) + " "@ + capa_cells(|c: ListColumn| capa_cell(n, c), cols, cols.len() as int)
}

/// What `capa list` prints for the CAPAs, one text per line: the count when
/// only that is asked for, a notice when there are none, else the lines of
/// the format.
pub open spec fn capa_list_output(ns: Seq<CapaListRow>, cols: Seq<ListColumn>, count: bool, format: OutputFormat) -> Seq<Seq<char>> {
    if count {
        seq![decimal(ns.len())]
    } else if ns.len() == 0 {
        seq!["No CAPAs found."@]
    } else {
        match format {
            OutputFormat::Csv => seq![capa_csv_header()] + ns.map_values(|n: CapaListRow| capa_csv_line(&n)),
            OutputFormat::Md => seq!["| Short | ID | Title | Type | Status |"@, "|---|---|---|---|---|"@]
                + ns.map_values(|n: CapaListRow| capa_md_line(&n)),
            OutputFormat::Id => ns.map_values(|n: CapaListRow| n.id@),
            OutputFormat::ShortId => ns.map_values(|n: CapaListRow| text_or(n.short_id, Seq::empty())),
            _ => seq![capa_table_header(cols), dash_rule(capa_rule_len(cols))]
                + ns.map_values(|n: CapaListRow| capa_table_line(&n, cols))
                + seq![Seq::empty(), decimal(ns.len()) + " CAPA(s) found. Use CAPA@N to reference by short ID."@],
        }
    }
}

/// The texts of a CAPA that the table listing cuts can be cut cleanly.
pub open spec fn capa_row_fits(n: &CapaListRow) -> bool {
    &&& cuts_cleanly(n.id@, 15)
    &&& cuts_cleanly(n.title@, 28)
    &&& cuts_cleanly(n.author@, 14)
}

impl CapaListRow {
    /// Whether the texts that the table listing cuts can be cut cleanly.
    pub fn fits(&self) -> (r: bool)
        ensures
            r == capa_row_fits(self),
    {
        cuts_at(self.id.as_str(), 15) && cuts_at(self.title.as_str(), 28) && cuts_at(self.author.as_str(), 14)
    }
}

/// The CSV line of a CAPA.
fn capa_csv(n: &CapaListRow) -> (r: String)
    ensures
        r@ == capa_csv_line(n),
{
    proof {
        reveal_strlit("");
        assert(""@ =~= Seq::<char>::empty());
    }
    let mut r = shown_or(&n.short_id, "");
    append_text(&mut r, ",");
    append_text(&mut r, n.id.as_str());
    append_text(&mut r, ",");
    append_text(&mut r, escape_csv(n.title.as_str()).as_str());
    append_text(&mut r, ",");
    append_text(&mut r, shown_or(&n.capa_type, "").as_str());
    append_text(&mut r, ",");
    append_text(&mut r, shown_or(&n.capa_status, "").as_str());
    r
}

/// The Markdown line of a CAPA.
fn capa_md(n: &CapaListRow) -> (r: String)
    requires
        cuts_cleanly(n.id@, 16),
    ensures
        r@ == capa_md_line(n),
{
    proof {
        reveal_strlit("");
        assert(""@ =~= Seq::<char>::empty());
    }
    let mut r = concat_texts("| ", shown_or(&n.short_id, "").as_str());
    append_text(&mut r, " | ");
    append_text(&mut r, truncate_str(n.id.as_str(), 16).as_str());
    append_text(&mut r, " | ");
    append_text(&mut r, n.title.as_str());
    append_text(&mut r, " | ");
    append_text(&mut r, shown_or(&n.capa_type, "").as_str());
    append_text(&mut r, " | ");
    append_text(&mut r, shown_or(&n.capa_status, "").as_str());
    append_text(&mut r, " |");
    r
}

/// The width of a column.
fn column_width(c: ListColumn) -> (r: usize)
    ensures
        r == capa_width(c),
{
    match c {
        ListColumn::Id => 17,
        ListColumn::Title => 30,
        ListColumn::CapaType => 12,
        ListColumn::Status => 14,
        ListColumn::Author => 16,
        ListColumn::Created => 20,
    }
}

/// The heading of a column, before padding.
fn column_heading(c: ListColumn) -> (r: &'static str)
    ensures
        r@ == capa_heading(c),
{
    match c {
        ListColumn::Id => "ID",
        ListColumn::Title => "TITLE",
        ListColumn::CapaType => "TYPE",
        ListColumn::Status => "STATUS",
        ListColumn::Author => "AUTHOR",
        ListColumn::Created => "CREATED",
    }
}

/// The cell of a CAPA in a column, before padding.
fn cell_text(n: &CapaListRow, c: ListColumn) -> (r: String)
    requires
        capa_row_fits(n),
    ensures
        r@ == capa_cell(n, c),
{
    proof {
        reveal_strlit("");
        assert(""@ =~= Seq::<char>::empty());
    }
    match c {
        ListColumn::Id => truncate_str(n.id.as_str(), 15),
        ListColumn::Title => truncate_str(n.title.as_str(), 28),
        ListColumn::CapaType => shown_or(&n.capa_type, ""),
        ListColumn::Status => shown_or(&n.capa_status, ""),
        ListColumn::Author => truncate_str(n.author.as_str(), 14),
        ListColumn::Created => n.created.clone(),
    }
}

/// The header line of the table listing.
fn capa_header(cols: &Vec<ListColumn>) -> (r: String)
    ensures
        r@ == capa_table_header(cols@),
{
    let mut r = pad_right("SHORT", 8);
    append_text(&mut r, " ");
    let ghost g = |c: ListColumn| capa_heading(c);
    let mut i: usize = 0;
    while i < cols.len()
        invariant
            i <= cols.len(),
            g == (|c: ListColumn| capa_heading(c)),
            r@ == padded("SHORT"@, 8) + " "@ + capa_cells(g, cols@, i as int),
        decreases cols.len() - i,
    {
        append_text(&mut r, pad_right(column_heading(cols[i]), column_width(cols[i])).as_str());
        append_text(&mut r, " ");
        assert(r@ =~= padded("SHORT"@, 8) + " "@ + capa_cells(g, cols@, i as int + 1));
        i = i + 1;
    }
    r
}

/// The line of a CAPA in the table listing.
fn capa_line(n: &CapaListRow, cols: &Vec<ListColumn>) -> (r: String)
    requires
        capa_row_fits(n),
    ensures
        r@ == capa_table_line(n, cols@),
{
    proof {
        reveal_strlit("");
        assert(""@ =~= Seq::<char>::empty());
    }
    let mut r = pad_right(shown_or(&n.short_id, "").as_str(), 8);
    append_text(&mut r, " ");
    let ghost g = |c: ListColumn| capa_cell(n, c);
    let mut i: usize = 0;
    while i < cols.len()
        invariant
            i <= cols.len(),
            capa_row_fits(n),
            g == (|c: ListColumn| capa_cell(n, c)),
            r@ == padded(text_or(n.short_id, Seq::empty()), 8) + " "@ + capa_cells(g, cols@, i as int),
        decreases cols.len() - i,
    {
        append_text(&mut r, pad_right(cell_text(n, cols[i]).as_str(), column_width(cols[i])).as_str());
        append_text(&mut r, " ");
        assert(r@ =~= padded(text_or(n.short_id, Seq::empty()), 8) + " "@ + capa_cells(g, cols@, i as int + 1));
        i = i + 1;
    }
    r
}

/// The sum of the widths of fewer columns is no larger.
proof fn lemma_capa_widths_grow(cols: Seq<ListColumn>, m: int, k: int)
    requires
        0 <= m <= k <= cols.len(),
    ensures
        capa_widths_sum(cols, m) + m <= capa_widths_sum(cols, k) + k,
    decreases k - m,
{
    if m < k {
        lemma_capa_widths_grow(cols, m, k - 1);
    }
}

/// The length of the rule under the table header.
fn rule_length(cols: &Vec<ListColumn>) -> (r: usize)
    requires
        capa_rule_len(cols@) <= usize::MAX,
    ensures
        r == capa_rule_len(cols@),
{
    let mut total: usize = 8;
    let mut i: usize = 0;
    while i < cols.len()
        invariant
            i <= cols.len(),
            capa_rule_len(cols@) <= usize::MAX,
            total == 8 + capa_widths_sum(cols@, i as int) + i,
        decreases cols.len() - i,
    {
        proof {
            lemma_capa_widths_grow(cols@, i as int + 1, cols.len() as int);
        }
        total = total + column_width(cols[i]) + 1;
        i = i + 1;
    }
    total
}

/// Writes what `capa list` prints for the CAPAs, one text per line.
pub fn capa_list_lines(capas: &Vec<CapaListRow>, columns: &Vec<ListColumn>, count: bool, format: OutputFormat) -> (r: Vec<String>)
    requires
        capas.len() > 0 && !count ==> !is_full_record_format(format) && format != OutputFormat::Auto,
        format == OutputFormat::Tsv ==> capa_rule_len(columns@) <= usize::MAX,
        format == OutputFormat::Tsv ==> forall|i: int| 0 <= i < capas.len() ==> capa_row_fits(#[trigger] &capas@[i]),
        format == OutputFormat::Md ==> forall|i: int| 0 <= i < capas.len() ==> cuts_cleanly((#[trigger] capas@[i]).id@, 16),
    ensures
        r@.map_values(|s: String| s@) == capa_list_output(capas@, columns@, count, format),
{
    let mut out: Vec<String> = Vec::new();
    if count {
        out.push(decimal_text(capas.len()));
        proof {
            assert(out@.map_values(|s: String| s@) =~= capa_list_output(capas@, columns@, count, format));
        }
        return out;
    }
    if capas.len() == 0 {
        out.push("No CAPAs found.".to_owned());
        proof {
            assert(out@.map_values(|s: String| s@) =~= capa_list_output(capas@, columns@, count, format));
        }
        return out;
    }
    let ghost head: Seq<Seq<char>> = match format {
        OutputFormat::Csv => seq![capa_csv_header()],
        OutputFormat::Md => seq!["| Short | ID | Title | Type | Status |"@, "|---|---|---|---|---|"@],
        OutputFormat::Id => seq![],
        OutputFormat::ShortId => seq![],
        _ => seq![capa_table_header(columns@), dash_rule(capa_rule_len(columns@))],
    };
    let ghost line = |n: CapaListRow| match format {
        OutputFormat::Csv => capa_csv_line(&n),
        OutputFormat::Md => capa_md_line(&n),
        OutputFormat::Id => n.id@,
        OutputFormat::ShortId => text_or(n.short_id, Seq::empty()),
        _ => capa_table_line(&n, columns@),
    };
    match format {
        OutputFormat::Csv => {
            out.push("short_id,id,title,type,capa_status".to_owned());
        },
        OutputFormat::Md => {
            out.push("| Short | ID | Title | Type | Status |".to_owned());
            out.push("|---|---|---|---|---|".to_owned());
        },
        OutputFormat::Id => {},
        OutputFormat::ShortId => {},
        _ => {
            out.push(capa_header(columns));
            out.push(dashes(rule_length(columns)));
        },
    }
    assert(out@.map_values(|s: String| s@) =~= head);
    let mut i: usize = 0;
    while i < capas.len()
        invariant
            i <= capas.len(),
            capas.len() > 0 && !count,
            !is_full_record_format(format) && format != OutputFormat::Auto,
            format == OutputFormat::Tsv ==> forall|k: int| 0 <= k < capas.len() ==> capa_row_fits(#[trigger] &capas@[k]),
            format == OutputFormat::Md ==> forall|k: int| 0 <= k < capas.len() ==> cuts_cleanly((#[trigger] capas@[k]).id@, 16),
            line == (|n: CapaListRow| match format {
                OutputFormat::Csv => capa_csv_line(&n),
                OutputFormat::Md => capa_md_line(&n),
                OutputFormat::Id => n.id@,
                OutputFormat::ShortId => text_or(n.short_id, Seq::empty()),
                _ => capa_table_line(&n, columns@),
            }),
            out@.map_values(|s: String| s@) == head + capas@.take(i as int).map_values(line),
        decreases capas.len() - i,
    {
        let n = &capas[i];
        let text = match format {
            OutputFormat::Csv => capa_csv(n),
            OutputFormat::Md => capa_md(n),
            OutputFormat::Id => n.id.clone(),
            OutputFormat::ShortId => shown_or(&n.short_id, ""),
            _ => capa_line(n, columns),
        };
        proof {
            reveal_strlit("");
            assert(""@ =~= Seq::<char>::empty());
        }
        assert(text@ == line(capas@[i as int]));
        let ghost before = out@.map_values(|s: String| s@);
        out.push(text);
        assert(out@.map_values(|s: String| s@) =~= before.push(text@));
        assert(capas@.take(i as int + 1) =~= capas@.take(i as int).push(capas@[i as int]));
        assert(capas@.take(i as int + 1).map_values(line) =~= capas@.take(i as int).map_values(line).push(line(capas@[i as int])));
        i = i + 1;
    }
    assert(capas@.take(capas.len() as int) =~= capas@);
    match format {
        OutputFormat::Csv => {},
        OutputFormat::Md => {},
        OutputFormat::Id => {},
        OutputFormat::ShortId => {},
        _ => {
            let ghost before = out@.map_values(|s: String| s@);
            out.push(String::new());
            let mut footer = decimal_text(capas.len());
            append_text(&mut footer, " CAPA(s) found. Use CAPA@N to reference by short ID.");
            out.push(footer);
            assert(out@.map_values(|s: String| s@) =~= before + seq![Seq::<char>::empty(), decimal(capas.len() as nat) + " CAPA(s) found. Use CAPA@N to reference by short ID."@]);
        },
    }
    assert(out@.map_values(|s: String| s@) =~= capa_list_output(capas@, columns@, count, format));
    out
}
} // verus!
