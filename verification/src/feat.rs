//! Dimensional features: their kinds as typed on the command line, and which
//! features a listing shows, in which order.

use vstd::prelude::*;
use crate::assembly::{status_debug_name, status_debug_text};
use crate::common::{instant, is_within_days, text_or_empty, time_key, within_days, Timestamp};
use crate::entities::{FeatureType, Status};
use crate::listing::{SortKey, SortKeyView};
use crate::args::{is_full_record_format, OutputFormat};
use crate::assembly::{cuts_at, cuts_cleanly};
use crate::helpers::{csv_field, dash_rule, dashes, escape_csv, shown_or, text_or, truncate_str, truncated_form};
use crate::text::{decimal, decimal_text, is_empty_text, pad_right, padded, append_text, concat_texts, contains_ignore_case, contains_ignoring_case, replace_all, replaced, str_contains, str_eq, text_contains};

verus! {

/// Feature type filter for list command
#[derive(Debug, Clone, Copy, PartialEq, Eq, Structural)]
pub enum TypeFilter {
    Internal,
    External,
    All,
}

/// CLI-friendly feature type enum
#[derive(Debug, Clone, Copy, PartialEq, Eq, Structural)]
pub enum CliFeatureType {
    Internal,
    External,
}

/// Status filter
#[derive(Debug, Clone, Copy, PartialEq, Eq, Structural)]
pub enum StatusFilter {
    Draft,
    Review,
    Approved,
    Released,
    Obsolete,
    All,
}

/// Columns to display in list output
#[derive(Debug, Clone, Copy, PartialEq, Eq, Structural)]
pub enum ListColumn {
    Id,
    Title,
    Description,
    FeatureType,
    Component,
    Status,
    Author,
    Created,
}

pub struct ListArgs {
    /// Filter by parent component (CMP@N or full ID)
    pub component: Option<String>,

    /// Filter by feature type
    pub feature_type: TypeFilter,

    /// Filter by status
    pub status: StatusFilter,

    /// Search in title
    pub search: Option<String>,

    /// Filter by author (substring match)
    pub author: Option<String>,

    /// Show features created in last N days
    pub recent: Option<u32>,

    /// Columns to display (can specify multiple)
    pub columns: Vec<ListColumn>,

    /// Sort by field
    pub sort: ListColumn,

    /// Reverse sort order
    pub reverse: bool,

    /// Limit number of results
    pub limit: Option<usize>,

    /// Show only count
    pub count: bool,
}

pub struct ShowArgs {
    /// Feature ID or short ID (FEAT@N)
    pub id: String,
}

pub struct EditArgs {
    /// Feature ID or short ID (FEAT@N)
    pub id: String,
}

impl CliFeatureType {
    /// The name this value is written as.
    pub open spec fn display_text(self) -> Seq<char> {
        match self {
            CliFeatureType::Internal => "internal"@,
            CliFeatureType::External => "external"@,
        }
    }

    /// The name this value is written as.
    pub fn as_str(&self) -> (r: &'static str)
        ensures
            r@ == self.display_text(),
    {
        match self {
            CliFeatureType::Internal => "internal",
            CliFeatureType::External => "external",
        }
    }
}

impl ListColumn {
    /// The name this value is written as.
    pub open spec fn display_text(self) -> Seq<char> {
        match self {
            ListColumn::Id => "id"@,
            ListColumn::Title => "title"@,
            ListColumn::Description => "description"@,
            ListColumn::FeatureType => "feature-type"@,
            ListColumn::Component => "component"@,
            ListColumn::Status => "status"@,
            ListColumn::Author => "author"@,
            ListColumn::Created => "created"@,
        }
    }

    /// The name this value is written as.
    pub fn as_str(&self) -> (r: &'static str)
        ensures
            r@ == self.display_text(),
    {
        match self {
            ListColumn::Id => "id",
            ListColumn::Title => "title",
            ListColumn::Description => "description",
            ListColumn::FeatureType => "feature-type",
            ListColumn::Component => "component",
            ListColumn::Status => "status",
            ListColumn::Author => "author",
            ListColumn::Created => "created",
        }
    }
}

impl From<CliFeatureType> for FeatureType {
    fn from(cli: CliFeatureType) -> (r: FeatureType) {
        match cli {
            CliFeatureType::Internal => FeatureType::Internal,
            CliFeatureType::External => FeatureType::External,
        }
    }
}

impl vstd::std_specs::convert::FromSpecImpl<CliFeatureType> for FeatureType {
    open spec fn obeys_from_spec() -> bool {
        true
    }

    open spec fn from_spec(cli: CliFeatureType) -> FeatureType {
        match cli {
            CliFeatureType::Internal => FeatureType::Internal,
            CliFeatureType::External => FeatureType::External,
        }
    }
}


/// What the feature list reads of a feature.
pub struct FeatureSummary {
    pub id: String,
    pub title: String,
    pub description: Option<String>,
    pub author: String,
    pub feature_type: FeatureType,
    /// The component the feature belongs to.
    pub component: String,
    pub status: Status,
    pub created: Timestamp,
}

/// The feature has the kind a filter asks for.
pub open spec fn feature_type_matches(f: TypeFilter, t: FeatureType) -> bool {
    match f {
        TypeFilter::Internal => t == FeatureType::Internal,
        TypeFilter::External => t == FeatureType::External,
        TypeFilter::All => true,
    }
}

/// The name of the value a `TypeFilter` asks for (the filter's own variant
/// name).
pub open spec fn feature_type_filter_name(f: TypeFilter) -> Seq<char> {
    match f {
        TypeFilter::Internal => "Internal"@,
        TypeFilter::External => "External"@,
        TypeFilter::All => "All"@,
    }
}

/// A filter other than `All` keeps exactly the values whose name is the
/// filter's; `All` keeps every value.
pub proof fn law_feature_type_filter_keeps_its_value(f: TypeFilter, v: FeatureType)
    ensures
        f != TypeFilter::All ==> (feature_type_matches(f, v) <==> feature_type_debug_name(v) == feature_type_filter_name(f)),
        f == TypeFilter::All ==> feature_type_matches(f, v),
{
    reveal_strlit("Internal");
    reveal_strlit("External");
    reveal_strlit("All");
    assert("Internal"@.len() == 8 && "Internal"@[0] == 'I');
    assert("External"@.len() == 8 && "External"@[0] == 'E');
    assert("All"@.len() == 3);
}


/// The feature has the status a filter asks for.
pub open spec fn status_matches(f: StatusFilter, s: Status) -> bool {
    match f {
        StatusFilter::Draft => s == Status::Draft,
        StatusFilter::Review => s == Status::Review,
        StatusFilter::Approved => s == Status::Approved,
        StatusFilter::Released => s == Status::Released,
        StatusFilter::Obsolete => s == Status::Obsolete,
        StatusFilter::All => true,
    }
}

/// The name of the value a `StatusFilter` asks for (the filter's own variant
/// name).
pub open spec fn status_filter_name(f: StatusFilter) -> Seq<char> {
    match f {
        StatusFilter::Draft => "Draft"@,
        StatusFilter::Review => "Review"@,
        StatusFilter::Approved => "Approved"@,
        StatusFilter::Released => "Released"@,
        StatusFilter::Obsolete => "Obsolete"@,
        StatusFilter::All => "All"@,
    }
}

/// A filter other than `All` keeps exactly the values whose name is the
/// filter's; `All` keeps every value.
pub proof fn law_status_filter_keeps_its_value(f: StatusFilter, v: Status)
    ensures
        f != StatusFilter::All ==> (status_matches(f, v) <==> status_debug_name(v) == status_filter_name(f)),
        f == StatusFilter::All ==> status_matches(f, v),
{
    reveal_strlit("Draft");
    reveal_strlit("Review");
    reveal_strlit("Approved");
    reveal_strlit("Released");
    reveal_strlit("Obsolete");
    reveal_strlit("All");
    assert("Draft"@.len() == 5);
    assert("Review"@.len() == 6);
    assert("Approved"@.len() == 8 && "Approved"@[0] == 'A');
    assert("Released"@.len() == 8 && "Released"@[0] == 'R');
    assert("Obsolete"@.len() == 8 && "Obsolete"@[0] == 'O');
    assert("All"@.len() == 3);
}


/// The feature passes every filter of `feat list`; `component` is the
/// component filter with its short form resolved.
pub open spec fn feature_listed(args: &ListArgs, component: Option<Seq<char>>, f: &FeatureSummary, now: Timestamp) -> bool {
    &&& (component matches Some(c) ==> (text_contains(f.component@, c) || f.component@ == c))
    &&& feature_type_matches(args.feature_type, f.feature_type)
    &&& status_matches(args.status, f.status)
    &&& (args.search matches Some(s) ==> (contains_ignoring_case(f.title@, s@)
        || (f.description matches Some(d) && contains_ignoring_case(d@, s@))))
    &&& (args.author matches Some(a) ==> contains_ignoring_case(f.author@, a@))
    &&& (args.recent matches Some(days) ==> within_days(f.created, now, days))
}

/// Whether `feat list` shows the feature.
pub fn feature_matches(args: &ListArgs, component: Option<&str>, f: &FeatureSummary, now: Timestamp) -> (r: bool)
    ensures
        r == feature_listed(args, match component {
            Some(c) => Some(c@),
            None => None,
        }, f, now),
{
    if let Some(c) = component {
        if !(str_contains(f.component.as_str(), c) || str_eq(f.component.as_str(), c)) {
            return false;
        }
    }
    let type_ok = match args.feature_type {
        TypeFilter::Internal => f.feature_type == FeatureType::Internal,
        TypeFilter::External => f.feature_type == FeatureType::External,
        TypeFilter::All => true,
    };
    let status_ok = match args.status {
        StatusFilter::Draft => f.status == Status::Draft,
        StatusFilter::Review => f.status == Status::Review,
        StatusFilter::Approved => f.status == Status::Approved,
        StatusFilter::Released => f.status == Status::Released,
        StatusFilter::Obsolete => f.status == Status::Obsolete,
        StatusFilter::All => true,
    };
    if !type_ok || !status_ok {
        return false;
    }
    if let Some(s) = &args.search {
        let in_description = match &f.description {
            Some(d) => contains_ignore_case(d.as_str(), s.as_str()),
            None => false,
        };
        if !(contains_ignore_case(f.title.as_str(), s.as_str()) || in_description) {
            return false;
        }
    }
    if let Some(a) = &args.author {
        if !contains_ignore_case(f.author.as_str(), a.as_str()) {
            return false;
        }
    }
    if let Some(days) = args.recent {
        if !is_within_days(f.created, now, days) {
            return false;
        }
    }
    true
}

/// The name a feature kind has in its debug form.
pub open spec fn feature_type_debug_name(t: FeatureType) -> Seq<char> {
    match t {
        FeatureType::Internal => "Internal"@,
        FeatureType::External => "External"@,
    }
}

/// The key a feature is sorted by for a column.
pub open spec fn feature_key(col: ListColumn, f: &FeatureSummary) -> SortKeyView {
    match col {
        ListColumn::Id => SortKeyView::Text(f.id@),
        ListColumn::Title => SortKeyView::Text(f.title@),
        ListColumn::Description => SortKeyView::Text(text_or_empty(f.description)),
        ListColumn::FeatureType => SortKeyView::Text(feature_type_debug_name(f.feature_type)),
        ListColumn::Component => SortKeyView::Text(f.component@),
        ListColumn::Status => SortKeyView::Text(status_debug_name(f.status)),
        ListColumn::Author => SortKeyView::Text(f.author@),
        ListColumn::Created => SortKeyView::Num(instant(f.created)),
    }
}

/// The sort key of a feature for the chosen column.
pub fn feature_sort_key(col: ListColumn, f: &FeatureSummary) -> (r: SortKey)
    ensures
        r@ == feature_key(col, f),
{
    match col {
        ListColumn::Id => SortKey::text(f.id.as_str()),
        ListColumn::Title => SortKey::text(f.title.as_str()),
        ListColumn::Description => match &f.description {
            Some(d) => SortKey::text(d.as_str()),
            None => {
                proof {
                    reveal_strlit("");
                    assert(""@ =~= Seq::<char>::empty());
                }
                let r = SortKey::text("");
                assert(r@ == feature_key(col, f));
                r
            },
        },
        ListColumn::FeatureType => SortKey::text(match f.feature_type {
            FeatureType::Internal => "Internal",
            FeatureType::External => "External",
        }),
        ListColumn::Component => SortKey::text(f.component.as_str()),
        ListColumn::Status => SortKey::text(status_debug_text(f.status)),
        ListColumn::Author => SortKey::text(f.author.as_str()),
        ListColumn::Created => time_key(f.created),
    }
}


/// The dimension a new feature's wizard answered, each number as it is to
/// be written.
pub struct FeatureDimension {
    pub name: String,
    pub nominal: String,
    pub plus_tol: String,
    pub minus_tol: String,
}

/// The text of a new feature file: the generated template with the
/// dimension's name and numbers in place of the defaults.
pub open spec fn new_feature_text(template: Seq<char>, d: &FeatureDimension) -> Seq<char> {
    let a = replaced(template, "name: \"diameter\""@, "name: \""@ + d.name@ + "\""@);
    let b = replaced(a, "nominal: 10.0"@, "nominal: "@ + d.nominal@);
    let c = replaced(b, "plus_tol: 0.1"@, "plus_tol: "@ + d.plus_tol@);
    replaced(c, "minus_tol: 0.05"@, "minus_tol: "@ + d.minus_tol@)
}

/// Fills the generated template of a new feature with the dimension the
/// wizard answered.
pub fn new_feature_file(template: &str, d: &FeatureDimension) -> (r: String)
    ensures
        r@ == new_feature_text(template@, d),
{
    proof {
        reveal_strlit("name: \"diameter\"");
        reveal_strlit("nominal: 10.0");
        reveal_strlit("plus_tol: 0.1");
        reveal_strlit("minus_tol: 0.05");
    }
    let mut name = concat_texts("name: \"", d.name.as_str());
    append_text(&mut name, "\"");
    let a = replace_all(template, "name: \"diameter\"", name.as_str());
    let b = replace_all(a.as_str(), "nominal: 10.0", concat_texts("nominal: ", d.nominal.as_str()).as_str());
    let c = replace_all(b.as_str(), "plus_tol: 0.1", concat_texts("plus_tol: ", d.plus_tol.as_str()).as_str());
    replace_all(c.as_str(), "minus_tol: 0.05", concat_texts("minus_tol: ", d.minus_tol.as_str()).as_str())
}

/// A feature as the list shows it (from the entity cache): each text as
/// stored, with the short forms and the component's part number and title
/// that the caller found (empty where the component is unknown).
pub struct FeatureListRow {
    pub id: String,
    /// The feature's short form, if it has one.
    pub short_id: Option<String>,
    pub title: String,
    /// The feature type, as written.
    pub feature_type: String,
    /// The status, as written.
    pub status: String,
    pub author: String,
    /// The creation day, as written.
    pub created_day: String,
    pub component_id: String,
    /// The component's short form, if it has one.
    pub component_short: Option<String>,
    pub part_number: String,
    pub component_title: String,
}

/// The header of the CSV listing.
pub open spec fn feature_csv_header() -> Seq<char> {
    "short_id,id,component,part_number,component_title,feature_type,title,status"@
}

/// The CSV line of a feature.
pub open spec fn feature_csv_line(f: &FeatureListRow) -> Seq<char> {
    text_or(f.short_id, Seq::empty()) + ","@ + f.id@ + ","@ + text_or(f.component_short, Seq::empty()) + ","@
        + csv_field(f.part_number@) + ","@ + csv_field(f.component_title@) + ","@ + f.feature_type@ + ","@
        + csv_field(f.title@) + ","@ + f.status@
}

/// The Markdown line of a feature.
pub open spec fn feature_md_line(f: &FeatureListRow) -> Seq<char> {
    "| "@ + text_or(f.short_id, Seq::empty()) + " | "@ + truncated_form(f.id@, 15) + " | "@
        + truncated_form(f.component_id@, 13) + " | "@ + f.feature_type@ + " | "@ + f.title@ + " | "@ + f.status@ + " |"@
}

/// The width of a column in the table listing.
pub open spec fn feature_width(c: ListColumn) -> nat {
    match c {
        ListColumn::Id => 17,
        ListColumn::Title => 20,
        ListColumn::Description => 30,
        ListColumn::FeatureType => 10,
        ListColumn::Component => 40,
        ListColumn::Status => 10,
        ListColumn::Author => 14,
        ListColumn::Created => 12,
    }
}

/// The heading of a column in the table listing, before padding.
pub open spec fn feature_heading(c: ListColumn) -> Seq<char> {
    match c {
        ListColumn::Id => "ID"@,
        ListColumn::Title => "TITLE"@,
        ListColumn::Description => "DESCRIPTION"@,
        ListColumn::FeatureType => "TYPE"@,
        ListColumn::Component => "COMPONENT"@,
        ListColumn::Status => "STATUS"@,
        ListColumn::Author => "AUTHOR"@,
        ListColumn::Created => "CREATED"@,
    }
}

/// The component as the table listing names it: its short form (`?` when
/// it has none), then its part number and cut title, or its cut title.
pub open spec fn component_shown(f: &FeatureListRow) -> Seq<char> {
    let alias = text_or(f.component_short, "?"@);
    if f.part_number@.len() > 0 {
        alias + " ("@ + f.part_number@ + ") "@ + truncated_form(f.component_title@, 20)
    } else if f.component_title@.len() > 0 {
        alias + " "@ + truncated_form(f.component_title@, 25)
    } else {
        alias
    }
}

/// The cell of a feature in a column of the table listing, before padding.
pub open spec fn feature_cell_text(f: &FeatureListRow, c: ListColumn) -> Seq<char> {
    match c {
        ListColumn::Id => truncated_form(f.id@, 15),
        ListColumn::Title => truncated_form(f.title@, 18),
        ListColumn::Description => "-"@,
        ListColumn::FeatureType => f.feature_type@,
        ListColumn::Component => truncated_form(component_shown(f), 38),
        ListColumn::Status => f.status@,
        ListColumn::Author => truncated_form(f.author@, 12),
        ListColumn::Created => f.created_day@,
    }
}

/// The first `n` columns' texts, each after a space and padded to its width.
pub open spec fn feature_cells(cells: spec_fn(ListColumn) -> Seq<char>, cols: Seq<ListColumn>, n: int) -> Seq<char>
    decreases n,
{
    if n <= 0 {
        Seq::empty()
    } else {
        feature_cells(cells, cols, n - 1) + " "@ + padded(cells(cols[n - 1]), feature_width(cols[n - 1]) as int)
    }
}

/// The sum of the widths of the first `n` columns.
pub open spec fn widths_sum(cols: Seq<ListColumn>, n: int) -> nat
    decreases n,
{
    if n <= 0 {
        0
    } else {
        widths_sum(cols, n - 1) + feature_width(cols[n - 1])
    }
}

/// The length of the rule under the table header: every width, with the
/// short column's, and a space between each two.
pub open spec fn feature_rule_len(cols: Seq<ListColumn>) -> nat {
    8 + widths_sum(cols, cols.len() as int) + cols.len()
}

/// The header line of the table listing.
pub open spec fn feature_table_header(cols: Seq<ListColumn>) -> Seq<char> {
    padded("SHORT"@, 8) + feature_cells(|c: ListColumn| feature_heading(c), cols, cols.len() as int)
}

/// The line of a feature in the table listing.
pub open spec fn feature_table_line(f: &FeatureListRow, cols: Seq<ListColumn>) -> Seq<char> {
    padded(text_or(f.short_id, Seq::empty()), 8) + feature_cells(|c: ListColumn| feature_cell_text(f, c), cols, cols.len() as int)
}

/// What `feat list` prints for the features, one text per line: the count
/// when only that is asked for, a notice when there are none, else the
/// lines of the format.
pub open spec fn feature_list_output(fs: Seq<FeatureListRow>, cols: Seq<ListColumn>, count: bool, format: OutputFormat) -> Seq<Seq<char>> {
    if count {
        seq![decimal(fs.len())]
    } else if fs.len() == 0 {
        seq!["No features found."@]
    } else {
        match format {
            OutputFormat::Csv => seq![feature_csv_header()] + fs.map_values(|f: FeatureListRow| feature_csv_line(&f)),
            OutputFormat::Md => seq!["| Short | ID | Component | Type | Title | Status |"@, "|---|---|---|---|---|---|"@]
                + fs.map_values(|f: FeatureListRow| feature_md_line(&f)),
            OutputFormat::Id => fs.map_values(|f: FeatureListRow| f.id@),
            OutputFormat::ShortId => fs.map_values(|f: FeatureListRow| text_or(f.short_id, Seq::empty())),
            _ => seq![feature_table_header(cols), dash_rule(feature_rule_len(cols))]
                + fs.map_values(|f: FeatureListRow| feature_table_line(&f, cols))
                + seq![Seq::empty(), decimal(fs.len()) + " feature(s) found. Use FEAT@N to reference by short ID."@],
        }
    }
}

/// The texts of a feature that the table listing cuts can be cut cleanly.
pub open spec fn feature_row_fits(f: &FeatureListRow) -> bool {
    &&& cuts_cleanly(f.id@, 15)
    &&& cuts_cleanly(f.title@, 18)
    &&& cuts_cleanly(f.author@, 12)
    &&& (f.part_number@.len() > 0 ==> cuts_cleanly(f.component_title@, 20))
    &&& (f.part_number@.len() == 0 ==> cuts_cleanly(f.component_title@, 25))
    &&& cuts_cleanly(component_shown(f), 38)
}

impl FeatureListRow {
    /// Whether the texts that the table listing cuts can be cut cleanly.
    pub fn fits(&self) -> (r: bool)
        ensures
            r == feature_row_fits(self),
    {
        let has_part = !is_empty_text(self.part_number.as_str());
        let title_fits = if has_part {
            cuts_at(self.component_title.as_str(), 20)
        } else {
            cuts_at(self.component_title.as_str(), 25)
        };
        if !title_fits {
            return false;
        }
        cuts_at(self.id.as_str(), 15) && cuts_at(self.title.as_str(), 18) && cuts_at(self.author.as_str(), 12)
            && cuts_at(component_text(self).as_str(), 38)
    }
}

/// The CSV line of a feature.
fn feature_csv(f: &FeatureListRow) -> (r: String)
    ensures
        r@ == feature_csv_line(f),
{
    proof {
        reveal_strlit("");
        assert(""@ =~= Seq::<char>::empty());
    }
    let mut r = shown_or(&f.short_id, "");
    append_text(&mut r, ",");
    append_text(&mut r, f.id.as_str());
    append_text(&mut r, ",");
    append_text(&mut r, shown_or(&f.component_short, "").as_str());
    append_text(&mut r, ",");
    append_text(&mut r, escape_csv(f.part_number.as_str()).as_str());
    append_text(&mut r, ",");
    append_text(&mut r, escape_csv(f.component_title.as_str()).as_str());
    append_text(&mut r, ",");
    append_text(&mut r, f.feature_type.as_str());
    append_text(&mut r, ",");
    append_text(&mut r, escape_csv(f.title.as_str()).as_str());
    append_text(&mut r, ",");
    append_text(&mut r, f.status.as_str());
    r
}

/// The Markdown line of a feature.
fn feature_md(f: &FeatureListRow) -> (r: String)
    requires
        cuts_cleanly(f.id@, 15),
        cuts_cleanly(f.component_id@, 13),
    ensures
        r@ == feature_md_line(f),
{
    proof {
        reveal_strlit("");
        assert(""@ =~= Seq::<char>::empty());
    }
    let mut r = concat_texts("| ", shown_or(&f.short_id, "").as_str());
    append_text(&mut r, " | ");
    append_text(&mut r, truncate_str(f.id.as_str(), 15).as_str());
    append_text(&mut r, " | ");
    append_text(&mut r, truncate_str(f.component_id.as_str(), 13).as_str());
    append_text(&mut r, " | ");
    append_text(&mut r, f.feature_type.as_str());
    append_text(&mut r, " | ");
    append_text(&mut r, f.title.as_str());
    append_text(&mut r, " | ");
    append_text(&mut r, f.status.as_str());
    append_text(&mut r, " |");
    r
}

/// The width of a column.
fn column_width(c: ListColumn) -> (r: usize)
    ensures
        r == feature_width(c),
{
    match c {
        ListColumn::Id => 17,
        ListColumn::Title => 20,
        ListColumn::Description => 30,
        ListColumn::FeatureType => 10,
        ListColumn::Component => 40,
        ListColumn::Status => 10,
        ListColumn::Author => 14,
        ListColumn::Created => 12,
    }
}

/// The heading of a column, before padding.
fn column_heading(c: ListColumn) -> (r: &'static str)
    ensures
        r@ == feature_heading(c),
{
    match c {
        ListColumn::Id => "ID",
        ListColumn::Title => "TITLE",
        ListColumn::Description => "DESCRIPTION",
        ListColumn::FeatureType => "TYPE",
        ListColumn::Component => "COMPONENT",
        ListColumn::Status => "STATUS",
        ListColumn::Author => "AUTHOR",
        ListColumn::Created => "CREATED",
    }
}

/// The component as the table listing names it.
fn component_text(f: &FeatureListRow) -> (r: String)
    requires
        f.part_number@.len() > 0 ==> cuts_cleanly(f.component_title@, 20),
        f.part_number@.len() == 0 ==> cuts_cleanly(f.component_title@, 25),
    ensures
        r@ == component_shown(f),
{
    let mut r = shown_or(&f.component_short, "?");
    if !is_empty_text(f.part_number.as_str()) {
        append_text(&mut r, " (");
        append_text(&mut r, f.part_number.as_str());
        append_text(&mut r, ") ");
        append_text(&mut r, truncate_str(f.component_title.as_str(), 20).as_str());
    } else if !is_empty_text(f.component_title.as_str()) {
        append_text(&mut r, " ");
        append_text(&mut r, truncate_str(f.component_title.as_str(), 25).as_str());
    }
    r
}

/// The cell of a feature in a column, before padding.
fn cell_text(f: &FeatureListRow, c: ListColumn) -> (r: String)
    requires
        feature_row_fits(f),
    ensures
        r@ == feature_cell_text(f, c),
{
    match c {
        ListColumn::Id => truncate_str(f.id.as_str(), 15),
        ListColumn::Title => truncate_str(f.title.as_str(), 18),
        ListColumn::Description => "-".to_owned(),
        ListColumn::FeatureType => f.feature_type.clone(),
        ListColumn::Component => truncate_str(component_text(f).as_str(), 38),
        ListColumn::Status => f.status.clone(),
        ListColumn::Author => truncate_str(f.author.as_str(), 12),
        ListColumn::Created => f.created_day.clone(),
    }
}

/// The header line of the table listing.
fn feature_header(cols: &Vec<ListColumn>) -> (r: String)
    ensures
        r@ == feature_table_header(cols@),
{
    let mut r = pad_right("SHORT", 8);
    let ghost g = |c: ListColumn| feature_heading(c);
    let mut i: usize = 0;
    while i < cols.len()
        invariant
            i <= cols.len(),
            g == (|c: ListColumn| feature_heading(c)),
            r@ == padded("SHORT"@, 8) + feature_cells(g, cols@, i as int),
        decreases cols.len() - i,
    {
        append_text(&mut r, " ");
        append_text(&mut r, pad_right(column_heading(cols[i]), column_width(cols[i])).as_str());
        assert(r@ =~= padded("SHORT"@, 8) + feature_cells(g, cols@, i as int + 1));
        i = i + 1;
    }
    r
}

/// The line of a feature in the table listing.
fn feature_line(f: &FeatureListRow, cols: &Vec<ListColumn>) -> (r: String)
    requires
        feature_row_fits(f),
    ensures
        r@ == feature_table_line(f, cols@),
{
    proof {
        reveal_strlit("");
        assert(""@ =~= Seq::<char>::empty());
    }
    let mut r = pad_right(shown_or(&f.short_id, "").as_str(), 8);
    let ghost g = |c: ListColumn| feature_cell_text(f, c);
    let mut i: usize = 0;
    while i < cols.len()
        invariant
            i <= cols.len(),
            feature_row_fits(f),
            g == (|c: ListColumn| feature_cell_text(f, c)),
            r@ == padded(text_or(f.short_id, Seq::empty()), 8) + feature_cells(g, cols@, i as int),
        decreases cols.len() - i,
    {
        append_text(&mut r, " ");
        append_text(&mut r, pad_right(cell_text(f, cols[i]).as_str(), column_width(cols[i])).as_str());
        assert(r@ =~= padded(text_or(f.short_id, Seq::empty()), 8) + feature_cells(g, cols@, i as int + 1));
        i = i + 1;
    }
    r
}

/// The length of the rule under the table header.
fn rule_length(cols: &Vec<ListColumn>) -> (r: usize)
    requires
        feature_rule_len(cols@) <= usize::MAX,
    ensures
        r == feature_rule_len(cols@),
{
    let mut total: usize = 8;
    let mut i: usize = 0;
    while i < cols.len()
        invariant
            i <= cols.len(),
            feature_rule_len(cols@) <= usize::MAX,
            total == 8 + widths_sum(cols@, i as int) + i,
        decreases cols.len() - i,
    {
        proof {
            lemma_widths_sum_grows(cols@, i as int + 1, cols.len() as int);
        }
        total = total + column_width(cols[i]) + 1;
        i = i + 1;
    }
    total
}

/// The sum of the widths of fewer columns is no larger.
proof fn lemma_widths_sum_grows(cols: Seq<ListColumn>, m: int, n: int)
    requires
        0 <= m <= n <= cols.len(),
    ensures
        widths_sum(cols, m) + m <= widths_sum(cols, n) + n,
    decreases n - m,
{
    if m < n {
        lemma_widths_sum_grows(cols, m, n - 1);
    }
}

/// Writes what `feat list` prints for the features, one text per line.
pub fn feature_list_lines(features: &Vec<FeatureListRow>, columns: &Vec<ListColumn>, count: bool, format: OutputFormat) -> (r: Vec<String>)
    requires
        features.len() > 0 && !count ==> !is_full_record_format(format) && format != OutputFormat::Auto,
        format == OutputFormat::Tsv ==> feature_rule_len(columns@) <= usize::MAX,
        format == OutputFormat::Tsv ==> forall|i: int| 0 <= i < features.len() ==> feature_row_fits(#[trigger] &features@[i]),
        format == OutputFormat::Md ==> forall|i: int| 0 <= i < features.len() ==> cuts_cleanly((#[trigger] features@[i]).id@, 15)
            && cuts_cleanly(features@[i].component_id@, 13),
    ensures
        r@.map_values(|s: String| s@) == feature_list_output(features@, columns@, count, format),
{
    let mut out: Vec<String> = Vec::new();
    if count {
        out.push(decimal_text(features.len()));
        proof {
            assert(out@.map_values(|s: String| s@) =~= feature_list_output(features@, columns@, count, format));
        }
        return out;
    }
    if features.len() == 0 {
        out.push("No features found.".to_owned());
        proof {
            assert(out@.map_values(|s: String| s@) =~= feature_list_output(features@, columns@, count, format));
        }
        return out;
    }
    let ghost head: Seq<Seq<char>> = match format {
        OutputFormat::Csv => seq![feature_csv_header()],
        OutputFormat::Md => seq!["| Short | ID | Component | Type | Title | Status |"@, "|---|---|---|---|---|---|"@],
        OutputFormat::Id => seq![],
        OutputFormat::ShortId => seq![],
        _ => seq![feature_table_header(columns@), dash_rule(feature_rule_len(columns@))],
    };
    let ghost line = |f: FeatureListRow| match format {
        OutputFormat::Csv => feature_csv_line(&f),
        OutputFormat::Md => feature_md_line(&f),
        OutputFormat::Id => f.id@,
        OutputFormat::ShortId => text_or(f.short_id, Seq::empty()),
        _ => feature_table_line(&f, columns@),
    };
    match format {
        OutputFormat::Csv => {
            out.push("short_id,id,component,part_number,component_title,feature_type,title,status".to_owned());
        },
        OutputFormat::Md => {
            out.push("| Short | ID | Component | Type | Title | Status |".to_owned());
            out.push("|---|---|---|---|---|---|".to_owned());
        },
        OutputFormat::Id => {},
        OutputFormat::ShortId => {},
        _ => {
            out.push(feature_header(columns));
            out.push(dashes(rule_length(columns)));
        },
    }
    assert(out@.map_values(|s: String| s@) =~= head);
    let mut i: usize = 0;
    while i < features.len()
        invariant
            i <= features.len(),
            features.len() > 0 && !count,
            !is_full_record_format(format) && format != OutputFormat::Auto,
            format == OutputFormat::Tsv ==> forall|k: int| 0 <= k < features.len() ==> feature_row_fits(#[trigger] &features@[k]),
            format == OutputFormat::Md ==> forall|k: int| 0 <= k < features.len() ==> cuts_cleanly((#[trigger] features@[k]).id@, 15)
                && cuts_cleanly(features@[k].component_id@, 13),
            line == (|f: FeatureListRow| match format {
                OutputFormat::Csv => feature_csv_line(&f),
                OutputFormat::Md => feature_md_line(&f),
                OutputFormat::Id => f.id@,
                OutputFormat::ShortId => text_or(f.short_id, Seq::empty()),
                _ => feature_table_line(&f, columns@),
            }),
            out@.map_values(|s: String| s@) == head + features@.take(i as int).map_values(line),
        decreases features.len() - i,
    {
        let f = &features[i];
        let text = match format {
            OutputFormat::Csv => feature_csv(f),
            OutputFormat::Md => feature_md(f),
            OutputFormat::Id => f.id.clone(),
            OutputFormat::ShortId => shown_or(&f.short_id, ""),
            _ => feature_line(f, columns),
        };
        proof {
            reveal_strlit("");
            assert(""@ =~= Seq::<char>::empty());
        }
        assert(text@ == line(features@[i as int]));
        let ghost before = out@.map_values(|s: String| s@);
        out.push(text);
        assert(out@.map_values(|s: String| s@) =~= before.push(text@));
        assert(features@.take(i as int + 1) =~= features@.take(i as int).push(features@[i as int]));
        assert(features@.take(i as int + 1).map_values(line) =~= features@.take(i as int).map_values(line).push(line(features@[i as int])));
        i = i + 1;
    }
    assert(features@.take(features.len() as int) =~= features@);
    match format {
        OutputFormat::Csv => {},
        OutputFormat::Md => {},
        OutputFormat::Id => {},
        OutputFormat::ShortId => {},
        _ => {
            let ghost before = out@.map_values(|s: String| s@);
            out.push(String::new());
            let mut footer = decimal_text(features.len());
            append_text(&mut footer, " feature(s) found. Use FEAT@N to reference by short ID.");
            out.push(footer);
            assert(out@.map_values(|s: String| s@) =~= before + seq![Seq::<char>::empty(), decimal(features.len() as nat) + " feature(s) found. Use FEAT@N to reference by short ID."@]);
        },
    }
    assert(out@.map_values(|s: String| s@) =~= feature_list_output(features@, columns@, count, format));
    out
}
} // verus!
