//! Supplier quotations: which quotes a listing shows, in which order, and
//! which quote a component's selection names.

use vstd::prelude::*;
use crate::args::{full_record_format, is_full_record_format, OutputFormat};
use crate::assembly::{status_debug_name, status_debug_text};
use crate::common::{parse_usize, parsed_usize, instant, is_within_days, opt_view, time_key, within_days, Timestamp};
use crate::entities::{QuoteStatus, Status};
use crate::listing::{optional_text_key, optional_text_sort_key, SortKey, SortKeyView};
use crate::assembly::{cuts_at, cuts_cleanly};
use crate::helpers::{csv_field, dash_rule, dashes, escape_csv, shown_or, text_or, truncate_str, truncated_form};
use crate::text::{pieces, split_text, append_text, concat_texts, contains_ignore_case, contains_ignoring_case, decimal, decimal_text, is_empty_text, pad_right, padded, str_contains, text_contains};

verus! {

/// Quote status filter
#[derive(Debug, Clone, Copy, PartialEq, Eq, Structural)]
pub enum QuoteStatusFilter {
    Pending,
    Received,
    Accepted,
    Rejected,
    Expired,
    All,
}

/// Entity status filter
#[derive(Debug, Clone, Copy, PartialEq, Eq, Structural)]
pub enum StatusFilter {
    Draft,
    Review,
    Approved,
    Released,
    Obsolete,
    All,
}

pub struct ListArgs {
    /// Filter by quote status
    pub quote_status: QuoteStatusFilter,

    /// Filter by entity status
    pub status: StatusFilter,

    /// Filter by component
    pub component: Option<String>,

    /// Filter by assembly
    pub assembly: Option<String>,

    /// Filter by supplier ID (SUP@N or full ID)
    pub supplier: Option<String>,

    /// Search in title
    pub search: Option<String>,

    /// Filter by author (substring match)
    pub author: Option<String>,

    /// Show quotes created in last N days
    pub recent: Option<u32>,

    /// Columns to display (can specify multiple)
    pub columns: Vec<ListColumn>,

    /// Sort by field
    pub sort: ListColumn,

    /// Reverse sort order
    pub reverse: bool,

    /// Limit number of results
    pub limit: Option<usize>,

    /// Show only count
    pub count: bool,
}

/// Columns to display in list output
#[derive(Debug, Clone, Copy, PartialEq, Eq, Structural)]
pub enum ListColumn {
    Id,
    Title,
    Supplier,
    Component,
    Price,
    QuoteStatus,
    Status,
    Author,
    Created,
}

pub struct ShowArgs {
    /// Quote ID or short ID (QUOT@N)
    pub id: String,
}

pub struct EditArgs {
    /// Quote ID or short ID (QUOT@N)
    pub id: String,
}

pub struct CompareArgs {
    /// Component or Assembly ID to compare quotes for
    pub item: String,
}

impl ListColumn {
    /// The name this value is written as.
    pub open spec fn display_text(self) -> Seq<char> {
        match self {
            ListColumn::Id => "id"@,
            ListColumn::Title => "title"@,
            ListColumn::Supplier => "supplier"@,
            ListColumn::Component => "component"@,
            ListColumn::Price => "price"@,
            ListColumn::QuoteStatus => "quote-status"@,
            ListColumn::Status => "status"@,
            ListColumn::Author => "author"@,
            ListColumn::Created => "created"@,
        }
    }

    /// The name this value is written as.
    pub fn as_str(&self) -> (r: &'static str)
        ensures
            r@ == self.display_text(),
    {
        match self {
            ListColumn::Id => "id",
            ListColumn::Title => "title",
            ListColumn::Supplier => "supplier",
            ListColumn::Component => "component",
            ListColumn::Price => "price",
            ListColumn::QuoteStatus => "quote-status",
            ListColumn::Status => "status",
            ListColumn::Author => "author",
            ListColumn::Created => "created",
        }
    }
}


/// What the quote list reads of a quote.
pub struct QuoteSummary {
    pub id: String,
    pub title: String,
    pub description: Option<String>,
    pub author: String,
    pub supplier: String,
    pub component: Option<String>,
    pub assembly: Option<String>,
    pub quote_status: QuoteStatus,
    pub status: Status,
    pub created: Timestamp,
}

/// The quote has the quote status a filter asks for.
pub open spec fn quote_status_matches(f: QuoteStatusFilter, s: QuoteStatus) -> bool {
    match f {
        QuoteStatusFilter::Pending => s == QuoteStatus::Pending,
        QuoteStatusFilter::Received => s == QuoteStatus::Received,
        QuoteStatusFilter::Accepted => s == QuoteStatus::Accepted,
        QuoteStatusFilter::Rejected => s == QuoteStatus::Rejected,
        QuoteStatusFilter::Expired => s == QuoteStatus::Expired,
        QuoteStatusFilter::All => true,
    }
}

/// The name of the value a `QuoteStatusFilter` asks for (the filter's own variant
/// name).
pub open spec fn quote_status_filter_name(f: QuoteStatusFilter) -> Seq<char> {
    match f {
        QuoteStatusFilter::Pending => "Pending"@,
        QuoteStatusFilter::Received => "Received"@,
        QuoteStatusFilter::Accepted => "Accepted"@,
        QuoteStatusFilter::Rejected => "Rejected"@,
        QuoteStatusFilter::Expired => "Expired"@,
        QuoteStatusFilter::All => "All"@,
    }
}

/// A filter other than `All` keeps exactly the values whose name is the
/// filter's; `All` keeps every value.
pub proof fn law_quote_status_filter_keeps_its_value(f: QuoteStatusFilter, v: QuoteStatus)
    ensures
        f != QuoteStatusFilter::All ==> (quote_status_matches(f, v) <==> quote_status_debug_name(v) == quote_status_filter_name(f)),
        f == QuoteStatusFilter::All ==> quote_status_matches(f, v),
{
    reveal_strlit("Pending");
    reveal_strlit("Received");
    reveal_strlit("Accepted");
    reveal_strlit("Rejected");
    reveal_strlit("Expired");
    reveal_strlit("All");
    assert("Pending"@.len() == 7 && "Pending"@[0] == 'P');
    assert("Received"@.len() == 8 && "Received"@[0] == 'R' && "Received"@[2] == 'c');
    assert("Accepted"@.len() == 8 && "Accepted"@[0] == 'A');
    assert("Rejected"@.len() == 8 && "Rejected"@[0] == 'R' && "Rejected"@[2] == 'j');
    assert("Expired"@.len() == 7 && "Expired"@[0] == 'E');
    assert("All"@.len() == 3);
}


/// The quote has the status a filter asks for.
pub open spec fn status_matches(f: StatusFilter, s: Status) -> bool {
    match f {
        StatusFilter::Draft => s == Status::Draft,
        StatusFilter::Review => s == Status::Review,
        StatusFilter::Approved => s == Status::Approved,
        StatusFilter::Released => s == Status::Released,
        StatusFilter::Obsolete => s == Status::Obsolete,
        StatusFilter::All => true,
    }
}

/// The name of the value a `StatusFilter` asks for (the filter's own variant
/// name).
pub open spec fn status_filter_name(f: StatusFilter) -> Seq<char> {
    match f {
        StatusFilter::Draft => "Draft"@,
        StatusFilter::Review => "Review"@,
        StatusFilter::Approved => "Approved"@,
        StatusFilter::Released => "Released"@,
        StatusFilter::Obsolete => "Obsolete"@,
        StatusFilter::All => "All"@,
    }
}

/// A filter other than `All` keeps exactly the values whose name is the
/// filter's; `All` keeps every value.
pub proof fn law_status_filter_keeps_its_value(f: StatusFilter, v: Status)
    ensures
        f != StatusFilter::All ==> (status_matches(f, v) <==> status_debug_name(v) == status_filter_name(f)),
        f == StatusFilter::All ==> status_matches(f, v),
{
    reveal_strlit("Draft");
    reveal_strlit("Review");
    reveal_strlit("Approved");
    reveal_strlit("Released");
    reveal_strlit("Obsolete");
    reveal_strlit("All");
    assert("Draft"@.len() == 5);
    assert("Review"@.len() == 6);
    assert("Approved"@.len() == 8 && "Approved"@[0] == 'A');
    assert("Released"@.len() == 8 && "Released"@[0] == 'R');
    assert("Obsolete"@.len() == 8 && "Obsolete"@[0] == 'O');
    assert("All"@.len() == 3);
}


/// The filters of `quote list` that name other entities, with their short
/// forms resolved.
pub struct QuoteFilterIds {
    pub component: Option<String>,
    pub assembly: Option<String>,
    pub supplier: Option<String>,
}

/// The quote passes every filter of `quote list`.
pub open spec fn quote_listed(args: &ListArgs, ids: &QuoteFilterIds, q: &QuoteSummary, now: Timestamp) -> bool {
    &&& quote_status_matches(args.quote_status, q.quote_status)
    &&& status_matches(args.status, q.status)
    &&& (ids.component matches Some(c) ==> (q.component matches Some(x) && text_contains(x@, c@)))
    &&& (ids.assembly matches Some(a) ==> (q.assembly matches Some(x) && text_contains(x@, a@)))
    &&& (ids.supplier matches Some(s) ==> text_contains(q.supplier@, s@))
    &&& (args.search matches Some(s) ==> (contains_ignoring_case(q.title@, s@)
        || (q.description matches Some(d) && contains_ignoring_case(d@, s@))))
    &&& (args.author matches Some(a) ==> contains_ignoring_case(q.author@, a@))
    &&& (args.recent matches Some(days) ==> within_days(q.created, now, days))
}

/// Whether `quote list` shows the quote.
pub fn quote_matches(args: &ListArgs, ids: &QuoteFilterIds, q: &QuoteSummary, now: Timestamp) -> (r: bool)
    ensures
        r == quote_listed(args, ids, q, now),
{
    let status_ok = match args.quote_status {
        QuoteStatusFilter::Pending => q.quote_status == QuoteStatus::Pending,
        QuoteStatusFilter::Received => q.quote_status == QuoteStatus::Received,
        QuoteStatusFilter::Accepted => q.quote_status == QuoteStatus::Accepted,
        QuoteStatusFilter::Rejected => q.quote_status == QuoteStatus::Rejected,
        QuoteStatusFilter::Expired => q.quote_status == QuoteStatus::Expired,
        QuoteStatusFilter::All => true,
    };
    let entity_ok = match args.status {
        StatusFilter::Draft => q.status == Status::Draft,
        StatusFilter::Review => q.status == Status::Review,
        StatusFilter::Approved => q.status == Status::Approved,
        StatusFilter::Released => q.status == Status::Released,
        StatusFilter::Obsolete => q.status == Status::Obsolete,
        StatusFilter::All => true,
    };
    if !status_ok || !entity_ok {
        return false;
    }
    if let Some(c) = &ids.component {
        let ok = match &q.component {
            Some(x) => str_contains(x.as_str(), c.as_str()),
            None => false,
        };
        if !ok {
            return false;
        }
    }
    if let Some(a) = &ids.assembly {
        let ok = match &q.assembly {
            Some(x) => str_contains(x.as_str(), a.as_str()),
            None => false,
        };
        if !ok {
            return false;
        }
    }
    if let Some(s) = &ids.supplier {
        if !str_contains(q.supplier.as_str(), s.as_str()) {
            return false;
        }
    }
    if let Some(s) = &args.search {
        let in_description = match &q.description {
            Some(d) => contains_ignore_case(d.as_str(), s.as_str()),
            None => false,
        };
        if !(contains_ignore_case(q.title.as_str(), s.as_str()) || in_description) {
            return false;
        }
    }
    if let Some(a) = &args.author {
        if !contains_ignore_case(q.author.as_str(), a.as_str()) {
            return false;
        }
    }
    if let Some(days) = args.recent {
        if !is_within_days(q.created, now, days) {
            return false;
        }
    }
    true
}

/// The name a quote status has in its debug form.
pub open spec fn quote_status_debug_name(s: QuoteStatus) -> Seq<char> {
    match s {
        QuoteStatus::Pending => "Pending"@,
        QuoteStatus::Received => "Received"@,
        QuoteStatus::Accepted => "Accepted"@,
        QuoteStatus::Rejected => "Rejected"@,
        QuoteStatus::Expired => "Expired"@,
    }
}

/// The key a quote is sorted by for a column; the price column is ordered
/// by decimal prices, which this library does not hold, so it has none.
pub open spec fn quote_key(col: ListColumn, q: &QuoteSummary) -> Option<SortKeyView> {
    match col {
        ListColumn::Id => Some(SortKeyView::Text(q.id@)),
        ListColumn::Title => Some(SortKeyView::Text(q.title@)),
        ListColumn::Supplier => Some(SortKeyView::Text(q.supplier@)),
        ListColumn::Component => Some(SortKeyView::Text(optional_text_key(q.component))),
        ListColumn::Price => None,
        ListColumn::QuoteStatus => Some(SortKeyView::Text(quote_status_debug_name(q.quote_status))),
        ListColumn::Status => Some(SortKeyView::Text(status_debug_name(q.status))),
        ListColumn::Author => Some(SortKeyView::Text(q.author@)),
        ListColumn::Created => Some(SortKeyView::Num(instant(q.created))),
    }
}

/// The sort key of a quote for the chosen column (none for the price).
pub fn quote_sort_key(col: ListColumn, q: &QuoteSummary) -> (r: Option<SortKey>)
    ensures
        match r {
            Some(k) => quote_key(col, q) == Some(k@),
            None => quote_key(col, q) is None,
        },
{
    match col {
        ListColumn::Id => Some(SortKey::text(q.id.as_str())),
        ListColumn::Title => Some(SortKey::text(q.title.as_str())),
        ListColumn::Supplier => Some(SortKey::text(q.supplier.as_str())),
        ListColumn::Component => Some(optional_text_sort_key(&q.component)),
        ListColumn::Price => None,
        ListColumn::QuoteStatus => Some(SortKey::text(match q.quote_status {
            QuoteStatus::Pending => "Pending",
            QuoteStatus::Received => "Received",
            QuoteStatus::Accepted => "Accepted",
            QuoteStatus::Rejected => "Rejected",
            QuoteStatus::Expired => "Expired",
        })),
        ListColumn::Status => Some(SortKey::text(status_debug_text(q.status))),
        ListColumn::Author => Some(SortKey::text(q.author.as_str())),
        ListColumn::Created => Some(time_key(q.created)),
    }
}

/// The listing can be answered from the entity cache: it filters by neither
/// assembly nor age, and the format does not ask for whole records.
pub open spec fn quote_cache_serves(args: &ListArgs, format: OutputFormat) -> bool {
    args.assembly is None && args.recent is None && !is_full_record_format(format)
}

/// Whether `quote list` may read the entity cache.
pub fn quote_can_use_cache(args: &ListArgs, format: OutputFormat) -> (r: bool)
    ensures
        r == quote_cache_serves(args, format),
{
    args.assembly.is_none() && args.recent.is_none() && !full_record_format(format)
}

/// What a new quotation prices.
#[derive(Debug, Clone)]
pub enum QuotedItem {
    Component(String),
    Assembly(String),
}

/// Mathematical form of a [`QuotedItem`].
pub enum QuotedItemView {
    Component(Seq<char>),
    Assembly(Seq<char>),
}

impl View for QuotedItem {
    type V = QuotedItemView;

    open spec fn view(&self) -> QuotedItemView {
        match self {
            QuotedItem::Component(c) => QuotedItemView::Component(c@),
            QuotedItem::Assembly(a) => QuotedItemView::Assembly(a@),
        }
    }
}

/// Why `quote new` refuses its options.
#[derive(Debug, Clone, Copy, PartialEq, Eq, Structural)]
pub enum NewQuoteError {
    /// Both a component and an assembly were given.
    BothItems,
    /// Neither a component nor an assembly was given.
    NoItem,
    /// No supplier was given.
    NoSupplier,
}


/// The item, supplier and title of a new quotation given on the command
/// line: exactly one of component and assembly, and a supplier, are needed;
/// the title defaults to "Quote".
pub open spec fn quote_from_options(component: Option<Seq<char>>, assembly: Option<Seq<char>>, supplier: Option<Seq<char>>, title: Option<Seq<char>>) -> Result<(QuotedItemView, Seq<char>, Seq<char>), NewQuoteError> {
    if component is Some && assembly is Some {
        Err(NewQuoteError::BothItems)
    } else if component is None && assembly is None {
        Err(NewQuoteError::NoItem)
    } else if supplier is None {
        Err(NewQuoteError::NoSupplier)
    } else {
        let item = match component {
            Some(c) => QuotedItemView::Component(c),
            None => QuotedItemView::Assembly(assembly.unwrap()),
        };
        let t = match title {
            Some(t) => t,
            None => "Quote"@,
        };
        Ok((item, supplier.unwrap(), t))
    }
}

/// The item, supplier and title of a new quotation from the command-line
/// options (identifiers as typed; short forms are resolved afterwards).
pub fn new_quote_from_options(component: Option<String>, assembly: Option<String>, supplier: Option<String>, title: Option<String>) -> (r: Result<(QuotedItem, String, String), NewQuoteError>)
    ensures
        match r {
            Ok((item, s, t)) => quote_from_options(opt_view(component), opt_view(assembly), opt_view(supplier), opt_view(title))
                == Ok::<(QuotedItemView, Seq<char>, Seq<char>), NewQuoteError>((item@, s@, t@)),
            Err(e) => quote_from_options(opt_view(component), opt_view(assembly), opt_view(supplier), opt_view(title))
                == Err::<(QuotedItemView, Seq<char>, Seq<char>), NewQuoteError>(e),
        },
{
    if component.is_some() && assembly.is_some() {
        return Err(NewQuoteError::BothItems);
    }
    let item = match (component, assembly) {
        (Some(c), _) => QuotedItem::Component(c),
        (None, Some(a)) => QuotedItem::Assembly(a),
        (None, None) => {
            return Err(NewQuoteError::NoItem);
        },
    };
    let supplier = match supplier {
        Some(s) => s,
        None => {
            return Err(NewQuoteError::NoSupplier);
        },
    };
    let title = match title {
        Some(t) => t,
        None => "Quote".to_owned(),
    };
    Ok((item, supplier, title))
}

/// The item, supplier and title of a new quotation from the answers of the
/// interactive wizard: a non-empty component wins over the assembly; the
/// title defaults to "New Quote" and the supplier to nothing.
pub open spec fn quote_from_answers(component: Option<Seq<char>>, assembly: Option<Seq<char>>, supplier: Option<Seq<char>>, title: Option<Seq<char>>) -> (QuotedItemView, Seq<char>, Seq<char>) {
    let item = match component {
        Some(c) => if c.len() > 0 {
            QuotedItemView::Component(c)
        } else {
            QuotedItemView::Assembly(assembly.unwrap())
        },
        None => QuotedItemView::Assembly(assembly.unwrap()),
    };
    let s = match supplier {
        Some(s) => s,
        None => Seq::empty(),
    };
    let t = match title {
        Some(t) => t,
        None => "New Quote"@,
    };
    (item, s, t)
}

/// The item, supplier and title of a new quotation from the wizard's
/// answers; some item must have been answered.
pub fn new_quote_from_answers(component: Option<String>, assembly: Option<String>, supplier: Option<String>, title: Option<String>) -> (r: (QuotedItem, String, String))
    requires
        (component matches Some(c) && c@.len() > 0) || assembly is Some,
    ensures
        (r.0@, r.1@, r.2@) == quote_from_answers(opt_view(component), opt_view(assembly), opt_view(supplier), opt_view(title)),
{
    let item = match component {
        Some(c) => if !is_empty_text(c.as_str()) {
            QuotedItem::Component(c)
        } else {
            QuotedItem::Assembly(assembly.unwrap())
        },
        None => QuotedItem::Assembly(assembly.unwrap()),
    };
    let supplier = match supplier {
        Some(s) => s,
        None => String::new(),
    };
    let title = match title {
        Some(t) => t,
        None => "New Quote".to_owned(),
    };
    (item, supplier, title)
}

/// Whether `quote new` opens the new file in the editor: when asked to, or
/// when nothing but the defaults went in and it was not told otherwise.
pub fn quote_opens_editor(edit: bool, no_edit: bool, interactive: bool, has_breaks: bool, has_price: bool) -> (r: bool)
    ensures
        r == (edit || (!no_edit && !interactive && !has_breaks && !has_price)),
{
    edit || (!no_edit && !interactive && !has_breaks && !has_price)
}


/// A quote as the list shows it (from the entity cache): each text as
/// stored, with the short forms the caller found and the unit price already
/// written with two decimals.
pub struct QuoteListRow {
    pub id: String,
    /// The quote's short form, if it has one.
    pub short_id: Option<String>,
    pub title: String,
    pub supplier: Option<String>,
    /// The supplier's short form, if it has one.
    pub supplier_short: Option<String>,
    /// The component quoted for.
    pub component: Option<String>,
    /// The short form of the linked item, if it has one.
    pub component_short: Option<String>,
    pub price: Option<String>,
    pub lead_time_days: Option<u32>,
    pub quote_status: Option<String>,
    pub status: String,
    pub author: String,
    /// The creation day, as written.
    pub created_day: String,
}

/// The supplier as the CSV and Markdown lines show it.
pub open spec fn supplier_shown(q: &QuoteListRow) -> Seq<char> {
    match q.supplier {
        Some(s) => text_or(q.supplier_short, s@),
        None => "-"@,
    }
}

/// The number in decimal followed by `unit`, or the stand-in.
pub open spec fn number_or(d: Option<u32>, none: Seq<char>, unit: Seq<char>) -> Seq<char> {
    match d {
        Some(n) => decimal(n as nat) + unit,
        None => none,
    }
}

/// The header of the CSV listing.
pub open spec fn quote_csv_header() -> Seq<char> {
    "short_id,id,title,supplier,linked_item,unit_price,lead_time,quote_status,status"@
}

/// The CSV line of a quote.
pub open spec fn quote_csv_line(q: &QuoteListRow) -> Seq<char> {
    text_or(q.short_id, Seq::empty()) + ","@ + q.id@ + ","@ + csv_field(q.title@) + ","@ + supplier_shown(q) + ","@
        + text_or(q.component, "-"@) + ","@ + text_or(q.price, Seq::empty()) + ","@ + number_or(q.lead_time_days, Seq::empty(), Seq::empty())
        + ","@ + text_or(q.quote_status, "-"@) + ","@ + q.status@
}

/// The Markdown line of a quote.
pub open spec fn quote_md_line(q: &QuoteListRow) -> Seq<char> {
    "| "@ + text_or(q.short_id, Seq::empty()) + " | "@ + truncated_form(q.id@, 15) + " | "@ + q.title@ + " | "@ + supplier_shown(q)
        + " | "@ + text_or(q.component, "-"@) + " | "@ + text_or(q.price, "-"@) + " | "@ + number_or(q.lead_time_days, "-"@, "d"@)
        + " | "@ + text_or(q.quote_status, "-"@) + " |"@
}

/// The heading of a column in the table listing, padded to its width.
pub open spec fn quote_heading(c: ListColumn) -> Seq<char> {
    match c {
        ListColumn::Id => padded("ID"@, 17),
        ListColumn::Title => padded("TITLE"@, 20),
        ListColumn::Supplier => padded("SUPPLIER"@, 15),
        ListColumn::Component => padded("FOR"@, 12),
        ListColumn::Price => padded("PRICE"@, 10),
        ListColumn::QuoteStatus => padded("Q-STATUS"@, 10),
        ListColumn::Status => padded("STATUS"@, 10),
        ListColumn::Author => padded("AUTHOR"@, 14),
        ListColumn::Created => padded("CREATED"@, 12),
    }
}

/// The cell of a quote in a column of the table listing.
pub open spec fn quote_cell(q: &QuoteListRow, c: ListColumn) -> Seq<char> {
    match c {
        ListColumn::Id => padded(truncated_form(q.id@, 15), 17),
        ListColumn::Title => padded(truncated_form(q.title@, 18), 20),
        ListColumn::Supplier => padded(match q.supplier {
            Some(s) => text_or(q.supplier_short, truncated_form(s@, 13)),
            None => "-"@,
        }, 15),
        ListColumn::Component => padded(text_or(q.component_short, truncated_form(text_or(q.component, "-"@), 10)), 12),
        ListColumn::Price => padded(text_or(q.price, "-"@), 10),
        ListColumn::QuoteStatus => padded(text_or(q.quote_status, "-"@), 10),
        ListColumn::Status => padded(q.status@, 10),
        ListColumn::Author => padded(truncated_form(q.author@, 12), 14),
        ListColumn::Created => padded(q.created_day@, 12),
    }
}

/// The first `n` columns' texts, each after a space.
pub open spec fn joined_cells(cells: spec_fn(ListColumn) -> Seq<char>, cols: Seq<ListColumn>, n: int) -> Seq<char>
    decreases n,
{
    if n <= 0 {
        Seq::empty()
    } else {
        joined_cells(cells, cols, n - 1) + " "@ + cells(cols[n - 1])
    }
}

/// The header line of the table listing.
pub open spec fn quote_table_header(cols: Seq<ListColumn>) -> Seq<char> {
    padded("SHORT"@, 8) + joined_cells(|c: ListColumn| quote_heading(c), cols, cols.len() as int)
}

/// The line of a quote in the table listing.
pub open spec fn quote_table_line(q: &QuoteListRow, cols: Seq<ListColumn>) -> Seq<char> {
    padded(text_or(q.short_id, Seq::empty()), 8) + joined_cells(|c: ListColumn| quote_cell(q, c), cols, cols.len() as int)
}

/// What `quote list` prints for the quotes, one text per line: the count
/// when only that is asked for, a notice when there are none, else the
/// lines of the format.
pub open spec fn quote_list_output(qs: Seq<QuoteListRow>, cols: Seq<ListColumn>, count: bool, format: OutputFormat) -> Seq<Seq<char>> {
    if count {
        seq![decimal(qs.len())]
    } else if qs.len() == 0 {
        seq!["No quotes found."@]
    } else {
        match format {
            OutputFormat::Csv => seq![quote_csv_header()] + qs.map_values(|q: QuoteListRow| quote_csv_line(&q)),
            OutputFormat::Md => seq!["| Short | ID | Title | Supplier | For | Price | Lead | Q-Status |"@, "|---|---|---|---|---|---|---|---|"@]
                + qs.map_values(|q: QuoteListRow| quote_md_line(&q)),
            OutputFormat::Id => qs.map_values(|q: QuoteListRow| q.id@),
            OutputFormat::ShortId => qs.map_values(|q: QuoteListRow| text_or(q.short_id, Seq::empty())),
            _ => seq![quote_table_header(cols), dash_rule(110)] + qs.map_values(|q: QuoteListRow| quote_table_line(&q, cols))
                + seq![Seq::empty(), decimal(qs.len()) + " quote(s) found. Use QUOT@N to reference by short ID."@],
        }
    }
}

/// The texts of a quote that the table listing cuts can be cut cleanly.
pub open spec fn quote_row_fits(q: &QuoteListRow) -> bool {
    &&& cuts_cleanly(q.id@, 15)
    &&& cuts_cleanly(q.title@, 18)
    &&& cuts_cleanly(q.author@, 12)
    &&& (q.supplier matches Some(s) ==> cuts_cleanly(s@, 13))
    &&& cuts_cleanly(text_or(q.component, "-"@), 10)
}

impl QuoteListRow {
    /// Whether the texts that the table listing cuts can be cut cleanly.
    pub fn fits(&self) -> (r: bool)
        ensures
            r == quote_row_fits(self),
    {
        let component_fits = match &self.component {
            Some(c) => cuts_at(c.as_str(), 10),
            None => cuts_at("-", 10),
        };
        proof {
            reveal_strlit("-");
        }
        let supplier_fits = match &self.supplier {
            Some(s) => cuts_at(s.as_str(), 13),
            None => true,
        };
        cuts_at(self.id.as_str(), 15) && cuts_at(self.title.as_str(), 18) && cuts_at(self.author.as_str(), 12)
            && supplier_fits && component_fits
    }
}

/// The CSV line of a quote.
fn csv_line(q: &QuoteListRow) -> (r: String)
    ensures
        r@ == quote_csv_line(q),
{
    proof {
        reveal_strlit("");
        assert(""@ =~= Seq::<char>::empty());
    }
    let mut r = shown_or(&q.short_id, "");
    append_text(&mut r, ",");
    append_text(&mut r, q.id.as_str());
    append_text(&mut r, ",");
    append_text(&mut r, escape_csv(q.title.as_str()).as_str());
    append_text(&mut r, ",");
    append_text(&mut r, supplier_text(q).as_str());
    append_text(&mut r, ",");
    append_text(&mut r, shown_or(&q.component, "-").as_str());
    append_text(&mut r, ",");
    append_text(&mut r, shown_or(&q.price, "").as_str());
    append_text(&mut r, ",");
    append_text(&mut r, number_text(q.lead_time_days, "", "").as_str());
    append_text(&mut r, ",");
    append_text(&mut r, shown_or(&q.quote_status, "-").as_str());
    append_text(&mut r, ",");
    append_text(&mut r, q.status.as_str());
    r
}

/// The supplier as the CSV and Markdown lines show it.
fn supplier_text(q: &QuoteListRow) -> (r: String)
    ensures
        r@ == supplier_shown(q),
{
    match &q.supplier {
        Some(s) => match &q.supplier_short {
            Some(x) => x.clone(),
            None => s.clone(),
        },
        None => "-".to_owned(),
    }
}

/// The number in decimal followed by `unit`, or the stand-in.
fn number_text(d: Option<u32>, none: &str, unit: &str) -> (r: String)
    ensures
        r@ == number_or(d, none@, unit@),
{
    match d {
        Some(n) => concat_texts(decimal_text(n as usize).as_str(), unit),
        None => none.to_owned(),
    }
}

/// The Markdown line of a quote.
fn md_line(q: &QuoteListRow) -> (r: String)
    requires
        cuts_cleanly(q.id@, 15),
    ensures
        r@ == quote_md_line(q),
{
    proof {
        reveal_strlit("");
        assert(""@ =~= Seq::<char>::empty());
    }
    let mut r = concat_texts("| ", shown_or(&q.short_id, "").as_str());
    append_text(&mut r, " | ");
    append_text(&mut r, truncate_str(q.id.as_str(), 15).as_str());
    append_text(&mut r, " | ");
    append_text(&mut r, q.title.as_str());
    append_text(&mut r, " | ");
    append_text(&mut r, supplier_text(q).as_str());
    append_text(&mut r, " | ");
    append_text(&mut r, shown_or(&q.component, "-").as_str());
    append_text(&mut r, " | ");
    append_text(&mut r, shown_or(&q.price, "-").as_str());
    append_text(&mut r, " | ");
    append_text(&mut r, number_text(q.lead_time_days, "-", "d").as_str());
    append_text(&mut r, " | ");
    append_text(&mut r, shown_or(&q.quote_status, "-").as_str());
    append_text(&mut r, " |");
    r
}

/// The heading of a column, padded to its width.
fn heading(c: ListColumn) -> (r: String)
    ensures
        r@ == quote_heading(c),
{
    match c {
        ListColumn::Id => pad_right("ID", 17),
        ListColumn::Title => pad_right("TITLE", 20),
        ListColumn::Supplier => pad_right("SUPPLIER", 15),
        ListColumn::Component => pad_right("FOR", 12),
        ListColumn::Price => pad_right("PRICE", 10),
        ListColumn::QuoteStatus => pad_right("Q-STATUS", 10),
        ListColumn::Status => pad_right("STATUS", 10),
        ListColumn::Author => pad_right("AUTHOR", 14),
        ListColumn::Created => pad_right("CREATED", 12),
    }
}

/// The cell of a quote in a column.
fn cell(q: &QuoteListRow, c: ListColumn) -> (r: String)
    requires
        quote_row_fits(q),
    ensures
        r@ == quote_cell(q, c),
{
    match c {
        ListColumn::Id => pad_right(truncate_str(q.id.as_str(), 15).as_str(), 17),
        ListColumn::Title => pad_right(truncate_str(q.title.as_str(), 18).as_str(), 20),
        ListColumn::Supplier => {
            let shown = match &q.supplier {
                Some(s) => match &q.supplier_short {
                    Some(x) => x.clone(),
                    None => truncate_str(s.as_str(), 13),
                },
                None => "-".to_owned(),
            };
            pad_right(shown.as_str(), 15)
        },
        ListColumn::Component => {
            let shown = match &q.component_short {
                Some(x) => x.clone(),
                None => truncate_str(shown_or(&q.component, "-").as_str(), 10),
            };
            pad_right(shown.as_str(), 12)
        },
        ListColumn::Price => pad_right(shown_or(&q.price, "-").as_str(), 10),
        ListColumn::QuoteStatus => pad_right(shown_or(&q.quote_status, "-").as_str(), 10),
        ListColumn::Status => pad_right(q.status.as_str(), 10),
        ListColumn::Author => pad_right(truncate_str(q.author.as_str(), 12).as_str(), 14),
        ListColumn::Created => pad_right(q.created_day.as_str(), 12),
    }
}

/// The header line of the table listing.
fn table_header(cols: &Vec<ListColumn>) -> (r: String)
    ensures
        r@ == quote_table_header(cols@),
{
    let mut r = pad_right("SHORT", 8);
    let ghost f = |c: ListColumn| quote_heading(c);
    let mut i: usize = 0;
    while i < cols.len()
        invariant
            i <= cols.len(),
            f == (|c: ListColumn| quote_heading(c)),
            r@ == padded("SHORT"@, 8) + joined_cells(f, cols@, i as int),
        decreases cols.len() - i,
    {
        append_text(&mut r, " ");
        append_text(&mut r, heading(cols[i]).as_str());
        assert(r@ =~= padded("SHORT"@, 8) + joined_cells(f, cols@, i as int + 1));
        i = i + 1;
    }
    r
}

/// The line of a quote in the table listing.
fn table_line(q: &QuoteListRow, cols: &Vec<ListColumn>) -> (r: String)
    requires
        quote_row_fits(q),
    ensures
        r@ == quote_table_line(q, cols@),
{
    proof {
        reveal_strlit("");
        assert(""@ =~= Seq::<char>::empty());
    }
    let mut r = pad_right(shown_or(&q.short_id, "").as_str(), 8);
    let ghost f = |c: ListColumn| quote_cell(q, c);
    let mut i: usize = 0;
    while i < cols.len()
        invariant
            i <= cols.len(),
            quote_row_fits(q),
            f == (|c: ListColumn| quote_cell(q, c)),
            r@ == padded(text_or(q.short_id, Seq::empty()), 8) + joined_cells(f, cols@, i as int),
        decreases cols.len() - i,
    {
        append_text(&mut r, " ");
        append_text(&mut r, cell(q, cols[i]).as_str());
        assert(r@ =~= padded(text_or(q.short_id, Seq::empty()), 8) + joined_cells(f, cols@, i as int + 1));
        i = i + 1;
    }
    r
}

/// Writes what `quote list` prints for the quotes, one text per line.
pub fn quote_list_lines(quotes: &Vec<QuoteListRow>, columns: &Vec<ListColumn>, count: bool, format: OutputFormat) -> (r: Vec<String>)
    requires
        quotes.len() > 0 && !count ==> !is_full_record_format(format) && format != OutputFormat::Auto,
        format == OutputFormat::Tsv ==> forall|i: int| 0 <= i < quotes.len() ==> quote_row_fits(#[trigger] &quotes@[i]),
        format == OutputFormat::Md ==> forall|i: int| 0 <= i < quotes.len() ==> cuts_cleanly((#[trigger] quotes@[i]).id@, 15),
    ensures
        r@.map_values(|s: String| s@) == quote_list_output(quotes@, columns@, count, format),
{
    let mut out: Vec<String> = Vec::new();
    if count {
        out.push(decimal_text(quotes.len()));
        proof {
            assert(out@.map_values(|s: String| s@) =~= quote_list_output(quotes@, columns@, count, format));
        }
        return out;
    }
    if quotes.len() == 0 {
        out.push("No quotes found.".to_owned());
        proof {
            assert(out@.map_values(|s: String| s@) =~= quote_list_output(quotes@, columns@, count, format));
        }
        return out;
    }
    let ghost head: Seq<Seq<char>> = match format {
        OutputFormat::Csv => seq![quote_csv_header()],
        OutputFormat::Md => seq!["| Short | ID | Title | Supplier | For | Price | Lead | Q-Status |"@, "|---|---|---|---|---|---|---|---|"@],
        OutputFormat::Id => seq![],
        OutputFormat::ShortId => seq![],
        _ => seq![quote_table_header(columns@), dash_rule(110)],
    };
    let ghost line = |q: QuoteListRow| match format {
        OutputFormat::Csv => quote_csv_line(&q),
        OutputFormat::Md => quote_md_line(&q),
        OutputFormat::Id => q.id@,
        OutputFormat::ShortId => text_or(q.short_id, Seq::empty()),
        _ => quote_table_line(&q, columns@),
    };
    match format {
        OutputFormat::Csv => {
            out.push("short_id,id,title,supplier,linked_item,unit_price,lead_time,quote_status,status".to_owned());
        },
        OutputFormat::Md => {
            out.push("| Short | ID | Title | Supplier | For | Price | Lead | Q-Status |".to_owned());
            out.push("|---|---|---|---|---|---|---|---|".to_owned());
        },
        OutputFormat::Id => {},
        OutputFormat::ShortId => {},
        _ => {
            out.push(table_header(columns));
            out.push(dashes(110));
        },
    }
    assert(out@.map_values(|s: String| s@) =~= head);
    let mut i: usize = 0;
    while i < quotes.len()
        invariant
            i <= quotes.len(),
            quotes.len() > 0 && !count,
            !is_full_record_format(format) && format != OutputFormat::Auto,
            format == OutputFormat::Tsv ==> forall|k: int| 0 <= k < quotes.len() ==> quote_row_fits(#[trigger] &quotes@[k]),
            format == OutputFormat::Md ==> forall|k: int| 0 <= k < quotes.len() ==> cuts_cleanly((#[trigger] quotes@[k]).id@, 15),
            line == (|q: QuoteListRow| match format {
                OutputFormat::Csv => quote_csv_line(&q),
                OutputFormat::Md => quote_md_line(&q),
                OutputFormat::Id => q.id@,
                OutputFormat::ShortId => text_or(q.short_id, Seq::empty()),
                _ => quote_table_line(&q, columns@),
            }),
            out@.map_values(|s: String| s@) == head + quotes@.take(i as int).map_values(line),
        decreases quotes.len() - i,
    {
        let q = &quotes[i];
        let text = match format {
            OutputFormat::Csv => csv_line(q),
            OutputFormat::Md => md_line(q),
            OutputFormat::Id => q.id.clone(),
            OutputFormat::ShortId => shown_or(&q.short_id, ""),
            _ => table_line(q, columns),
        };
        proof {
            reveal_strlit("");
            assert(""@ =~= Seq::<char>::empty());
        }
        assert(text@ == line(quotes@[i as int]));
        let ghost before = out@.map_values(|s: String| s@);
        out.push(text);
        assert(out@.map_values(|s: String| s@) =~= before.push(text@));
        assert(quotes@.take(i as int + 1) =~= quotes@.take(i as int).push(quotes@[i as int]));
        assert(quotes@.take(i as int + 1).map_values(line) =~= quotes@.take(i as int).map_values(line).push(line(quotes@[i as int])));
        i = i + 1;
    }
    assert(quotes@.take(quotes.len() as int) =~= quotes@);
    match format {
        OutputFormat::Csv => {},
        OutputFormat::Md => {},
        OutputFormat::Id => {},
        OutputFormat::ShortId => {},
        _ => {
            let ghost before = out@.map_values(|s: String| s@);
            out.push(String::new());
            let mut footer = decimal_text(quotes.len());
            append_text(&mut footer, " quote(s) found. Use QUOT@N to reference by short ID.");
            out.push(footer);
            assert(out@.map_values(|s: String| s@) =~= before + seq![Seq::<char>::empty(), decimal(quotes.len() as nat) + " quote(s) found. Use QUOT@N to reference by short ID."@]);
        },
    }
    assert(out@.map_values(|s: String| s@) =~= quote_list_output(quotes@, columns@, count, format));
    out
}

/// A quote is compared for `item` when its component or its assembly
/// contains the item's identifier.
pub open spec fn compare_selects(component: Option<Seq<char>>, assembly: Option<Seq<char>>, item: Seq<char>) -> bool {
    (component matches Some(c) && text_contains(c, item)) || (assembly matches Some(a) && text_contains(a, item))
}

/// Whether a quote for `component` or `assembly` is compared for `item`.
pub fn quote_compared(component: &Option<String>, assembly: &Option<String>, item: &str) -> (r: bool)
    ensures
        r == compare_selects(opt_view(*component), opt_view(*assembly), item@),
{
    let by_component = match component {
        Some(c) => str_contains(c.as_str(), item),
        None => false,
    };
    let by_assembly = match assembly {
        Some(a) => str_contains(a.as_str(), item),
        None => false,
    };
    by_component || by_assembly
}

/// A quote as the comparison shows it: each text as stored, with the short
/// forms the caller found and the unit price and tooling cost already
/// written.
pub struct CompareRow {
    /// The quote's short form, if it has one.
    pub short_id: Option<String>,
    pub title: String,
    pub supplier: String,
    /// The supplier's short form, if it has one.
    pub supplier_short: Option<String>,
    pub price: Option<String>,
    pub moq: Option<u32>,
    pub lead_time_days: Option<u32>,
    pub tooling: Option<String>,
    /// The quote status, as written.
    pub quote_status: String,
}

/// The header line of the comparison table.
pub open spec fn compare_header() -> Seq<char> {
    padded("SHORT"@, 8) + " "@ + padded("TITLE"@, 20) + " "@ + padded("SUPPLIER"@, 15) + " "@ + padded("PRICE"@, 10) + " "@
        + padded("MOQ"@, 8) + " "@ + padded("LEAD"@, 10) + " "@ + padded("TOOLING"@, 10) + " "@ + padded("STATUS"@, 10)
}

/// The line of a quote in the comparison table.
pub open spec fn compare_line(q: &CompareRow) -> Seq<char> {
    padded(text_or(q.short_id, Seq::empty()), 8) + " "@ + padded(truncated_form(q.title@, 18), 20) + " "@
        + padded(text_or(q.supplier_short, truncated_form(q.supplier@, 13)), 15) + " "@ + padded(text_or(q.price, "-"@), 10) + " "@
        + padded(number_or(q.moq, "-"@, Seq::empty()), 8) + " "@ + padded(number_or(q.lead_time_days, "-"@, "d"@), 10) + " "@
        + padded(text_or(q.tooling, "-"@), 10) + " "@ + padded(q.quote_status@, 10)
}

/// What `quote compare` prints as a table for `item`, one text per line,
/// the quotes in the order given (lowest price first): a notice when there
/// are none, else a title, the table and the lowest price.
pub open spec fn compare_output(qs: Seq<CompareRow>, item: Seq<char>) -> Seq<Seq<char>> {
    if qs.len() == 0 {
        seq!["No quotes found for '"@ + item + "'"@]
    } else {
        seq!["Comparing "@ + decimal(qs.len()) + " quotes for "@ + item, Seq::empty(), compare_header(), dash_rule(100)]
            + qs.map_values(|q: CompareRow| compare_line(&q))
            + seq![Seq::empty(), "\u{2605} Lowest price: "@ + text_or(qs[0].price, "0.00"@) + " from "@ + text_or(qs[0].supplier_short, qs[0].supplier@)]
    }
}

/// The texts of a compared quote that the table cuts can be cut cleanly.
pub open spec fn compare_row_fits(q: &CompareRow) -> bool {
    &&& cuts_cleanly(q.title@, 18)
    &&& (q.supplier_short is None ==> cuts_cleanly(q.supplier@, 13))
}

impl CompareRow {
    /// Whether the texts that the comparison table cuts can be cut cleanly.
    pub fn fits(&self) -> (r: bool)
        ensures
            r == compare_row_fits(self),
    {
        cuts_at(self.title.as_str(), 18) && match &self.supplier_short {
            Some(_) => true,
            None => cuts_at(self.supplier.as_str(), 13),
        }
    }
}

/// The number in decimal, or `-`.
fn count_text(d: Option<u32>) -> (r: String)
    ensures
        r@ == number_or(d, "-"@, Seq::empty()),
{
    proof {
        reveal_strlit("");
        assert(""@ =~= Seq::<char>::empty());
    }
    number_text(d, "-", "")
}

/// Appends a space and the text padded to `width`.
fn append_cell(r: &mut String, text: &str, width: usize)
    ensures
        final(r)@ == old(r)@ + " "@ + padded(text@, width as int),
{
    append_text(r, " ");
    append_text(r, pad_right(text, width).as_str());
}

/// The line of a quote in the comparison table.
fn compare_row_line(q: &CompareRow) -> (r: String)
    requires
        compare_row_fits(q),
    ensures
        r@ == compare_line(q),
{
    proof {
        reveal_strlit("");
        assert(""@ =~= Seq::<char>::empty());
    }
    let supplier = match &q.supplier_short {
        Some(x) => x.clone(),
        None => truncate_str(q.supplier.as_str(), 13),
    };
    let mut r = pad_right(shown_or(&q.short_id, "").as_str(), 8);
    append_cell(&mut r, truncate_str(q.title.as_str(), 18).as_str(), 20);
    append_cell(&mut r, supplier.as_str(), 15);
    append_cell(&mut r, shown_or(&q.price, "-").as_str(), 10);
    append_cell(&mut r, count_text(q.moq).as_str(), 8);
    append_cell(&mut r, number_text(q.lead_time_days, "-", "d").as_str(), 10);
    append_cell(&mut r, shown_or(&q.tooling, "-").as_str(), 10);
    append_cell(&mut r, q.quote_status.as_str(), 10);
    r
}

/// Writes what `quote compare` prints as a table for `item`, one text per
/// line; the quotes come in the order given.
pub fn compare_lines(quotes: &Vec<CompareRow>, item: &str) -> (r: Vec<String>)
    requires
        forall|i: int| 0 <= i < quotes.len() ==> compare_row_fits(#[trigger] &quotes@[i]),
    ensures
        r@.map_values(|s: String| s@) == compare_output(quotes@, item@),
{
    let mut out: Vec<String> = Vec::new();
    if quotes.len() == 0 {
        let mut notice = concat_texts("No quotes found for '", item);
        append_text(&mut notice, "'");
        out.push(notice);
        assert(out@.map_values(|s: String| s@) =~= compare_output(quotes@, item@));
        return out;
    }
    let mut title = concat_texts("Comparing ", decimal_text(quotes.len()).as_str());
    append_text(&mut title, " quotes for ");
    append_text(&mut title, item);
    out.push(title);
    out.push(String::new());
    let mut header = pad_right("SHORT", 8);
    append_cell(&mut header, "TITLE", 20);
    append_cell(&mut header, "SUPPLIER", 15);
    append_cell(&mut header, "PRICE", 10);
    append_cell(&mut header, "MOQ", 8);
    append_cell(&mut header, "LEAD", 10);
    append_cell(&mut header, "TOOLING", 10);
    append_cell(&mut header, "STATUS", 10);
    out.push(header);
    out.push(dashes(100));
    let ghost head = seq!["Comparing "@ + decimal(quotes.len() as nat) + " quotes for "@ + item@, Seq::<char>::empty(), compare_header(), dash_rule(100)];
    assert(out@.map_values(|s: String| s@) =~= head);
    let mut i: usize = 0;
    while i < quotes.len()
        invariant
            i <= quotes.len(),
            forall|k: int| 0 <= k < quotes.len() ==> compare_row_fits(#[trigger] &quotes@[k]),
            out@.map_values(|s: String| s@) == head + quotes@.take(i as int).map_values(|q: CompareRow| compare_line(&q)),
        decreases quotes.len() - i,
    {
        let text = compare_row_line(&quotes[i]);
        let ghost before = out@.map_values(|s: String| s@);
        out.push(text);
        assert(out@.map_values(|s: String| s@) =~= before.push(text@));
        assert(quotes@.take(i as int + 1) =~= quotes@.take(i as int).push(quotes@[i as int]));
        assert(quotes@.take(i as int + 1).map_values(|q: CompareRow| compare_line(&q))
            =~= quotes@.take(i as int).map_values(|q: CompareRow| compare_line(&q)).push(compare_line(&quotes@[i as int])));
        i = i + 1;
    }
    assert(quotes@.take(quotes.len() as int) =~= quotes@);
    let ghost before = out@.map_values(|s: String| s@);
    out.push(String::new());
    let mut lowest = concat_texts("\u{2605} Lowest price: ", shown_or(&quotes[0].price, "0.00").as_str());
    append_text(&mut lowest, " from ");
    let supplier = match &quotes[0].supplier_short {
        Some(x) => x.clone(),
        None => quotes[0].supplier.clone(),
    };
    append_text(&mut lowest, supplier.as_str());
    out.push(lowest);
    assert(out@.map_values(|s: String| s@) =~= before + seq![Seq::<char>::empty(), "\u{2605} Lowest price: "@
        + text_or(quotes@[0].price, "0.00"@) + " from "@ + text_or(quotes@[0].supplier_short, quotes@[0].supplier@)]);
    assert(out@.map_values(|s: String| s@) =~= compare_output(quotes@, item@));
    out
}

/// Why a price break could not be read.
#[derive(Debug, Clone, PartialEq, Eq)]
pub enum PriceBreakError {
    /// Not two or three `:`-separated fields; the whole text.
    Format(String),
    /// The quantity is not a number; the quantity's text.
    Quantity(String),
    /// The lead time is not a number; the lead time's text.
    LeadTime(String),
}

/// The number a text spells as `str::parse::<u32>` reads it.
pub open spec fn parsed_u32(s: Seq<char>) -> Option<u32> {
    match parsed_usize(s) {
        Some(n) => if n <= u32::MAX {
            Some(n as u32)
        } else {
            None
        },
        None => None,
    }
}

/// Reads a number the way `str::parse::<u32>` does.
pub fn parse_u32(s: &str) -> (r: Option<u32>)
    ensures
        r == parsed_u32(s@),
{
    match parse_usize(s) {
        Some(n) => if n <= 4294967295usize {
            Some(n as u32)
        } else {
            None
        },
        None => None,
    }
}

/// The fields of a price break `QTY:PRICE` or `QTY:PRICE:LEAD_TIME`: the
/// quantity read, the price's text and the lead time's text, if any. The
/// format is checked first, then the quantity.
pub fn price_break_parts(input: &str) -> (r: Result<(u32, String, Option<String>), PriceBreakError>)
    ensures
        ({
            let p = pieces(input@, ':');
            if p.len() < 2 || p.len() > 3 {
                (r matches Err(PriceBreakError::Format(t)) && t@ == input@)
            } else {
                match parsed_u32(p[0]) {
                    None => (r matches Err(PriceBreakError::Quantity(t)) && t@ == p[0]),
                    Some(q) => (r matches Ok((n, price, lead)) && n == q && price@ == p[1]
                        && opt_view(lead) == (if p.len() == 3 {
                            Some(p[2])
                        } else {
                            None::<Seq<char>>
                        })),
                }
            }
        }),
{
    let parts = split_text(input, ':');
    let ghost p = pieces(input@, ':');
    assert(parts@.map_values(|x: String| x@) == p);
    if parts.len() < 2 || parts.len() > 3 {
        return Err(PriceBreakError::Format(input.to_owned()));
    }
    assert(parts@[0]@ == p[0] && parts@[1]@ == p[1]);
    let qty = match parse_u32(parts[0].as_str()) {
        Some(q) => q,
        None => {
            return Err(PriceBreakError::Quantity(parts[0].clone()));
        },
    };
    let lead = if parts.len() == 3 {
        assert(parts@[2]@ == p[2]);
        Some(parts[2].clone())
    } else {
        None
    };
    Ok((qty, parts[1].clone(), lead))
}

/// The lead time of a price break, read from its text when it has one.
pub fn lead_time_days(text: &Option<String>) -> (r: Result<Option<u32>, PriceBreakError>)
    ensures
        match *text {
            None => r == Ok::<Option<u32>, PriceBreakError>(None),
            Some(t) => match parsed_u32(t@) {
                Some(d) => r == Ok::<Option<u32>, PriceBreakError>(Some(d)),
                None => r matches Err(PriceBreakError::LeadTime(x)) && x@ == t@,
            },
        },
{
    match text {
        None => Ok(None),
        Some(t) => match parse_u32(t.as_str()) {
            Some(d) => Ok(Some(d)),
            None => Err(PriceBreakError::LeadTime(t.clone())),
        },
    }
}
} // verus!
