//! Components: their make/buy and category choices as typed on the command
//! line, and which quote a component may select for its pricing.

use vstd::prelude::*;
use crate::assembly::{status_debug_name, status_debug_text};
use crate::common::{first_id_match, holds_id, id_query_match, ids_view, instant, is_within_days, opt_view, pos_view, time_key, within_days, Timestamp};
use crate::entities::{ComponentCategory, MakeBuy, Status};
use crate::listing::{optional_text_key, optional_text_sort_key, SortKey, SortKeyView};
use crate::args::{is_full_record_format, OutputFormat};
use crate::assembly::{cuts_at, cuts_cleanly};
use crate::helpers::{csv_field, dash_rule, dashes, escape_csv, shown_or, text_or, truncate_str, truncated_form};
use crate::text::{append_text, decimal, decimal_text, pad_right, padded, concat_texts, contains_ignore_case, contains_ignoring_case, indent_lines, indented_lines, is_empty_text, replace_all, replaced, str_contains, text_contains};

verus! {

/// Make/buy filter for list command
#[derive(Debug, Clone, Copy, PartialEq, Eq, Structural)]
pub enum MakeBuyFilter {
    Make,
    Buy,
    All,
}

/// Make/buy choice for new command
#[derive(Debug, Clone, Copy, PartialEq, Eq, Structural)]
pub enum CliMakeBuy {
    Make,
    Buy,
}

/// Category filter for list command
#[derive(Debug, Clone, Copy, PartialEq, Eq, Structural)]
pub enum CategoryFilter {
    Mechanical,
    Electrical,
    Software,
    Fastener,
    Consumable,
    All,
}

/// Category choice for new command
#[derive(Debug, Clone, Copy, PartialEq, Eq, Structural)]
pub enum CliComponentCategory {
    Mechanical,
    Electrical,
    Software,
    Fastener,
    Consumable,
}

/// Status filter
#[derive(Debug, Clone, Copy, PartialEq, Eq, Structural)]
pub enum StatusFilter {
    Draft,
    Review,
    Approved,
    Released,
    Obsolete,
    /// All statuses
    All,
}

/// Columns to display in list output
#[derive(Debug, Clone, Copy, PartialEq, Eq, Structural)]
pub enum ListColumn {
    Id,
    PartNumber,
    Revision,
    Title,
    MakeBuy,
    Category,
    Status,
    Author,
    Created,
}

pub struct ShowArgs {
    /// Component ID or short ID (CMP@N)
    pub id: String,
}

pub struct EditArgs {
    /// Component ID or short ID (CMP@N)
    pub id: String,
}

pub struct SetQuoteArgs {
    /// Component ID or short ID (CMP@N)
    pub component: String,

    /// Quote ID or short ID (QUOT@N) to use for pricing
    pub quote: String,
}

pub struct ClearQuoteArgs {
    /// Component ID or short ID (CMP@N)
    pub component: String,
}

impl CliMakeBuy {
    /// The name this value is written as.
    pub open spec fn display_text(self) -> Seq<char> {
        match self {
            CliMakeBuy::Make => "make"@,
            CliMakeBuy::Buy => "buy"@,
        }
    }

    /// The name this value is written as.
    pub fn as_str(&self) -> (r: &'static str)
        ensures
            r@ == self.display_text(),
    {
        match self {
            CliMakeBuy::Make => "make",
            CliMakeBuy::Buy => "buy",
        }
    }
}

impl CliComponentCategory {
    /// The name this value is written as.
    pub open spec fn display_text(self) -> Seq<char> {
        match self {
            CliComponentCategory::Mechanical => "mechanical"@,
            CliComponentCategory::Electrical => "electrical"@,
            CliComponentCategory::Software => "software"@,
            CliComponentCategory::Fastener => "fastener"@,
            CliComponentCategory::Consumable => "consumable"@,
        }
    }

    /// The name this value is written as.
    pub fn as_str(&self) -> (r: &'static str)
        ensures
            r@ == self.display_text(),
    {
        match self {
            CliComponentCategory::Mechanical => "mechanical",
            CliComponentCategory::Electrical => "electrical",
            CliComponentCategory::Software => "software",
            CliComponentCategory::Fastener => "fastener",
            CliComponentCategory::Consumable => "consumable",
        }
    }
}

impl ListColumn {
    /// The name this value is written as.
    pub open spec fn display_text(self) -> Seq<char> {
        match self {
            ListColumn::Id => "id"@,
            ListColumn::PartNumber => "part-number"@,
            ListColumn::Revision => "revision"@,
            ListColumn::Title => "title"@,
            ListColumn::MakeBuy => "make-buy"@,
            ListColumn::Category => "category"@,
            ListColumn::Status => "status"@,
            ListColumn::Author => "author"@,
            ListColumn::Created => "created"@,
        }
    }

    /// The name this value is written as.
    pub fn as_str(&self) -> (r: &'static str)
        ensures
            r@ == self.display_text(),
    {
        match self {
            ListColumn::Id => "id",
            ListColumn::PartNumber => "part-number",
            ListColumn::Revision => "revision",
            ListColumn::Title => "title",
            ListColumn::MakeBuy => "make-buy",
            ListColumn::Category => "category",
            ListColumn::Status => "status",
            ListColumn::Author => "author",
            ListColumn::Created => "created",
        }
    }
}


/// Why a quote cannot be selected for a component.
#[derive(Debug, Clone, Copy, PartialEq, Eq, Structural)]
pub enum QuoteChoiceError {
    /// No quote has the identifier asked for.
    QuoteNotFound,
    /// The quote is not linked to any component.
    NotLinked,
    /// The quote is for another component.
    OtherComponent,
}

/// The quote a component may select: the first whose identifier is the
/// query or starts with it, provided it is linked to a component whose
/// identifier holds the component's or is held in it.
pub open spec fn quote_choice(ids: Seq<Seq<char>>, components: Seq<Option<Seq<char>>>, query: Seq<char>, component: Seq<char>) -> Result<int, QuoteChoiceError> {
    match id_query_match(ids, query) {
        None => Err(QuoteChoiceError::QuoteNotFound),
        Some(i) => match components[i] {
            None => Err(QuoteChoiceError::NotLinked),
            Some(c) => if text_contains(c, component) || text_contains(component, c) {
                Ok(i)
            } else {
                Err(QuoteChoiceError::OtherComponent)
            },
        },
    }
}

/// Picks the quote a component selects (`cmp set-quote`), given each quote's
/// identifier and linked component.
pub fn choose_quote(quote_ids: &Vec<String>, quote_components: &Vec<Option<String>>, query: &str, component: &str) -> (r: Result<usize, QuoteChoiceError>)
    requires
        quote_ids.len() == quote_components.len(),
    ensures
        ({
            let comps = quote_components@.map_values(|o: Option<String>| match o {
                Some(s) => Some(s@),
                None => None,
            });
            match r {
                Ok(i) => quote_choice(ids_view(quote_ids@), comps, query@, component@) == Ok::<int, QuoteChoiceError>(i as int),
                Err(e) => quote_choice(ids_view(quote_ids@), comps, query@, component@) == Err::<int, QuoteChoiceError>(e),
            }
        }),
{
    match first_id_match(quote_ids, query) {
        None => Err(QuoteChoiceError::QuoteNotFound),
        Some(i) => match &quote_components[i] {
            None => Err(QuoteChoiceError::NotLinked),
            Some(c) => if str_contains(c.as_str(), component) || str_contains(component, c.as_str()) {
                Ok(i)
            } else {
                Err(QuoteChoiceError::OtherComponent)
            },
        },
    }
}

/// Clears a component's selected quote (`cmp clear-quote`); returns the
/// quote it had, if any.
pub fn clear_selected_quote(selected: &mut Option<String>) -> (old_quote: Option<String>)
    ensures
        *final(selected) is None,
        old_quote == *old(selected),
{
    selected.take()
}


/// The filters of `cmp list` that this library applies: all of them but the
/// unit-cost threshold, which compares decimal prices.
pub struct ComponentFilters {
    pub make_buy: MakeBuyFilter,
    pub category: CategoryFilter,
    pub status: StatusFilter,
    pub search: Option<String>,
    pub author: Option<String>,
    /// Only components created in the last N days.
    pub recent: Option<u32>,
    /// Only components with a supplier whose lead time exceeds N days.
    pub long_lead: Option<u32>,
    /// Only components with exactly one supplier.
    pub single_source: bool,
    /// Only components no quote refers to.
    pub no_quote: bool,
}

/// What the component list reads of a component.
pub struct ComponentSummary {
    pub id: String,
    pub part_number: String,
    pub revision: Option<String>,
    pub title: String,
    pub description: Option<String>,
    pub author: String,
    pub make_buy: MakeBuy,
    pub category: ComponentCategory,
    pub status: Status,
    /// The lead time of each supplier, when known.
    pub supplier_lead_times: Vec<Option<u32>>,
    pub created: Timestamp,
}

/// The component has the make/buy choice a filter asks for.
pub open spec fn make_buy_matches(f: MakeBuyFilter, m: MakeBuy) -> bool {
    match f {
        MakeBuyFilter::Make => m == MakeBuy::Make,
        MakeBuyFilter::Buy => m == MakeBuy::Buy,
        MakeBuyFilter::All => true,
    }
}

/// The name of the value a `MakeBuyFilter` asks for (the filter's own variant
/// name).
pub open spec fn make_buy_filter_name(f: MakeBuyFilter) -> Seq<char> {
    match f {
        MakeBuyFilter::Make => "Make"@,
        MakeBuyFilter::Buy => "Buy"@,
        MakeBuyFilter::All => "All"@,
    }
}

/// A filter other than `All` keeps exactly the values whose name is the
/// filter's; `All` keeps every value.
pub proof fn law_make_buy_filter_keeps_its_value(f: MakeBuyFilter, v: MakeBuy)
    ensures
        f != MakeBuyFilter::All ==> (make_buy_matches(f, v) <==> make_buy_debug_name(v) == make_buy_filter_name(f)),
        f == MakeBuyFilter::All ==> make_buy_matches(f, v),
{
    reveal_strlit("Make");
    reveal_strlit("Buy");
    reveal_strlit("All");
    assert("Make"@.len() == 4);
    assert("Buy"@.len() == 3 && "Buy"@[0] == 'B');
    assert("All"@.len() == 3 && "All"@[0] == 'A');
}


/// The component has the category a filter asks for.
pub open spec fn category_matches(f: CategoryFilter, c: ComponentCategory) -> bool {
    match f {
        CategoryFilter::Mechanical => c == ComponentCategory::Mechanical,
        CategoryFilter::Electrical => c == ComponentCategory::Electrical,
        CategoryFilter::Software => c == ComponentCategory::Software,
        CategoryFilter::Fastener => c == ComponentCategory::Fastener,
        CategoryFilter::Consumable => c == ComponentCategory::Consumable,
        CategoryFilter::All => true,
    }
}

/// The name of the value a `CategoryFilter` asks for (the filter's own variant
/// name).
pub open spec fn category_filter_name(f: CategoryFilter) -> Seq<char> {
    match f {
        CategoryFilter::Mechanical => "Mechanical"@,
        CategoryFilter::Electrical => "Electrical"@,
        CategoryFilter::Software => "Software"@,
        CategoryFilter::Fastener => "Fastener"@,
        CategoryFilter::Consumable => "Consumable"@,
        CategoryFilter::All => "All"@,
    }
}

/// A filter other than `All` keeps exactly the values whose name is the
/// filter's; `All` keeps every value.
pub proof fn law_category_filter_keeps_its_value(f: CategoryFilter, v: ComponentCategory)
    ensures
        f != CategoryFilter::All ==> (category_matches(f, v) <==> category_debug_name(v) == category_filter_name(f)),
        f == CategoryFilter::All ==> category_matches(f, v),
{
    reveal_strlit("Mechanical");
    reveal_strlit("Electrical");
    reveal_strlit("Software");
    reveal_strlit("Fastener");
    reveal_strlit("Consumable");
    reveal_strlit("All");
    assert("Mechanical"@.len() == 10 && "Mechanical"@[0] == 'M');
    assert("Electrical"@.len() == 10 && "Electrical"@[0] == 'E');
    assert("Software"@.len() == 8 && "Software"@[0] == 'S');
    assert("Fastener"@.len() == 8 && "Fastener"@[0] == 'F');
    assert("Consumable"@.len() == 10 && "Consumable"@[0] == 'C');
    assert("All"@.len() == 3);
}


/// The component has the status a filter asks for.
pub open spec fn status_matches(f: StatusFilter, s: Status) -> bool {
    match f {
        StatusFilter::Draft => s == Status::Draft,
        StatusFilter::Review => s == Status::Review,
        StatusFilter::Approved => s == Status::Approved,
        StatusFilter::Released => s == Status::Released,
        StatusFilter::Obsolete => s == Status::Obsolete,
        StatusFilter::All => true,
    }
}

/// The name of the value a `StatusFilter` asks for (the filter's own variant
/// name).
pub open spec fn status_filter_name(f: StatusFilter) -> Seq<char> {
    match f {
        StatusFilter::Draft => "Draft"@,
        StatusFilter::Review => "Review"@,
        StatusFilter::Approved => "Approved"@,
        StatusFilter::Released => "Released"@,
        StatusFilter::Obsolete => "Obsolete"@,
        StatusFilter::All => "All"@,
    }
}

/// A filter other than `All` keeps exactly the values whose name is the
/// filter's; `All` keeps every value.
pub proof fn law_status_filter_keeps_its_value(f: StatusFilter, v: Status)
    ensures
        f != StatusFilter::All ==> (status_matches(f, v) <==> status_debug_name(v) == status_filter_name(f)),
        f == StatusFilter::All ==> status_matches(f, v),
{
    reveal_strlit("Draft");
    reveal_strlit("Review");
    reveal_strlit("Approved");
    reveal_strlit("Released");
    reveal_strlit("Obsolete");
    reveal_strlit("All");
    assert("Draft"@.len() == 5);
    assert("Review"@.len() == 6);
    assert("Approved"@.len() == 8 && "Approved"@[0] == 'A');
    assert("Released"@.len() == 8 && "Released"@[0] == 'R');
    assert("Obsolete"@.len() == 8 && "Obsolete"@[0] == 'O');
    assert("All"@.len() == 3);
}


/// Some supplier's lead time exceeds the threshold.
pub open spec fn has_long_lead(times: Seq<Option<u32>>, threshold: u32) -> bool {
    exists|i: int| 0 <= i < times.len() && (#[trigger] times[i] matches Some(d) && d > threshold)
}

/// The component passes the filters of `cmp list` that this library
/// applies; `quoted` holds the component identifiers that quotes refer to.
pub open spec fn component_listed(f: &ComponentFilters, c: &ComponentSummary, quoted: Seq<Seq<char>>, now: Timestamp) -> bool {
    &&& make_buy_matches(f.make_buy, c.make_buy)
    &&& category_matches(f.category, c.category)
    &&& status_matches(f.status, c.status)
    &&& (f.search matches Some(s) ==> (contains_ignoring_case(c.part_number@, s@) || contains_ignoring_case(c.title@, s@)
        || (c.description matches Some(d) && contains_ignoring_case(d@, s@))))
    &&& (f.author matches Some(a) ==> contains_ignoring_case(c.author@, a@))
    &&& (f.recent matches Some(days) ==> within_days(c.created, now, days))
    &&& (f.long_lead matches Some(t) ==> has_long_lead(c.supplier_lead_times@, t))
    &&& (f.single_source ==> c.supplier_lead_times.len() == 1)
    &&& (f.no_quote ==> !quoted.contains(c.id@))
}

/// Whether some supplier's lead time exceeds the threshold.
fn long_lead(times: &Vec<Option<u32>>, threshold: u32) -> (r: bool)
    ensures
        r == has_long_lead(times@, threshold),
{
    let mut i: usize = 0;
    while i < times.len()
        invariant
            i <= times.len(),
            forall|j: int| 0 <= j < i ==> !(#[trigger] times@[j] matches Some(d) && d > threshold),
        decreases times.len() - i,
    {
        if let Some(d) = times[i] {
            if d > threshold {
                return true;
            }
        }
        i = i + 1;
    }
    false
}

/// Whether `cmp list` keeps the component, as far as this library decides.
pub fn component_matches(f: &ComponentFilters, c: &ComponentSummary, quoted: &Vec<String>, now: Timestamp) -> (r: bool)
    ensures
        r == component_listed(f, c, ids_view(quoted@), now),
{
    let make_ok = match f.make_buy {
        MakeBuyFilter::Make => c.make_buy == MakeBuy::Make,
        MakeBuyFilter::Buy => c.make_buy == MakeBuy::Buy,
        MakeBuyFilter::All => true,
    };
    let category_ok = match f.category {
        CategoryFilter::Mechanical => c.category == ComponentCategory::Mechanical,
        CategoryFilter::Electrical => c.category == ComponentCategory::Electrical,
        CategoryFilter::Software => c.category == ComponentCategory::Software,
        CategoryFilter::Fastener => c.category == ComponentCategory::Fastener,
        CategoryFilter::Consumable => c.category == ComponentCategory::Consumable,
        CategoryFilter::All => true,
    };
    let status_ok = match f.status {
        StatusFilter::Draft => c.status == Status::Draft,
        StatusFilter::Review => c.status == Status::Review,
        StatusFilter::Approved => c.status == Status::Approved,
        StatusFilter::Released => c.status == Status::Released,
        StatusFilter::Obsolete => c.status == Status::Obsolete,
        StatusFilter::All => true,
    };
    if !make_ok || !category_ok || !status_ok {
        return false;
    }
    if let Some(s) = &f.search {
        let in_description = match &c.description {
            Some(d) => contains_ignore_case(d.as_str(), s.as_str()),
            None => false,
        };
        if !(contains_ignore_case(c.part_number.as_str(), s.as_str()) || contains_ignore_case(c.title.as_str(), s.as_str()) || in_description) {
            return false;
        }
    }
    if let Some(a) = &f.author {
        if !contains_ignore_case(c.author.as_str(), a.as_str()) {
            return false;
        }
    }
    if let Some(days) = f.recent {
        if !is_within_days(c.created, now, days) {
            return false;
        }
    }
    if let Some(t) = f.long_lead {
        if !long_lead(&c.supplier_lead_times, t) {
            return false;
        }
    }
    if f.single_source && c.supplier_lead_times.len() != 1 {
        return false;
    }
    if f.no_quote && holds_id(quoted, c.id.as_str()) {
        return false;
    }
    true
}

/// The name a make/buy choice has in its debug form.
pub open spec fn make_buy_debug_name(m: MakeBuy) -> Seq<char> {
    match m {
        MakeBuy::Make => "Make"@,
        MakeBuy::Buy => "Buy"@,
    }
}

/// The name a component category has in its debug form.
pub open spec fn category_debug_name(c: ComponentCategory) -> Seq<char> {
    match c {
        ComponentCategory::Mechanical => "Mechanical"@,
        ComponentCategory::Electrical => "Electrical"@,
        ComponentCategory::Software => "Software"@,
        ComponentCategory::Fastener => "Fastener"@,
        ComponentCategory::Consumable => "Consumable"@,
    }
}

/// The key a component is sorted by for a column (an absent revision sorts
/// before every revision).
pub open spec fn component_key(col: ListColumn, c: &ComponentSummary) -> SortKeyView {
    match col {
        ListColumn::Id => SortKeyView::Text(c.id@),
        ListColumn::PartNumber => SortKeyView::Text(c.part_number@),
        ListColumn::Revision => SortKeyView::Text(optional_text_key(c.revision)),
        ListColumn::Title => SortKeyView::Text(c.title@),
        ListColumn::MakeBuy => SortKeyView::Text(make_buy_debug_name(c.make_buy)),
        ListColumn::Category => SortKeyView::Text(category_debug_name(c.category)),
        ListColumn::Status => SortKeyView::Text(status_debug_name(c.status)),
        ListColumn::Author => SortKeyView::Text(c.author@),
        ListColumn::Created => SortKeyView::Num(instant(c.created)),
    }
}

/// The sort key of a component for the chosen column.
pub fn component_sort_key(col: ListColumn, c: &ComponentSummary) -> (r: SortKey)
    ensures
        r@ == component_key(col, c),
{
    match col {
        ListColumn::Id => SortKey::text(c.id.as_str()),
        ListColumn::PartNumber => SortKey::text(c.part_number.as_str()),
        ListColumn::Revision => optional_text_sort_key(&c.revision),
        ListColumn::Title => SortKey::text(c.title.as_str()),
        ListColumn::MakeBuy => SortKey::text(match c.make_buy {
            MakeBuy::Make => "Make",
            MakeBuy::Buy => "Buy",
        }),
        ListColumn::Category => SortKey::text(match c.category {
            ComponentCategory::Mechanical => "Mechanical",
            ComponentCategory::Electrical => "Electrical",
            ComponentCategory::Software => "Software",
            ComponentCategory::Fastener => "Fastener",
            ComponentCategory::Consumable => "Consumable",
        }),
        ListColumn::Status => SortKey::text(status_debug_text(c.status)),
        ListColumn::Author => SortKey::text(c.author.as_str()),
        ListColumn::Created => time_key(c.created),
    }
}


/// The text of a new component file: the generated template with the
/// wizard's answers, when given: the description as its block (when not
/// empty), and the mass and unit cost (each number as it is to be written).
pub open spec fn new_component_text(template: Seq<char>, description: Option<Seq<char>>, mass: Option<Seq<char>>, cost: Option<Seq<char>>) -> Seq<char> {
    let a = match description {
        Some(d) => if d.len() > 0 {
            replaced(
                template,
                "description: |\n  # Detailed description of this component\n  # Include key specifications and requirements"@,
                "description: |\n"@ + indented_lines(d),
            )
        } else {
            template
        },
        None => template,
    };
    let b = match mass {
        Some(m) => replaced(a, "mass_kg: null"@, "mass_kg: "@ + m),
        None => a,
    };
    match cost {
        Some(c) => replaced(b, "unit_cost: null"@, "unit_cost: "@ + c),
        None => b,
    }
}

/// Fills the generated template of a new component with the wizard's
/// answers.
pub fn new_component_file(template: &str, description: &Option<String>, mass: Option<&str>, cost: Option<&str>) -> (r: String)
    ensures
        r@ == new_component_text(template@, opt_view(*description), match mass {
            Some(m) => Some(m@),
            None => None,
        }, match cost {
            Some(c) => Some(c@),
            None => None,
        }),
{
    proof {
        reveal_strlit("description: |\n  # Detailed description of this component\n  # Include key specifications and requirements");
        reveal_strlit("mass_kg: null");
        reveal_strlit("unit_cost: null");
    }
    let a = match description {
        Some(d) => if !is_empty_text(d.as_str()) {
            let with = concat_texts("description: |\n", indent_lines(d.as_str()).as_str());
            replace_all(template, "description: |\n  # Detailed description of this component\n  # Include key specifications and requirements", with.as_str())
        } else {
            template.to_owned()
        },
        None => template.to_owned(),
    };
    let b = match mass {
        Some(m) => replace_all(a.as_str(), "mass_kg: null", concat_texts("mass_kg: ", m).as_str()),
        None => a,
    };
    match cost {
        Some(c) => replace_all(b.as_str(), "unit_cost: null", concat_texts("unit_cost: ", c).as_str()),
        None => b,
    }
}


/// A component as the list shows it (from the entity cache): each text as
/// stored, with the short form the caller found and the creation day
/// already written.
pub struct ComponentListRow {
    pub id: String,
    /// The component's short form, if it has one.
    pub short_id: Option<String>,
    pub part_number: Option<String>,
    pub revision: Option<String>,
    pub title: String,
    pub make_buy: Option<String>,
    pub category: Option<String>,
    /// The status, as written.
    pub status: String,
    pub author: String,
    /// The creation day, as written.
    pub created_day: String,
}

/// The header of the CSV listing.
pub open spec fn component_csv_header() -> Seq<char> {
    "short_id,id,part_number,revision,title,make_buy,category,status"@
}

/// The CSV line of a component.
pub open spec fn component_csv_line(c: &ComponentListRow) -> Seq<char> {
    text_or(c.short_id, Seq::empty()) + ","@ + c.id@ + ","@ + text_or(c.part_number, Seq::empty()) + ","@
        + text_or(c.revision, Seq::empty()) + ","@ + csv_field(c.title@) + ","@ + text_or(c.make_buy, "buy"@) + ","@
        + text_or(c.category, Seq::empty()) + ","@ + c.status@
}

/// The Markdown line of a component.
pub open spec fn component_md_line(c: &ComponentListRow) -> Seq<char> {
    "| "@ + text_or(c.short_id, Seq::empty()) + " | "@ + truncated_form(c.id@, 15) + " | "@ + text_or(c.part_number, Seq::empty())
        + " | "@ + c.title@ + " | "@ + text_or(c.make_buy, "buy"@) + " | "@ + text_or(c.category, Seq::empty()) + " | "@
        + c.status@ + " |"@
}

/// The width of a column in the table listing.
pub open spec fn component_width(c: ListColumn) -> nat {
    match c {
        ListColumn::Id => 17,
        ListColumn::PartNumber => 12,
        ListColumn::Revision => 8,
        ListColumn::Title => 30,
        ListColumn::MakeBuy => 6,
        ListColumn::Category => 12,
        ListColumn::Status => 10,
        ListColumn::Author => 16,
        ListColumn::Created => 12,
    }
}

/// The heading of a column in the table listing, before padding.
pub open spec fn component_heading(c: ListColumn) -> Seq<char> {
    match c {
        ListColumn::Id => "ID"@,
        ListColumn::PartNumber => "PART #"@,
        ListColumn::Revision => "REV"@,
        ListColumn::Title => "TITLE"@,
        ListColumn::MakeBuy => "M/B"@,
        ListColumn::Category => "CATEGORY"@,
        ListColumn::Status => "STATUS"@,
        ListColumn::Author => "AUTHOR"@,
        ListColumn::Created => "CREATED"@,
    }
}

/// The cell of a component in a column of the table listing, before padding.
pub open spec fn component_cell(c: &ComponentListRow, col: ListColumn) -> Seq<char> {
    match col {
        ListColumn::Id => truncated_form(c.id@, 15),
        ListColumn::PartNumber => truncated_form(text_or(c.part_number, Seq::empty()), 10),
        ListColumn::Revision => text_or(c.revision, "-"@),
        ListColumn::Title => truncated_form(c.title@, 28),
        ListColumn::MakeBuy => text_or(c.make_buy, "buy"@),
        ListColumn::Category => text_or(c.category, Seq::empty()),
        ListColumn::Status => c.status@,
        ListColumn::Author => truncated_form(c.author@, 14),
        ListColumn::Created => c.created_day@,
    }
}

/// The first `n` columns' texts, each after a space and padded to its width.
pub open spec fn component_cells(cells: spec_fn(ListColumn) -> Seq<char>, cols: Seq<ListColumn>, n: int) -> Seq<char>
    decreases n,
{
    if n <= 0 {
        Seq::empty()
    } else {
        component_cells(cells, cols, n - 1) + " "@ + padded(cells(cols[n - 1]), component_width(cols[n - 1]) as int)
    }
}

/// The header line of the table listing.
pub open spec fn component_table_header(cols: Seq<ListColumn>) -> Seq<char> {
    padded("SHORT"@, 8) + component_cells(|c: ListColumn| component_heading(c), cols, cols.len() as int)
}

/// The line of a component in the table listing.
pub open spec fn component_table_line(c: &ComponentListRow, cols: Seq<ListColumn>) -> Seq<char> {
    padded(text_or(c.short_id, Seq::empty()), 8) + component_cells(|col: ListColumn| component_cell(c, col), cols, cols.len() as int)
}

/// What `cmp list` prints for the components, one text per line.
pub open spec fn component_list_output(cs: Seq<ComponentListRow>, cols: Seq<ListColumn>, format: OutputFormat) -> Seq<Seq<char>> {
    match format {
        OutputFormat::Csv => seq![component_csv_header()] + cs.map_values(|c: ComponentListRow| component_csv_line(&c)),
        OutputFormat::Md => seq!["| Short | ID | Part # | Title | M/B | Category | Status |"@, "|---|---|---|---|---|---|---|"@]
            + cs.map_values(|c: ComponentListRow| component_md_line(&c)),
        OutputFormat::Id => cs.map_values(|c: ComponentListRow| c.id@),
        _ => seq![component_table_header(cols), dash_rule(100)] + cs.map_values(|c: ComponentListRow| component_table_line(&c, cols))
            + seq![Seq::empty(), decimal(cs.len()) + " component(s) found. Use CMP@N to reference by short ID."@],
    }
}

/// The texts of a component that the listings cut can be cut cleanly.
pub open spec fn component_row_fits(c: &ComponentListRow) -> bool {
    &&& cuts_cleanly(c.id@, 15)
    &&& cuts_cleanly(text_or(c.part_number, Seq::empty()), 10)
    &&& cuts_cleanly(c.title@, 28)
    &&& cuts_cleanly(c.author@, 14)
}

impl ComponentListRow {
    /// Whether the texts that the listings cut can be cut cleanly.
    pub fn fits(&self) -> (r: bool)
        ensures
            r == component_row_fits(self),
    {
        proof {
            reveal_strlit("");
            assert(""@ =~= Seq::<char>::empty());
        }
        cuts_at(self.id.as_str(), 15) && cuts_at(shown_or(&self.part_number, "").as_str(), 10) && cuts_at(self.title.as_str(), 28)
            && cuts_at(self.author.as_str(), 14)
    }
}

/// The CSV line of a component.
fn component_csv(c: &ComponentListRow) -> (r: String)
    ensures
        r@ == component_csv_line(c),
{
    proof {
        reveal_strlit("");
        assert(""@ =~= Seq::<char>::empty());
    }
    let mut r = shown_or(&c.short_id, "");
    append_text(&mut r, ",");
    append_text(&mut r, c.id.as_str());
    append_text(&mut r, ",");
    append_text(&mut r, shown_or(&c.part_number, "").as_str());
    append_text(&mut r, ",");
    append_text(&mut r, shown_or(&c.revision, "").as_str());
    append_text(&mut r, ",");
    append_text(&mut r, escape_csv(c.title.as_str()).as_str());
    append_text(&mut r, ",");
    append_text(&mut r, shown_or(&c.make_buy, "buy").as_str());
    append_text(&mut r, ",");
    append_text(&mut r, shown_or(&c.category, "").as_str());
    append_text(&mut r, ",");
    append_text(&mut r, c.status.as_str());
    r
}

/// The Markdown line of a component.
fn component_md(c: &ComponentListRow) -> (r: String)
    requires
        cuts_cleanly(c.id@, 15),
    ensures
        r@ == component_md_line(c),
{
    proof {
        reveal_strlit("");
        assert(""@ =~= Seq::<char>::empty());
    }
    let mut r = concat_texts("| ", shown_or(&c.short_id, "").as_str());
    append_text(&mut r, " | ");
    append_text(&mut r, truncate_str(c.id.as_str(), 15).as_str());
    append_text(&mut r, " | ");
    append_text(&mut r, shown_or(&c.part_number, "").as_str());
    append_text(&mut r, " | ");
    append_text(&mut r, c.title.as_str());
    append_text(&mut r, " | ");
    append_text(&mut r, shown_or(&c.make_buy, "buy").as_str());
    append_text(&mut r, " | ");
    append_text(&mut r, shown_or(&c.category, "").as_str());
    append_text(&mut r, " | ");
    append_text(&mut r, c.status.as_str());
    append_text(&mut r, " |");
    r
}

/// The width of a column.
fn column_width(c: ListColumn) -> (r: usize)
    ensures
        r == component_width(c),
{
    match c {
        ListColumn::Id => 17,
        ListColumn::PartNumber => 12,
        ListColumn::Revision => 8,
        ListColumn::Title => 30,
        ListColumn::MakeBuy => 6,
        ListColumn::Category => 12,
        ListColumn::Status => 10,
        ListColumn::Author => 16,
        ListColumn::Created => 12,
    }
}

/// The heading of a column, before padding.
fn column_heading(c: ListColumn) -> (r: &'static str)
    ensures
        r@ == component_heading(c),
{
    match c {
        ListColumn::Id => "ID",
        ListColumn::PartNumber => "PART #",
        ListColumn::Revision => "REV",
        ListColumn::Title => "TITLE",
        ListColumn::MakeBuy => "M/B",
        ListColumn::Category => "CATEGORY",
        ListColumn::Status => "STATUS",
        ListColumn::Author => "AUTHOR",
        ListColumn::Created => "CREATED",
    }
}

/// The cell of a component in a column, before padding.
fn cell_text(c: &ComponentListRow, col: ListColumn) -> (r: String)
    requires
        component_row_fits(c),
    ensures
        r@ == component_cell(c, col),
{
    proof {
        reveal_strlit("");
        assert(""@ =~= Seq::<char>::empty());
    }
    match col {
        ListColumn::Id => truncate_str(c.id.as_str(), 15),
        ListColumn::PartNumber => truncate_str(shown_or(&c.part_number, "").as_str(), 10),
        ListColumn::Revision => shown_or(&c.revision, "-"),
        ListColumn::Title => truncate_str(c.title.as_str(), 28),
        ListColumn::MakeBuy => shown_or(&c.make_buy, "buy"),
        ListColumn::Category => shown_or(&c.category, ""),
        ListColumn::Status => c.status.clone(),
        ListColumn::Author => truncate_str(c.author.as_str(), 14),
        ListColumn::Created => c.created_day.clone(),
    }
}

/// The header line of the table listing.
fn component_header(cols: &Vec<ListColumn>) -> (r: String)
    ensures
        r@ == component_table_header(cols@),
{
    let mut r = pad_right("SHORT", 8);
    let ghost g = |c: ListColumn| component_heading(c);
    let mut i: usize = 0;
    while i < cols.len()
        invariant
            i <= cols.len(),
            g == (|c: ListColumn| component_heading(c)),
            r@ == padded("SHORT"@, 8) + component_cells(g, cols@, i as int),
        decreases cols.len() - i,
    {
        append_text(&mut r, " ");
        append_text(&mut r, pad_right(column_heading(cols[i]), column_width(cols[i])).as_str());
        assert(r@ =~= padded("SHORT"@, 8) + component_cells(g, cols@, i as int + 1));
        i = i + 1;
    }
    r
}

/// The line of a component in the table listing.
fn component_line(c: &ComponentListRow, cols: &Vec<ListColumn>) -> (r: String)
    requires
        component_row_fits(c),
    ensures
        r@ == component_table_line(c, cols@),
{
    proof {
        reveal_strlit("");
        assert(""@ =~= Seq::<char>::empty());
    }
    let mut r = pad_right(shown_or(&c.short_id, "").as_str(), 8);
    let ghost g = |col: ListColumn| component_cell(c, col);
    let mut i: usize = 0;
    while i < cols.len()
        invariant
            i <= cols.len(),
            component_row_fits(c),
            g == (|col: ListColumn| component_cell(c, col)),
            r@ == padded(text_or(c.short_id, Seq::empty()), 8) + component_cells(g, cols@, i as int),
        decreases cols.len() - i,
    {
        append_text(&mut r, " ");
        append_text(&mut r, pad_right(cell_text(c, cols[i]).as_str(), column_width(cols[i])).as_str());
        assert(r@ =~= padded(text_or(c.short_id, Seq::empty()), 8) + component_cells(g, cols@, i as int + 1));
        i = i + 1;
    }
    r
}

/// Writes what `cmp list` prints for the components, one text per line.
pub fn component_list_lines(components: &Vec<ComponentListRow>, columns: &Vec<ListColumn>, format: OutputFormat) -> (r: Vec<String>)
    requires
        !is_full_record_format(format) && format != OutputFormat::ShortId,
        format == OutputFormat::Tsv || format == OutputFormat::Auto ==> forall|i: int| 0 <= i < components.len() ==> component_row_fits(#[trigger] &components@[i]),
        format == OutputFormat::Md ==> forall|i: int| 0 <= i < components.len() ==> cuts_cleanly((#[trigger] components@[i]).id@, 15),
    ensures
        r@.map_values(|s: String| s@) == component_list_output(components@, columns@, format),
{
    let mut out: Vec<String> = Vec::new();
    let ghost head: Seq<Seq<char>> = match format {
        OutputFormat::Csv => seq![component_csv_header()],
        OutputFormat::Md => seq!["| Short | ID | Part # | Title | M/B | Category | Status |"@, "|---|---|---|---|---|---|---|"@],
        OutputFormat::Id => seq![],
        _ => seq![component_table_header(columns@), dash_rule(100)],
    };
    let ghost line = |c: ComponentListRow| match format {
        OutputFormat::Csv => component_csv_line(&c),
        OutputFormat::Md => component_md_line(&c),
        OutputFormat::Id => c.id@,
        _ => component_table_line(&c, columns@),
    };
    match format {
        OutputFormat::Csv => {
            out.push("short_id,id,part_number,revision,title,make_buy,category,status".to_owned());
        },
        OutputFormat::Md => {
            out.push("| Short | ID | Part # | Title | M/B | Category | Status |".to_owned());
            out.push("|---|---|---|---|---|---|---|".to_owned());
        },
        OutputFormat::Id => {},
        _ => {
            out.push(component_header(columns));
            out.push(dashes(100));
        },
    }
    assert(out@.map_values(|s: String| s@) =~= head);
    let mut i: usize = 0;
    while i < components.len()
        invariant
            i <= components.len(),
            !is_full_record_format(format) && format != OutputFormat::ShortId,
            format == OutputFormat::Tsv || format == OutputFormat::Auto ==> forall|k: int| 0 <= k < components.len() ==> component_row_fits(#[trigger] &components@[k]),
            format == OutputFormat::Md ==> forall|k: int| 0 <= k < components.len() ==> cuts_cleanly((#[trigger] components@[k]).id@, 15),
            line == (|c: ComponentListRow| match format {
                OutputFormat::Csv => component_csv_line(&c),
                OutputFormat::Md => component_md_line(&c),
                OutputFormat::Id => c.id@,
                _ => component_table_line(&c, columns@),
            }),
            out@.map_values(|s: String| s@) == head + components@.take(i as int).map_values(line),
        decreases components.len() - i,
    {
        let c = &components[i];
        let text = match format {
            OutputFormat::Csv => component_csv(c),
            OutputFormat::Md => component_md(c),
            OutputFormat::Id => c.id.clone(),
            _ => component_line(c, columns),
        };
        assert(text@ == line(components@[i as int]));
        let ghost before = out@.map_values(|s: String| s@);
        out.push(text);
        assert(out@.map_values(|s: String| s@) =~= before.push(text@));
        assert(components@.take(i as int + 1) =~= components@.take(i as int).push(components@[i as int]));
        assert(components@.take(i as int + 1).map_values(line) =~= components@.take(i as int).map_values(line).push(line(components@[i as int])));
        i = i + 1;
    }
    assert(components@.take(components.len() as int) =~= components@);
    match format {
        OutputFormat::Csv => {},
        OutputFormat::Md => {},
        OutputFormat::Id => {},
        _ => {
            let ghost before = out@.map_values(|s: String| s@);
            out.push(String::new());
            let mut footer = decimal_text(components.len());
            append_text(&mut footer, " component(s) found. Use CMP@N to reference by short ID.");
            out.push(footer);
            assert(out@.map_values(|s: String| s@) =~= before + seq![Seq::<char>::empty(), decimal(components.len() as nat) + " component(s) found. Use CMP@N to reference by short ID."@]);
        },
    }
    assert(out@.map_values(|s: String| s@) =~= component_list_output(components@, columns@, format));
    out
}
} // verus!
