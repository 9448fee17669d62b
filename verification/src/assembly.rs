//! Assemblies: how a bill-of-materials line is added or removed, and which
//! assemblies a listing shows, in which order.

use vstd::prelude::*;
use crate::common::{first_where, ids_view, instant, is_recent, last_position, last_with, lemma_first_where, opt_view, time_key, Timestamp};
use crate::args::{is_full_record_format, OutputFormat};
use crate::helpers::{csv_field, dash_rule, dashes, escape_csv, format_short_id, short_id_form, shown_or, text_or, truncate_str, truncated_form};
use crate::entities::Status;
use crate::listing::{key_views, list_order, shown_positions, sorted_order, stable_sort_order, SortKey, SortKeyView};
use crate::text::{append_text, byte_len, byte_length, concat_texts, contains_ignore_case, contains_ignoring_case, decimal, decimal_text, is_byte_boundary, join_texts, joined, pad_right, padded, str_contains, str_eq, text_contains};

verus! {

/// List column types
#[derive(Debug, Clone, Copy, PartialEq, Eq, Structural)]
pub enum ListColumn {
    Id,
    PartNumber,
    Title,
    Status,
    Author,
    Created,
}

/// Status filter
#[derive(Debug, Clone, Copy, PartialEq, Eq, Structural)]
pub enum StatusFilter {
    Draft,
    Review,
    Approved,
    Released,
    Obsolete,
    /// All statuses
    All,
}

pub struct ListArgs {
    /// Filter by status
    pub status: StatusFilter,

    /// Search in part number and title
    pub search: Option<String>,

    /// Filter by author
    pub author: Option<String>,

    /// Show recent assemblies (limit to 10 most recent)
    pub recent: bool,

    /// Columns to display
    pub columns: Vec<ListColumn>,

    /// Sort by column
    pub sort: ListColumn,

    /// Reverse sort order
    pub reverse: bool,

    /// Limit number of results
    pub limit: Option<usize>,

    /// Show only count
    pub count: bool,
}

pub struct ShowArgs {
    /// Assembly ID or short ID (ASM@N)
    pub id: String,
}

pub struct EditArgs {
    /// Assembly ID or short ID (ASM@N)
    pub id: String,
}

pub struct BomArgs {
    /// Assembly ID or short ID (ASM@N)
    pub id: String,

    /// Flatten nested assemblies (show all components)
    pub flat: bool,
}

pub struct AddComponentArgs {
    /// Assembly ID or short ID (ASM@N)
    pub assembly: String,

    /// Component ID or short ID (CMP@N)
    pub component: String,

    /// Quantity (default: 1)
    pub qty: u32,

    /// Reference designators (comma-separated, e.g., "U1,U2,U3")
    pub refs: Vec<String>,

    /// Notes about this BOM line item
    pub notes: Option<String>,
}

pub struct RemoveComponentArgs {
    /// Assembly ID or short ID (ASM@N)
    pub assembly: String,

    /// Component ID or short ID (CMP@N) to remove
    pub component: String,
}

pub struct CostArgs {
    /// Assembly ID or short ID (ASM@N)
    pub assembly: String,

    /// Show breakdown by component
    pub breakdown: bool,
}

pub struct MassArgs {
    /// Assembly ID or short ID (ASM@N)
    pub assembly: String,

    /// Show breakdown by component
    pub breakdown: bool,
}

impl ListColumn {
    /// The name this value is written as.
    pub open spec fn display_text(self) -> Seq<char> {
        match self {
            ListColumn::Id => "id"@,
            ListColumn::PartNumber => "part-number"@,
            ListColumn::Title => "title"@,
            ListColumn::Status => "status"@,
            ListColumn::Author => "author"@,
            ListColumn::Created => "created"@,
        }
    }

    /// The name this value is written as.
    pub fn as_str(&self) -> (r: &'static str)
        ensures
            r@ == self.display_text(),
    {
        match self {
            ListColumn::Id => "id",
            ListColumn::PartNumber => "part-number",
            ListColumn::Title => "title",
            ListColumn::Status => "status",
            ListColumn::Author => "author",
            ListColumn::Created => "created",
        }
    }
}


/// Each list column is written under a name of its own, so a name read
/// back names the column it was written for.
pub proof fn law_column_names_distinct(a: ListColumn, b: ListColumn)
    requires
        a.display_text() == b.display_text(),
    ensures
        a == b,
{
    reveal_strlit("id");
    reveal_strlit("part-number");
    reveal_strlit("title");
    reveal_strlit("status");
    reveal_strlit("author");
    reveal_strlit("created");
    assert("id"@.len() == 2 && "part-number"@.len() == 11 && "title"@.len() == 5 && "status"@.len() == 6
        && "author"@.len() == 6 && "created"@.len() == 7);
    assert("status"@[0] == 's' && "author"@[0] == 'a');
    assert(a.display_text().len() == b.display_text().len());
    assert(a.display_text()[0] == b.display_text()[0]);
}

/// A line of an assembly's bill of materials.
#[derive(Debug)]
pub struct BomLineItem {
    pub component_id: String,
    pub quantity: u32,
    pub reference_designators: Vec<String>,
    pub notes: Option<String>,
}

/// Mathematical form of a [`BomLineItem`].
pub struct BomLineItemView {
    pub component_id: Seq<char>,
    pub quantity: u32,
    pub reference_designators: Seq<Seq<char>>,
    pub notes: Option<Seq<char>>,
}

impl View for BomLineItem {
    type V = BomLineItemView;

    open spec fn view(&self) -> BomLineItemView {
        BomLineItemView {
            component_id: self.component_id@,
            quantity: self.quantity,
            reference_designators: self.reference_designators@.map_values(|s: String| s@),
            notes: opt_view(self.notes),
        }
    }
}

/// The lines, each taken by its view.
pub open spec fn bom_view(bom: Seq<BomLineItem>) -> Seq<BomLineItemView> {
    bom.map_values(|b: BomLineItem| b@)
}

/// The first line for the component, if any.
pub open spec fn line_for(bom: Seq<BomLineItemView>, id: Seq<char>) -> Option<int> {
    first_where(bom.len() as int, |i: int| bom[i].component_id == id)
}

/// Adding `qty` more of the component keeps its quantity within range.
pub open spec fn addition_fits(bom: Seq<BomLineItemView>, id: Seq<char>, qty: u32) -> bool {
    line_for(bom, id) matches Some(i) ==> bom[i].quantity + qty <= u32::MAX
}

/// The bill of materials after adding `qty` of a component: an existing line
/// for it gets the quantity added, the references appended and the notes
/// replaced when notes are given; otherwise a new line is appended.
pub open spec fn bom_after_add(bom: Seq<BomLineItemView>, id: Seq<char>, qty: u32, refs: Seq<Seq<char>>, notes: Option<Seq<char>>) -> Seq<BomLineItemView> {
    match line_for(bom, id) {
        Some(i) => bom.update(i, BomLineItemView {
            component_id: bom[i].component_id,
            quantity: (bom[i].quantity + qty) as u32,
            reference_designators: bom[i].reference_designators + refs,
            notes: if notes is Some {
                notes
            } else {
                bom[i].notes
            },
        }),
        None => bom.push(BomLineItemView { component_id: id, quantity: qty, reference_designators: refs, notes: notes }),
    }
}

/// Copies a list of texts.
fn copy_texts(v: &Vec<String>) -> (r: Vec<String>)
    ensures
        r@.map_values(|s: String| s@) == v@.map_values(|s: String| s@),
{
    let mut r: Vec<String> = Vec::new();
    let mut i: usize = 0;
    while i < v.len()
        invariant
            i <= v.len(),
            r@.map_values(|s: String| s@) == v@.take(i as int).map_values(|s: String| s@),
        decreases v.len() - i,
    {
        let ghost before = r@.map_values(|s: String| s@);
        r.push(v[i].clone());
        assert(r@.map_values(|s: String| s@) =~= before.push(v@[i as int]@));
        assert(v@.take(i as int + 1) =~= v@.take(i as int).push(v@[i as int]));
        i = i + 1;
    }
    assert(v@.take(v.len() as int) =~= v@);
    r
}

/// The position of the first line for the component.
fn find_line(bom: &Vec<BomLineItem>, id: &str) -> (r: Option<usize>)
    ensures
        r matches Some(i) ==> i < bom.len() && line_for(bom_view(bom@), id@) == Some(i as int),
        r is None ==> line_for(bom_view(bom@), id@) is None,
{
    let ghost bv = bom_view(bom@);
    let ghost p = |i: int| bv[i].component_id == id@;
    let mut i: usize = 0;
    while i < bom.len()
        invariant
            bv == bom_view(bom@),
            p == (|i: int| bv[i].component_id == id@),
            i <= bom.len(),
            forall|j: int| 0 <= j < i ==> !#[trigger] p(j),
        decreases bom.len() - i,
    {
        assert(bv[i as int] == bom@[i as int]@);
        if str_eq(bom[i].component_id.as_str(), id) {
            proof {
                lemma_first_where(bom.len() as int, p, i as int);
            }
            return Some(i);
        }
        i = i + 1;
    }
    None
}

/// Adds `qty` of the component `component_id` to a bill of materials
/// (the add-component command); returns whether an existing line was
/// updated.
pub fn add_bom_item(bom: &mut Vec<BomLineItem>, component_id: &str, qty: u32, refs: &Vec<String>, notes: &Option<String>) -> (updated: bool)
    requires
        addition_fits(bom_view(old(bom)@), component_id@, qty),
    ensures
        bom_view(final(bom)@) == bom_after_add(bom_view(old(bom)@), component_id@, qty, refs@.map_values(|s: String| s@), opt_view(*notes)),
        updated == line_for(bom_view(old(bom)@), component_id@) is Some,
{
    let ghost before = bom_view(bom@);
    let ghost rv = refs@.map_values(|s: String| s@);
    let new_notes = match notes {
        Some(n) => Some(n.clone()),
        None => None,
    };
    match find_line(bom, component_id) {
        Some(i) => {
            assert(before[i as int] == bom@[i as int]@);
            let mut designators = copy_texts(&bom[i].reference_designators);
            let mut more = copy_texts(refs);
            let ghost d0 = designators@.map_values(|s: String| s@);
            let ghost m0 = more@.map_values(|s: String| s@);
            designators.append(&mut more);
            assert(designators@.map_values(|s: String| s@) =~= d0 + m0);
            let kept_notes = match new_notes {
                Some(n) => Some(n),
                None => match &bom[i].notes {
                    Some(n) => Some(n.clone()),
                    None => None,
                },
            };
            let item = BomLineItem {
                component_id: bom[i].component_id.clone(),
                quantity: bom[i].quantity + qty,
                reference_designators: designators,
                notes: kept_notes,
            };
            bom.set(i, item);
            assert(bom_view(bom@) =~= bom_after_add(before, component_id@, qty, rv, opt_view(*notes)));
            true
        },
        None => {
            let item = BomLineItem {
                component_id: component_id.to_owned(),
                quantity: qty,
                reference_designators: copy_texts(refs),
                notes: new_notes,
            };
            bom.push(item);
            assert(bom_view(bom@) =~= bom_after_add(before, component_id@, qty, rv, opt_view(*notes)));
            false
        },
    }
}

/// The bill of materials without the lines whose component identifier
/// contains `id`.
pub open spec fn bom_after_remove(bom: Seq<BomLineItemView>, id: Seq<char>) -> Seq<BomLineItemView> {
    bom.filter(|b: BomLineItemView| !text_contains(b.component_id, id))
}

/// Removes the lines whose component identifier contains `component_id`
/// (the remove-component command); returns false, leaving the lines as they
/// were, when no line matches.
pub fn remove_bom_items(bom: &mut Vec<BomLineItem>, component_id: &str) -> (removed: bool)
    ensures
        removed == (bom_after_remove(bom_view(old(bom)@), component_id@).len() < old(bom)@.len()),
        bom_view(final(bom)@) == bom_after_remove(bom_view(old(bom)@), component_id@),
{
    let ghost before = bom_view(bom@);
    let mut kept: Vec<BomLineItem> = Vec::new();
    let mut i: usize = 0;
    let n = bom.len();
    let mut old_items: Vec<BomLineItem> = Vec::new();
    std::mem::swap(bom, &mut old_items);
    assert(bom_view(old_items@) == before);
    while old_items.len() > 0
        invariant
            before.len() == n,
            old_items.len() + i == n,
            bom_view(old_items@) == before.subrange(i as int, n as int),
            bom_view(kept@) == before.take(i as int).filter(|b: BomLineItemView| !text_contains(b.component_id, component_id@)),
        decreases old_items.len(),
    {
        let ghost ob = old_items@;
        assert(bom_view(ob)[0] == ob[0]@);
        let item = old_items.remove(0);
        assert(item@ == before[i as int]);
        assert(old_items@ =~= ob.subrange(1, ob.len() as int));
        reveal_with_fuel(Seq::filter, 1);
        assert(before.take(i as int + 1).drop_last() =~= before.take(i as int));
        assert(before.take(i as int + 1).last() == before[i as int]);
        let ghost k0 = bom_view(kept@);
        if !str_contains(item.component_id.as_str(), component_id) {
            kept.push(item);
            assert(bom_view(kept@) =~= k0.push(before[i as int]));
        }
        assert forall|j: int| 0 <= j < old_items@.len() implies #[trigger] bom_view(old_items@)[j] == before[i + 1 + j] by {
            assert(bom_view(ob)[j + 1] == ob[j + 1]@);
        }
        assert(bom_view(old_items@) =~= before.subrange(i as int + 1, n as int));
        i = i + 1;
    }
    assert(before.take(n as int) =~= before);
    proof {
        before.lemma_filter_len(|b: BomLineItemView| !text_contains(b.component_id, component_id@));
    }
    let removed = kept.len() < n;
    *bom = kept;
    removed
}


/// What the assembly list reads of an assembly.
pub struct AssemblySummary {
    pub id: String,
    pub part_number: String,
    pub title: String,
    pub description: Option<String>,
    pub author: String,
    pub status: Status,
    pub created: Timestamp,
}

/// The entity has the status a filter asks for.
pub open spec fn status_matches(f: StatusFilter, s: Status) -> bool {
    match f {
        StatusFilter::Draft => s == Status::Draft,
        StatusFilter::Review => s == Status::Review,
        StatusFilter::Approved => s == Status::Approved,
        StatusFilter::Released => s == Status::Released,
        StatusFilter::Obsolete => s == Status::Obsolete,
        StatusFilter::All => true,
    }
}

/// The name of the value a `StatusFilter` asks for (the filter's own variant
/// name).
pub open spec fn status_filter_name(f: StatusFilter) -> Seq<char> {
    match f {
        StatusFilter::Draft => "Draft"@,
        StatusFilter::Review => "Review"@,
        StatusFilter::Approved => "Approved"@,
        StatusFilter::Released => "Released"@,
        StatusFilter::Obsolete => "Obsolete"@,
        StatusFilter::All => "All"@,
    }
}

/// A filter other than `All` keeps exactly the values whose name is the
/// filter's; `All` keeps every value.
pub proof fn law_status_filter_keeps_its_value(f: StatusFilter, v: Status)
    ensures
        f != StatusFilter::All ==> (status_matches(f, v) <==> status_debug_name(v) == status_filter_name(f)),
        f == StatusFilter::All ==> status_matches(f, v),
{
    reveal_strlit("Draft");
    reveal_strlit("Review");
    reveal_strlit("Approved");
    reveal_strlit("Released");
    reveal_strlit("Obsolete");
    reveal_strlit("All");
    assert("Draft"@.len() == 5);
    assert("Review"@.len() == 6);
    assert("Approved"@.len() == 8 && "Approved"@[0] == 'A');
    assert("Released"@.len() == 8 && "Released"@[0] == 'R');
    assert("Obsolete"@.len() == 8 && "Obsolete"@[0] == 'O');
    assert("All"@.len() == 3);
}


/// The assembly passes every filter of the assembly list.
pub open spec fn assembly_listed(args: &ListArgs, a: &AssemblySummary) -> bool {
    &&& status_matches(args.status, a.status)
    &&& (args.search matches Some(q) ==> (contains_ignoring_case(a.part_number@, q@) || contains_ignoring_case(a.title@, q@)
        || (a.description matches Some(d) && contains_ignoring_case(d@, q@))))
    &&& (args.author matches Some(w) ==> contains_ignoring_case(a.author@, w@))
}

/// Whether the assembly list shows the assembly.
pub fn assembly_matches(args: &ListArgs, a: &AssemblySummary) -> (r: bool)
    ensures
        r == assembly_listed(args, a),
{
    let status_ok = match args.status {
        StatusFilter::Draft => a.status == Status::Draft,
        StatusFilter::Review => a.status == Status::Review,
        StatusFilter::Approved => a.status == Status::Approved,
        StatusFilter::Released => a.status == Status::Released,
        StatusFilter::Obsolete => a.status == Status::Obsolete,
        StatusFilter::All => true,
    };
    if !status_ok {
        return false;
    }
    if let Some(q) = &args.search {
        let in_description = match &a.description {
            Some(d) => contains_ignore_case(d.as_str(), q.as_str()),
            None => false,
        };
        if !(contains_ignore_case(a.part_number.as_str(), q.as_str()) || contains_ignore_case(a.title.as_str(), q.as_str()) || in_description) {
            return false;
        }
    }
    if let Some(w) = &args.author {
        if !contains_ignore_case(a.author.as_str(), w.as_str()) {
            return false;
        }
    }
    true
}

/// The name an entity status has in its debug form.
pub open spec fn status_debug_name(s: Status) -> Seq<char> {
    match s {
        Status::Draft => "Draft"@,
        Status::Review => "Review"@,
        Status::Approved => "Approved"@,
        Status::Released => "Released"@,
        Status::Obsolete => "Obsolete"@,
    }
}

/// The debug name of an entity status.
pub fn status_debug_text(s: Status) -> (r: &'static str)
    ensures
        r@ == status_debug_name(s),
{
    match s {
        Status::Draft => "Draft",
        Status::Review => "Review",
        Status::Approved => "Approved",
        Status::Released => "Released",
        Status::Obsolete => "Obsolete",
    }
}

/// The key an assembly is sorted by for a column.
pub open spec fn assembly_key(col: ListColumn, a: &AssemblySummary) -> SortKeyView {
    match col {
        ListColumn::Id => SortKeyView::Text(a.id@),
        ListColumn::PartNumber => SortKeyView::Text(a.part_number@),
        ListColumn::Title => SortKeyView::Text(a.title@),
        ListColumn::Status => SortKeyView::Text(status_debug_name(a.status)),
        ListColumn::Author => SortKeyView::Text(a.author@),
        ListColumn::Created => SortKeyView::Num(instant(a.created)),
    }
}

/// The sort key of an assembly for the chosen column.
pub fn assembly_sort_key(col: ListColumn, a: &AssemblySummary) -> (r: SortKey)
    ensures
        r@ == assembly_key(col, a),
{
    match col {
        ListColumn::Id => SortKey::text(a.id.as_str()),
        ListColumn::PartNumber => SortKey::text(a.part_number.as_str()),
        ListColumn::Title => SortKey::text(a.title.as_str()),
        ListColumn::Status => SortKey::text(status_debug_text(a.status)),
        ListColumn::Author => SortKey::text(a.author.as_str()),
        ListColumn::Created => time_key(a.created),
    }
}

/// How many assemblies the recent view keeps.
pub const RECENT_SHOWN: usize = 10;

/// The order the assembly list shows: sorted by the column (stable),
/// reversed on request; with the recent view, re-sorted newest first (ties
/// keep that order) and cut to ten; then cut to the limit.
pub open spec fn assembly_order(keys: Seq<SortKeyView>, created: Seq<SortKeyView>, reverse: bool, recent: bool, limit: Option<usize>) -> Seq<usize> {
    let o1 = shown_positions(keys, reverse, None);
    let o2 = if recent {
        let s = sorted_order(o1.map_values(|p: usize| created[p as int]), true);
        let t = if s.len() > RECENT_SHOWN {
            s.take(RECENT_SHOWN as int)
        } else {
            s
        };
        t.map_values(|x: usize| o1[x as int])
    } else {
        o1
    };
    match limit {
        Some(l) => if (l as int) < o2.len() {
            o2.take(l as int)
        } else {
            o2
        },
        None => o2,
    }
}

/// The order the assembly list shows, from each assembly's key for the sort
/// column and its creation key.
pub fn assembly_list_order(keys: &Vec<SortKey>, created: &Vec<SortKey>, reverse: bool, recent: bool, limit: Option<usize>) -> (r: Vec<usize>)
    requires
        keys.len() == created.len(),
    ensures
        r@ == assembly_order(key_views(keys@), key_views(created@), reverse, recent, limit),
{
    let ghost cv = key_views(created@);
    let o1 = list_order(keys, reverse, None);
    let mut o2: Vec<usize> = if recent {
        let mut sub: Vec<SortKey> = Vec::new();
        let mut i: usize = 0;
        while i < o1.len()
            invariant
                cv == key_views(created@),
                keys.len() == created.len(),
                forall|q: int| 0 <= q < o1@.len() ==> o1@[q] < keys.len(),
                i <= o1.len(),
                key_views(sub@) == o1@.take(i as int).map_values(|p: usize| cv[p as int]),
            decreases o1.len() - i,
        {
            let ghost before = key_views(sub@);
            sub.push(created[o1[i]].clone_key());
            assert(key_views(sub@) =~= before.push(cv[o1@[i as int] as int]));
            assert(o1@.take(i as int + 1) =~= o1@.take(i as int).push(o1@[i as int]));
            i = i + 1;
        }
        assert(o1@.take(o1.len() as int) =~= o1@);
        let mut s = stable_sort_order(&sub, true);
        assert(key_views(sub@).len() == sub@.len());
        s.truncate(RECENT_SHOWN);
        let mut t: Vec<usize> = Vec::new();
        let mut j: usize = 0;
        while j < s.len()
            invariant
                j <= s.len(),
                forall|q: int| 0 <= q < s@.len() ==> s@[q] < o1.len(),
                t@ == s@.take(j as int).map_values(|x: usize| o1@[x as int]),
            decreases s.len() - j,
        {
            t.push(o1[s[j]]);
            assert(s@.take(j as int + 1) =~= s@.take(j as int).push(s@[j as int]));
            assert(t@ =~= s@.take(j as int + 1).map_values(|x: usize| o1@[x as int]));
            j = j + 1;
        }
        assert(s@.take(s.len() as int) =~= s@);
        t
    } else {
        o1
    };
    match limit {
        Some(l) => {
            o2.truncate(l);
        },
        None => {},
    }
    o2
}


/// What the assembly BOM listing shows of a component.
pub struct BomComponentInfo {
    pub id: String,
    pub part_number: String,
    pub title: String,
}

/// The identifiers of the components.
pub open spec fn info_ids(cs: Seq<BomComponentInfo>) -> Seq<Seq<char>> {
    cs.map_values(|c: BomComponentInfo| c.id@)
}

/// The component a line names: the last one with its identifier.
pub open spec fn info_for(cs: Seq<BomComponentInfo>, id: Seq<char>) -> Option<int> {
    last_with(info_ids(cs), cs.len() as int, id)
}

/// The component's part number and title for a line, or the given stand-ins
/// when the component is not found.
pub open spec fn info_texts(cs: Seq<BomComponentInfo>, id: Seq<char>, no_part: Seq<char>, no_title: Seq<char>) -> (Seq<char>, Seq<char>) {
    match info_for(cs, id) {
        Some(i) => (cs[i].part_number@, cs[i].title@),
        None => (no_part, no_title),
    }
}

/// The CSV line of a bill-of-materials line: quantity, component, part
/// number, title, references joined by `;` and notes, the texts quoted
/// where they need it.
pub open spec fn bom_csv_text(item: BomLineItemView, cs: Seq<BomComponentInfo>) -> Seq<char> {
    let (part, title) = info_texts(cs, item.component_id, Seq::empty(), Seq::empty());
    let notes = match item.notes {
        Some(n) => n,
        None => Seq::empty(),
    };
    decimal(item.quantity as nat) + ","@ + item.component_id + ","@ + csv_field(part) + ","@ + csv_field(title) + ","@
        + csv_field(joined(item.reference_designators, ";"@)) + ","@ + csv_field(notes)
}

/// The texts of a list, borrowed.
fn borrowed_texts(v: &Vec<String>) -> (r: Vec<&str>)
    ensures
        r@.map_values(|s: &str| s@) == v@.map_values(|s: String| s@),
{
    let mut r: Vec<&str> = Vec::new();
    let mut i: usize = 0;
    while i < v.len()
        invariant
            i <= v.len(),
            r.len() == i,
            forall|j: int| 0 <= j < i ==> (#[trigger] r@[j])@ == v@[j]@,
        decreases v.len() - i,
    {
        r.push(v[i].as_str());
        i = i + 1;
    }
    assert(r@.map_values(|s: &str| s@) =~= v@.map_values(|s: String| s@));
    r
}

/// The position of the component a line names.
fn find_info(cs: &Vec<BomComponentInfo>, id: &str) -> (r: Option<usize>)
    ensures
        r matches Some(i) ==> i < cs.len(),
        match r {
            Some(i) => info_for(cs@, id@) == Some(i as int),
            None => info_for(cs@, id@) is None,
        },
{
    let mut ids: Vec<String> = Vec::new();
    let mut i: usize = 0;
    while i < cs.len()
        invariant
            i <= cs.len(),
            ids.len() == i,
            forall|j: int| 0 <= j < i ==> (#[trigger] ids@[j])@ == cs@[j].id@,
        decreases cs.len() - i,
    {
        ids.push(cs[i].id.clone());
        i = i + 1;
    }
    assert(ids_view(ids@) =~= info_ids(cs@));
    last_position(&ids, id)
}

/// Writes the CSV line of a bill-of-materials line.
pub fn bom_csv_line(item: &BomLineItem, cs: &Vec<BomComponentInfo>) -> (r: String)
    ensures
        r@ == bom_csv_text(item@, cs@),
{
    let (part, title): (&str, &str) = match find_info(cs, item.component_id.as_str()) {
        Some(i) => (cs[i].part_number.as_str(), cs[i].title.as_str()),
        None => ("", ""),
    };
    proof {
        reveal_strlit("");
        assert(""@ =~= Seq::<char>::empty());
    }
    let refs = join_texts(&borrowed_texts(&item.reference_designators), ";");
    let notes: &str = match &item.notes {
        Some(n) => n.as_str(),
        None => "",
    };
    let mut r = decimal_text(item.quantity as usize);
    append_text(&mut r, ",");
    append_text(&mut r, item.component_id.as_str());
    append_text(&mut r, ",");
    append_text(&mut r, escape_csv(part).as_str());
    append_text(&mut r, ",");
    append_text(&mut r, escape_csv(title).as_str());
    append_text(&mut r, ",");
    append_text(&mut r, escape_csv(refs.as_str()).as_str());
    append_text(&mut r, ",");
    append_text(&mut r, escape_csv(notes).as_str());
    r
}

/// The table line of a bill-of-materials line: quantity, component, part
/// number, title and references joined by `, `, each cut and padded to its
/// column; a component that is not found shows `-` and `(not found)`.
pub open spec fn bom_table_text(item: BomLineItemView, cs: Seq<BomComponentInfo>) -> Seq<char> {
    let (part, title) = info_texts(cs, item.component_id, "-"@, "(not found)"@);
    padded(decimal(item.quantity as nat), 6) + " "@ + padded(truncated_form(item.component_id, 13), 15) + " "@
        + padded(truncated_form(part, 10), 12) + " "@ + padded(truncated_form(title, 28), 30) + " "@
        + padded(truncated_form(joined(item.reference_designators, ", "@), 18), 20)
}

/// The text can be cut to `width` bytes without splitting a character.
pub open spec fn cuts_cleanly(s: Seq<char>, width: int) -> bool {
    byte_len(s) > width ==> is_byte_boundary(s, width - 3)
}

/// Whether the text can be cut to `width` bytes without splitting a
/// character.
pub fn cuts_at(s: &str, width: usize) -> (r: bool)
    ensures
        r == cuts_cleanly(s@, width as int),
{
    proof {
        vstd::utf8::encode_utf8_valid_utf8(s@);
    }
    byte_length(s) <= width || (width >= 3 && s.is_char_boundary(width - 3))
}

/// The texts of a table line can be cut to their columns.
pub open spec fn table_line_fits(item: BomLineItemView, cs: Seq<BomComponentInfo>) -> bool {
    let (part, title) = info_texts(cs, item.component_id, "-"@, "(not found)"@);
    &&& cuts_cleanly(item.component_id, 13)
    &&& cuts_cleanly(part, 10)
    &&& cuts_cleanly(title, 28)
    &&& cuts_cleanly(joined(item.reference_designators, ", "@), 18)
}

/// Appends a cell cut to `cut` bytes and padded to `width` characters.
fn push_cell(r: &mut String, text: &str, cut: usize, width: usize)
    requires
        cut >= 3,
        cuts_cleanly(text@, cut as int),
    ensures
        final(r)@ == old(r)@ + padded(truncated_form(text@, cut as int), width as int),
{
    let t = truncate_str(text, cut);
    let p = pad_right(t.as_str(), width);
    append_text(r, p.as_str());
}

/// Writes the table line of a bill-of-materials line.
pub fn bom_table_line(item: &BomLineItem, cs: &Vec<BomComponentInfo>) -> (r: String)
    requires
        table_line_fits(item@, cs@),
    ensures
        r@ == bom_table_text(item@, cs@),
{
    let (part, title): (&str, &str) = match find_info(cs, item.component_id.as_str()) {
        Some(i) => (cs[i].part_number.as_str(), cs[i].title.as_str()),
        None => ("-", "(not found)"),
    };
    let refs = join_texts(&borrowed_texts(&item.reference_designators), ", ");
    let mut r = pad_right(decimal_text(item.quantity as usize).as_str(), 6);
    append_text(&mut r, " ");
    push_cell(&mut r, item.component_id.as_str(), 13, 15);
    append_text(&mut r, " ");
    push_cell(&mut r, part, 10, 12);
    append_text(&mut r, " ");
    push_cell(&mut r, title, 28, 30);
    append_text(&mut r, " ");
    push_cell(&mut r, refs.as_str(), 18, 20);
    r
}

/// The total quantity over the first `n` lines.
pub open spec fn quantity_total(bom: Seq<BomLineItemView>, n: int) -> nat
    decreases n,
{
    if n <= 0 {
        0
    } else {
        quantity_total(bom, n - 1) + bom[n - 1].quantity as nat
    }
}

/// Totals over a prefix of the lines only grow.
proof fn lemma_quantity_total_grows(bom: Seq<BomLineItemView>, a: int, b: int)
    requires
        0 <= a <= b,
    ensures
        quantity_total(bom, a) <= quantity_total(bom, b),
    decreases b - a,
{
    if a < b {
        lemma_quantity_total_grows(bom, a, b - 1);
    }
}

/// How many components a bill of materials uses in all: its quantities
/// added up.
pub fn component_total(bom: &Vec<BomLineItem>) -> (r: u64)
    requires
        quantity_total(bom_view(bom@), bom.len() as int) <= u64::MAX,
    ensures
        r == quantity_total(bom_view(bom@), bom.len() as int),
{
    let ghost bv = bom_view(bom@);
    let mut total: u64 = 0;
    let mut i: usize = 0;
    while i < bom.len()
        invariant
            bv == bom_view(bom@),
            i <= bom.len(),
            quantity_total(bv, bom.len() as int) <= u64::MAX,
            total == quantity_total(bv, i as int),
        decreases bom.len() - i,
    {
        proof {
            lemma_quantity_total_grows(bv, i as int + 1, bom.len() as int);
        }
        assert(bv[i as int] == bom@[i as int]@);
        total = total + bom[i].quantity as u64;
        i = i + 1;
    }
    total
}

/// An assembly as the list shows it: each text as written, with the short
/// form the caller found, the number of its BOM items and the creation time
/// already written.
pub struct AssemblyListRow {
    pub id: String,
    /// The assembly's short form, if it has one.
    pub short_id: Option<String>,
    pub part_number: String,
    pub revision: Option<String>,
    pub title: String,
    /// The number of items in its bill of materials.
    pub bom_items: usize,
    /// The status, as written.
    pub status: String,
    pub author: String,
    /// The creation time, as written.
    pub created: String,
}

/// The CSV line of an assembly.
pub open spec fn assembly_csv_line(a: &AssemblyListRow) -> Seq<char> {
    text_or(a.short_id, Seq::empty()) + ","@ + a.id@ + ","@ + a.part_number@ + ","@ + text_or(a.revision, Seq::empty()) + ","@
        + csv_field(a.title@) + ","@ + decimal(a.bom_items as nat) + ","@ + a.status@
}

/// The Markdown line of an assembly.
pub open spec fn assembly_md_line(a: &AssemblyListRow) -> Seq<char> {
    "| "@ + text_or(a.short_id, Seq::empty()) + " | "@ + short_id_form(a.id@) + " | "@ + a.part_number@ + " | "@ + a.title@ + " | "@
        + decimal(a.bom_items as nat) + " | "@ + a.status@ + " |"@
}

/// The width of a column in the table listing.
pub open spec fn assembly_width(c: ListColumn) -> nat {
    match c {
        ListColumn::Id => 17,
        ListColumn::PartNumber => 12,
        ListColumn::Title => 30,
        ListColumn::Status => 10,
        ListColumn::Author => 15,
        ListColumn::Created => 20,
    }
}

/// The heading of a column in the table listing, before padding.
pub open spec fn assembly_heading(c: ListColumn) -> Seq<char> {
    match c {
        ListColumn::Id => "ID"@,
        ListColumn::PartNumber => "PART #"@,
        ListColumn::Title => "TITLE"@,
        ListColumn::Status => "STATUS"@,
        ListColumn::Author => "AUTHOR"@,
        ListColumn::Created => "CREATED"@,
    }
}

/// The cell of an assembly in a column of the table listing, before padding.
pub open spec fn assembly_cell(a: &AssemblyListRow, c: ListColumn) -> Seq<char> {
    match c {
        ListColumn::Id => short_id_form(a.id@),
        ListColumn::PartNumber => truncated_form(a.part_number@, 10),
        ListColumn::Title => truncated_form(a.title@, 28),
        ListColumn::Status => a.status@,
        ListColumn::Author => truncated_form(a.author@, 13),
        ListColumn::Created => a.created@,
    }
}

/// The first `n` columns' texts, each padded to its width, with a space
/// between neighbours.
pub open spec fn assembly_cells(cells: spec_fn(ListColumn) -> Seq<char>, cols: Seq<ListColumn>, n: int) -> Seq<char>
    decreases n,
{
    if n <= 0 {
        Seq::empty()
    } else if n == 1 {
        padded(cells(cols[0]), assembly_width(cols[0]) as int)
    } else {
        assembly_cells(cells, cols, n - 1) + " "@ + padded(cells(cols[n - 1]), assembly_width(cols[n - 1]) as int)
    }
}

/// The sum of the widths of the first `n` columns.
pub open spec fn assembly_widths_sum(cols: Seq<ListColumn>, n: int) -> nat
    decreases n,
{
    if n <= 0 {
        0
    } else {
        assembly_widths_sum(cols, n - 1) + assembly_width(cols[n - 1])
    }
}

/// What `asm list` prints for the assemblies in a format other than JSON
/// and YAML, one text per line: the count when only that is asked for, a
/// notice when there are none, else the lines of the format.
pub open spec fn assembly_list_output(asms: Seq<AssemblyListRow>, cols: Seq<ListColumn>, count: bool, format: OutputFormat) -> Seq<Seq<char>> {
    if count {
        seq![decimal(asms.len())]
    } else if asms.len() == 0 {
        seq!["No assemblies found."@]
    } else {
        match format {
            OutputFormat::Csv => seq!["short_id,id,part_number,revision,title,bom_items,status"@]
                + asms.map_values(|a: AssemblyListRow| assembly_csv_line(&a)),
            OutputFormat::Md => seq!["| Short | ID | Part # | Title | BOM Items | Status |"@, "|---|---|---|---|---|---|"@]
                + asms.map_values(|a: AssemblyListRow| assembly_md_line(&a)),
            OutputFormat::Id => asms.map_values(|a: AssemblyListRow| a.id@),
            _ => seq![
                assembly_cells(|c: ListColumn| assembly_heading(c), cols, cols.len() as int),
                dash_rule((assembly_widths_sum(cols, cols.len() as int) + cols.len() - 1) as nat),
            ] + asms.map_values(|a: AssemblyListRow| assembly_cells(|c: ListColumn| assembly_cell(&a, c), cols, cols.len() as int))
                + seq![Seq::empty(), decimal(asms.len()) + " assembly(s) found."@],
        }
    }
}

/// The texts of an assembly that the listings cut can be cut cleanly.
pub open spec fn assembly_row_fits(a: &AssemblyListRow) -> bool {
    &&& cuts_cleanly(a.id@, 16)
    &&& cuts_cleanly(a.part_number@, 10)
    &&& cuts_cleanly(a.title@, 28)
    &&& cuts_cleanly(a.author@, 13)
}

impl AssemblyListRow {
    /// Whether the texts that the listings cut can be cut cleanly.
    pub fn fits(&self) -> (r: bool)
        ensures
            r == assembly_row_fits(self),
    {
        cuts_at(self.id.as_str(), 16) && cuts_at(self.part_number.as_str(), 10) && cuts_at(self.title.as_str(), 28)
            && cuts_at(self.author.as_str(), 13)
    }
}

/// The CSV line of an assembly.
fn assembly_csv(a: &AssemblyListRow) -> (r: String)
    ensures
        r@ == assembly_csv_line(a),
{
    proof {
        reveal_strlit("");
        assert(""@ =~= Seq::<char>::empty());
    }
    let mut r = shown_or(&a.short_id, "");
    append_text(&mut r, ",");
    append_text(&mut r, a.id.as_str());
    append_text(&mut r, ",");
    append_text(&mut r, a.part_number.as_str());
    append_text(&mut r, ",");
    append_text(&mut r, shown_or(&a.revision, "").as_str());
    append_text(&mut r, ",");
    append_text(&mut r, escape_csv(a.title.as_str()).as_str());
    append_text(&mut r, ",");
    append_text(&mut r, decimal_text(a.bom_items).as_str());
    append_text(&mut r, ",");
    append_text(&mut r, a.status.as_str());
    r
}

/// The Markdown line of an assembly.
fn assembly_md(a: &AssemblyListRow) -> (r: String)
    requires
        cuts_cleanly(a.id@, 16),
    ensures
        r@ == assembly_md_line(a),
{
    proof {
        reveal_strlit("");
        assert(""@ =~= Seq::<char>::empty());
    }
    let mut r = concat_texts("| ", shown_or(&a.short_id, "").as_str());
    append_text(&mut r, " | ");
    append_text(&mut r, format_short_id(a.id.as_str()).as_str());
    append_text(&mut r, " | ");
    append_text(&mut r, a.part_number.as_str());
    append_text(&mut r, " | ");
    append_text(&mut r, a.title.as_str());
    append_text(&mut r, " | ");
    append_text(&mut r, decimal_text(a.bom_items).as_str());
    append_text(&mut r, " | ");
    append_text(&mut r, a.status.as_str());
    append_text(&mut r, " |");
    r
}

/// The width of a column.
fn assembly_column_width(c: ListColumn) -> (r: usize)
    ensures
        r == assembly_width(c),
{
    match c {
        ListColumn::Id => 17,
        ListColumn::PartNumber => 12,
        ListColumn::Title => 30,
        ListColumn::Status => 10,
        ListColumn::Author => 15,
        ListColumn::Created => 20,
    }
}

/// The text of a column for an assembly, or its heading when there is no
/// assembly, before padding.
fn assembly_column_text(a: Option<&AssemblyListRow>, c: ListColumn) -> (r: String)
    requires
        a matches Some(x) ==> assembly_row_fits(x),
    ensures
        r@ == match a {
            Some(x) => assembly_cell(x, c),
            None => assembly_heading(c),
        },
{
    match a {
        None => match c {
            ListColumn::Id => "ID".to_owned(),
            ListColumn::PartNumber => "PART #".to_owned(),
            ListColumn::Title => "TITLE".to_owned(),
            ListColumn::Status => "STATUS".to_owned(),
            ListColumn::Author => "AUTHOR".to_owned(),
            ListColumn::Created => "CREATED".to_owned(),
        },
        Some(x) => match c {
            ListColumn::Id => format_short_id(x.id.as_str()),
            ListColumn::PartNumber => truncate_str(x.part_number.as_str(), 10),
            ListColumn::Title => truncate_str(x.title.as_str(), 28),
            ListColumn::Status => x.status.clone(),
            ListColumn::Author => truncate_str(x.author.as_str(), 13),
            ListColumn::Created => x.created.clone(),
        },
    }
}

/// The header line of the table listing (no assembly), or the line of an
/// assembly.
fn assembly_table_text(a: Option<&AssemblyListRow>, cols: &Vec<ListColumn>) -> (r: String)
    requires
        a matches Some(x) ==> assembly_row_fits(x),
    ensures
        r@ == match a {
            Some(x) => assembly_cells(|c: ListColumn| assembly_cell(x, c), cols@, cols.len() as int),
            None => assembly_cells(|c: ListColumn| assembly_heading(c), cols@, cols.len() as int),
        },
{
    let ghost g = match a {
        Some(x) => |c: ListColumn| assembly_cell(x, c),
        None => |c: ListColumn| assembly_heading(c),
    };
    let mut r = String::new();
    let mut i: usize = 0;
    while i < cols.len()
        invariant
            i <= cols.len(),
            a matches Some(x) ==> assembly_row_fits(x),
            forall|c: ListColumn| #[trigger] g(c) == match a {
                Some(x) => assembly_cell(x, c),
                None => assembly_heading(c),
            },
            r@ == assembly_cells(g, cols@, i as int),
        decreases cols.len() - i,
    {
        if i > 0 {
            append_text(&mut r, " ");
        }
        append_text(&mut r, pad_right(assembly_column_text(a, cols[i]).as_str(), assembly_column_width(cols[i])).as_str());
        assert(r@ =~= assembly_cells(g, cols@, i as int + 1));
        i = i + 1;
    }
    proof {
        match a {
            Some(x) => {
                assert(g == (|c: ListColumn| assembly_cell(x, c)));
            },
            None => {
                assert(g == (|c: ListColumn| assembly_heading(c)));
            },
        }
    }
    r
}

/// The sum of the widths of fewer columns is no larger.
proof fn lemma_assembly_widths_grow(cols: Seq<ListColumn>, m: int, n: int)
    requires
        0 <= m <= n <= cols.len(),
    ensures
        assembly_widths_sum(cols, m) + m <= assembly_widths_sum(cols, n) + n,
    decreases n - m,
{
    if m < n {
        lemma_assembly_widths_grow(cols, m, n - 1);
    }
}

/// The length of the rule under the table header.
fn assembly_rule_length(cols: &Vec<ListColumn>) -> (r: usize)
    requires
        cols.len() >= 1,
        assembly_widths_sum(cols@, cols.len() as int) + cols.len() <= usize::MAX,
    ensures
        r == assembly_widths_sum(cols@, cols.len() as int) + cols.len() - 1,
{
    let mut total: usize = 0;
    let mut i: usize = 0;
    while i < cols.len()
        invariant
            i <= cols.len(),
            assembly_widths_sum(cols@, cols.len() as int) + cols.len() <= usize::MAX,
            total == assembly_widths_sum(cols@, i as int) + i,
        decreases cols.len() - i,
    {
        proof {
            lemma_assembly_widths_grow(cols@, i as int + 1, cols.len() as int);
        }
        total = total + assembly_column_width(cols[i]) + 1;
        i = i + 1;
    }
    total - 1
}

/// Writes what `asm list` prints for the assemblies in a format other than
/// JSON and YAML, one text per line.
pub fn assembly_list_lines(assemblies: &Vec<AssemblyListRow>, columns: &Vec<ListColumn>, count: bool, format: OutputFormat) -> (r: Vec<String>)
    requires
        assemblies.len() > 0 && !count ==> !is_full_record_format(format) && format != OutputFormat::Auto && format != OutputFormat::ShortId,
        assemblies.len() > 0 && !count && format == OutputFormat::Tsv ==> columns.len() >= 1
            && assembly_widths_sum(columns@, columns.len() as int) + columns.len() <= usize::MAX,
        format == OutputFormat::Tsv ==> forall|i: int| 0 <= i < assemblies.len() ==> assembly_row_fits(#[trigger] &assemblies@[i]),
        format == OutputFormat::Md ==> forall|i: int| 0 <= i < assemblies.len() ==> cuts_cleanly((#[trigger] assemblies@[i]).id@, 16),
    ensures
        r@.map_values(|s: String| s@) == assembly_list_output(assemblies@, columns@, count, format),
{
    let mut out: Vec<String> = Vec::new();
    if count {
        out.push(decimal_text(assemblies.len()));
        assert(out@.map_values(|s: String| s@) =~= assembly_list_output(assemblies@, columns@, count, format));
        return out;
    }
    if assemblies.len() == 0 {
        out.push("No assemblies found.".to_owned());
        assert(out@.map_values(|s: String| s@) =~= assembly_list_output(assemblies@, columns@, count, format));
        return out;
    }
    let ghost head: Seq<Seq<char>> = match format {
        OutputFormat::Csv => seq!["short_id,id,part_number,revision,title,bom_items,status"@],
        OutputFormat::Md => seq!["| Short | ID | Part # | Title | BOM Items | Status |"@, "|---|---|---|---|---|---|"@],
        OutputFormat::Id => seq![],
        _ => seq![
            assembly_cells(|c: ListColumn| assembly_heading(c), columns@, columns.len() as int),
            dash_rule((assembly_widths_sum(columns@, columns.len() as int) + columns.len() - 1) as nat),
        ],
    };
    let ghost line = |a: AssemblyListRow| match format {
        OutputFormat::Csv => assembly_csv_line(&a),
        OutputFormat::Md => assembly_md_line(&a),
        OutputFormat::Id => a.id@,
        _ => assembly_cells(|c: ListColumn| assembly_cell(&a, c), columns@, columns.len() as int),
    };
    match format {
        OutputFormat::Csv => {
            out.push("short_id,id,part_number,revision,title,bom_items,status".to_owned());
        },
        OutputFormat::Md => {
            out.push("| Short | ID | Part # | Title | BOM Items | Status |".to_owned());
            out.push("|---|---|---|---|---|---|".to_owned());
        },
        OutputFormat::Id => {},
        _ => {
            out.push(assembly_table_text(None, columns));
            out.push(dashes(assembly_rule_length(columns)));
        },
    }
    assert(out@.map_values(|s: String| s@) =~= head);
    let mut i: usize = 0;
    while i < assemblies.len()
        invariant
            i <= assemblies.len(),
            assemblies.len() > 0 && !count,
            !is_full_record_format(format) && format != OutputFormat::Auto && format != OutputFormat::ShortId,
            format == OutputFormat::Tsv ==> forall|k: int| 0 <= k < assemblies.len() ==> assembly_row_fits(#[trigger] &assemblies@[k]),
            format == OutputFormat::Md ==> forall|k: int| 0 <= k < assemblies.len() ==> cuts_cleanly((#[trigger] assemblies@[k]).id@, 16),
            line == (|a: AssemblyListRow| match format {
                OutputFormat::Csv => assembly_csv_line(&a),
                OutputFormat::Md => assembly_md_line(&a),
                OutputFormat::Id => a.id@,
                _ => assembly_cells(|c: ListColumn| assembly_cell(&a, c), columns@, columns.len() as int),
            }),
            out@.map_values(|s: String| s@) == head + assemblies@.take(i as int).map_values(line),
        decreases assemblies.len() - i,
    {
        let a = &assemblies[i];
        let text = match format {
            OutputFormat::Csv => assembly_csv(a),
            OutputFormat::Md => assembly_md(a),
            OutputFormat::Id => a.id.clone(),
            _ => assembly_table_text(Some(a), columns),
        };
        assert(text@ == line(assemblies@[i as int]));
        let ghost before = out@.map_values(|s: String| s@);
        out.push(text);
        assert(out@.map_values(|s: String| s@) =~= before.push(text@));
        assert(assemblies@.take(i as int + 1) =~= assemblies@.take(i as int).push(assemblies@[i as int]));
        assert(assemblies@.take(i as int + 1).map_values(line) =~= assemblies@.take(i as int).map_values(line).push(line(assemblies@[i as int])));
        i = i + 1;
    }
    assert(assemblies@.take(assemblies.len() as int) =~= assemblies@);
    match format {
        OutputFormat::Csv => {},
        OutputFormat::Md => {},
        OutputFormat::Id => {},
        _ => {
            let ghost before = out@.map_values(|s: String| s@);
            out.push(String::new());
            let mut footer = decimal_text(assemblies.len());
            append_text(&mut footer, " assembly(s) found.");
            out.push(footer);
            assert(out@.map_values(|s: String| s@) =~= before + seq![Seq::<char>::empty(), decimal(assemblies.len() as nat) + " assembly(s) found."@]);
        },
    }
    assert(out@.map_values(|s: String| s@) =~= assembly_list_output(assemblies@, columns@, count, format));
    out
}
} // verus!
