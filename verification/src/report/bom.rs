//! Indented bill of materials: the assembly tree walked depth first, each
//! item found as a component or a subassembly, with cycles cut where a
//! subassembly would contain itself.

use vstd::prelude::*;
use crate::common::{count_where, holds_id, ids_view, last_position, last_with, lemma_count_where_drops, pos_view};
use crate::text::{str_eq, str_starts_with, text_starts_with};

verus! {

pub struct BomArgs {
    /// Assembly ID to generate BOM for
    pub assembly_id: String,

    /// Output to file instead of stdout
    pub output: Option<String>,

    /// Include cost rollup
    pub with_cost: bool,

    /// Include mass rollup
    pub with_mass: bool,
}

/// One line of an assembly's bill of materials.
#[derive(Debug)]
pub struct BomItem {
    /// The component or subassembly used.
    pub component_id: String,
    pub quantity: u32,
}

/// Mathematical form of a [`BomItem`].
pub struct BomItemView {
    pub component_id: Seq<char>,
    pub quantity: u32,
}

impl View for BomItem {
    type V = BomItemView;

    open spec fn view(&self) -> BomItemView {
        BomItemView { component_id: self.component_id@, quantity: self.quantity }
    }
}

/// An assembly: its identifier and its bill of materials.
#[derive(Debug)]
pub struct AssemblyNode {
    pub id: String,
    pub bom: Vec<BomItem>,
}

/// Mathematical form of an [`AssemblyNode`].
pub struct AssemblyNodeView {
    pub id: Seq<char>,
    pub bom: Seq<BomItemView>,
}

impl View for AssemblyNode {
    type V = AssemblyNodeView;

    open spec fn view(&self) -> AssemblyNodeView {
        AssemblyNodeView { id: self.id@, bom: self.bom@.map_values(|b: BomItem| b@) }
    }
}

/// The assemblies, each taken by its view.
pub open spec fn assemblies_view(asms: Seq<AssemblyNode>) -> Seq<AssemblyNodeView> {
    asms.map_values(|a: AssemblyNode| a@)
}

/// The identifiers of the assemblies.
pub open spec fn assembly_ids(asms: Seq<AssemblyNodeView>) -> Seq<Seq<char>> {
    asms.map_values(|a: AssemblyNodeView| a.id)
}

/// What a line of the tree shows.
#[derive(Debug, Clone, Copy, PartialEq, Eq, Structural)]
pub enum BomEntry {
    /// The component at this position.
    Component(usize),
    /// The subassembly at this position, expanded on the following lines.
    Assembly(usize),
    /// The subassembly at this position, already on the path from the root:
    /// not expanded again.
    Cycle(usize),
    /// Neither a component nor an assembly.
    Missing,
}

/// A line of the indented tree.
#[derive(Debug)]
pub struct BomLine {
    /// Nesting depth (0 for the root's own items).
    pub depth: usize,
    /// The item is the last of its list.
    pub last: bool,
    pub component_id: String,
    pub quantity: u32,
    pub entry: BomEntry,
}

/// Mathematical form of a [`BomLine`].
pub struct BomLineView {
    pub depth: int,
    pub last: bool,
    pub component_id: Seq<char>,
    pub quantity: u32,
    pub entry: BomEntry,
}

impl View for BomLine {
    type V = BomLineView;

    open spec fn view(&self) -> BomLineView {
        BomLineView {
            depth: self.depth as int,
            last: self.last,
            component_id: self.component_id@,
            quantity: self.quantity,
            entry: self.entry,
        }
    }
}

/// The assembly at a position is not on the path walked so far.
pub open spec fn not_visited(asms: Seq<AssemblyNodeView>, visited: Seq<Seq<char>>) -> spec_fn(int) -> bool {
    |i: int| !visited.contains(asms[i].id)
}

/// How many assemblies are not on the path walked so far.
pub open spec fn unvisited(asms: Seq<AssemblyNodeView>, visited: Seq<Seq<char>>) -> nat {
    count_where(asms.len() as int, not_visited(asms, visited))
}

/// Adding an assembly's identifier to the path leaves fewer assemblies off it.
pub proof fn lemma_visit_shrinks(asms: Seq<AssemblyNodeView>, visited: Seq<Seq<char>>, a: int)
    requires
        0 <= a < asms.len(),
        !visited.contains(asms[a].id),
    ensures
        unvisited(asms, visited.push(asms[a].id)) < unvisited(asms, visited),
{
    let nv = visited.push(asms[a].id);
    assert forall|i: int| 0 <= i < asms.len() && #[trigger] not_visited(asms, nv)(i) implies not_visited(asms, visited)(i) by {
        if visited.contains(asms[i].id) {
            let j = choose|j: int| 0 <= j < visited.len() && visited[j] == asms[i].id;
            assert(nv[j] == asms[i].id);
        }
    }
    assert(nv[visited.len() as int] == asms[a].id);
    lemma_count_where_drops(asms.len() as int, not_visited(asms, visited), not_visited(asms, nv), a);
}

/// The line for the item at position `k` of `items`.
pub open spec fn bom_line(items: Seq<BomItemView>, k: int, depth: int, entry: BomEntry) -> BomLineView {
    BomLineView {
        depth: depth,
        last: k == items.len() - 1,
        component_id: items[k].component_id,
        quantity: items[k].quantity,
        entry: entry,
    }
}

/// The lines for the items of `items` from position `k` on, at `depth`, with
/// `visited` the identifiers of the assemblies on the path from the root.
/// An item is looked up among the components first, then among the
/// assemblies; a subassembly not on the path is followed by its own lines,
/// one level deeper.
pub open spec fn bom_tree(asms: Seq<AssemblyNodeView>, comps: Seq<Seq<char>>, items: Seq<BomItemView>, k: int, depth: int, visited: Seq<Seq<char>>) -> Seq<BomLineView>
    decreases unvisited(asms, visited), items.len() - k,
{
    if k < 0 || k >= items.len() {
        Seq::empty()
    } else {
        let id = items[k].component_id;
        let rest = bom_tree(asms, comps, items, k + 1, depth, visited);
        match last_with(comps, comps.len() as int, id) {
            Some(c) => seq![bom_line(items, k, depth, BomEntry::Component(c as usize))] + rest,
            None => match last_with(assembly_ids(asms), asms.len() as int, id) {
                Some(a) => if visited.contains(id) {
                    seq![bom_line(items, k, depth, BomEntry::Cycle(a as usize))] + rest
                } else {
                    proof {
                        lemma_last_with_found(assembly_ids(asms), asms.len() as int, id);
                        lemma_visit_shrinks(asms, visited, a);
                    }
                    seq![bom_line(items, k, depth, BomEntry::Assembly(a as usize))]
                        + bom_tree(asms, comps, asms[a].bom, 0, depth + 1, visited.push(id))
                        + rest
                },
                None => seq![bom_line(items, k, depth, BomEntry::Missing)] + rest,
            },
        }
    }
}

/// A found position holds the identifier looked for.
pub proof fn lemma_last_with_found(ids: Seq<Seq<char>>, n: int, t: Seq<char>)
    requires
        n <= ids.len(),
    ensures
        last_with(ids, n, t) matches Some(i) ==> 0 <= i < n && ids[i] == t,
    decreases n,
{
    if n > 0 {
        lemma_last_with_found(ids, n - 1, t);
    }
}

/// The position of the last assembly with identifier `t`.
fn find_assembly(asms: &Vec<AssemblyNode>, t: &str) -> (r: Option<usize>)
    ensures
        pos_view(r) == last_with(assembly_ids(assemblies_view(asms@)), asms.len() as int, t@),
        r matches Some(i) ==> i < asms.len(),
{
    let ghost ids = assembly_ids(assemblies_view(asms@));
    let mut found: Option<usize> = None;
    let mut i: usize = 0;
    while i < asms.len()
        invariant
            ids == assembly_ids(assemblies_view(asms@)),
            i <= asms.len(),
            pos_view(found) == last_with(ids, i as int, t@),
            found matches Some(x) ==> x < i,
        decreases asms.len() - i,
    {
        assert(ids[i as int] == asms@[i as int].id@);
        if str_eq(asms[i].id.as_str(), t) {
            found = Some(i);
        }
        i = i + 1;
    }
    found
}

/// A copy of an identifier.
fn copy_text(s: &String) -> (r: String)
    ensures
        r@ == s@,
{
    s.clone()
}

/// Appends the lines of `items` at `depth` to `out`.
fn walk_bom(asms: &Vec<AssemblyNode>, comps: &Vec<String>, items: &Vec<BomItem>, depth: usize, visited: &mut Vec<String>, out: &mut Vec<BomLine>)
    requires
        depth + unvisited(assemblies_view(asms@), ids_view(old(visited)@)) <= asms.len(),
    ensures
        ids_view(final(visited)@) == ids_view(old(visited)@),
        final(out)@.map_values(|l: BomLine| l@) == old(out)@.map_values(|l: BomLine| l@)
            + bom_tree(assemblies_view(asms@), ids_view(comps@), items@.map_values(|b: BomItem| b@), 0, depth as int, ids_view(old(visited)@)),
    decreases unvisited(assemblies_view(asms@), ids_view(old(visited)@)),
{
    let ghost av = assemblies_view(asms@);
    let ghost cv = ids_view(comps@);
    let ghost iv = items@.map_values(|b: BomItem| b@);
    let ghost vis = ids_view(visited@);
    let ghost out0 = out@.map_values(|l: BomLine| l@);
    let mut k: usize = 0;
    while k < items.len()
        invariant
            av == assemblies_view(asms@),
            cv == ids_view(comps@),
            iv == items@.map_values(|b: BomItem| b@),
            vis == ids_view(visited@),
            vis == ids_view(old(visited)@),
            depth + unvisited(av, vis) <= asms.len(),
            k <= items.len(),
            out@.map_values(|l: BomLine| l@) + bom_tree(av, cv, iv, k as int, depth as int, vis)
                == out0 + bom_tree(av, cv, iv, 0, depth as int, vis),
        decreases items.len() - k,
    {
        let ghost before = out@.map_values(|l: BomLine| l@);
        let item = &items[k];
        assert(iv[k as int] == item@);
        let last = k == items.len() - 1;
        let c = last_position(comps, item.component_id.as_str());
        match c {
            Some(ci) => {
                out.push(BomLine { depth, last, component_id: copy_text(&item.component_id), quantity: item.quantity, entry: BomEntry::Component(ci) });
                assert(out@.map_values(|l: BomLine| l@) =~= before.push(bom_line(iv, k as int, depth as int, BomEntry::Component(ci))));
            },
            None => {
                let a = find_assembly(asms, item.component_id.as_str());
                match a {
                    Some(ai) => {
                        proof {
                            lemma_last_with_found(assembly_ids(av), asms.len() as int, item.component_id@);
                        }
                        if holds_id(visited, item.component_id.as_str()) {
                            out.push(BomLine { depth, last, component_id: copy_text(&item.component_id), quantity: item.quantity, entry: BomEntry::Cycle(ai) });
                            assert(out@.map_values(|l: BomLine| l@) =~= before.push(bom_line(iv, k as int, depth as int, BomEntry::Cycle(ai))));
                        } else {
                            out.push(BomLine { depth, last, component_id: copy_text(&item.component_id), quantity: item.quantity, entry: BomEntry::Assembly(ai) });
                            let ghost mid = out@.map_values(|l: BomLine| l@);
                            assert(mid =~= before.push(bom_line(iv, k as int, depth as int, BomEntry::Assembly(ai))));
                            proof {
                                lemma_visit_shrinks(av, vis, ai as int);
                            }
                            visited.push(copy_text(&item.component_id));
                            assert(ids_view(visited@) =~= vis.push(item.component_id@));
                            assert(av[ai as int].id == item.component_id@);
                            walk_bom(asms, comps, &asms[ai].bom, depth + 1, visited, out);
                            let ghost after = visited@;
                            assert(ids_view(after) == vis.push(item.component_id@));
                            let _ = visited.pop();
                            assert(visited@ == after.drop_last());
                            assert forall|j: int| 0 <= j < vis.len() implies #[trigger] ids_view(visited@)[j] == vis[j] by {
                                assert(ids_view(after)[j] == after[j]@);
                            }
                            assert(ids_view(visited@) =~= vis);
                        }
                    },
                    None => {
                        out.push(BomLine { depth, last, component_id: copy_text(&item.component_id), quantity: item.quantity, entry: BomEntry::Missing });
                        assert(out@.map_values(|l: BomLine| l@) =~= before.push(bom_line(iv, k as int, depth as int, BomEntry::Missing)));
                    },
                }
            },
        }
        k = k + 1;
    }
}

/// The lines of the indented bill of materials of the assembly at position
/// `root`, among the assemblies `asms` and the components (their
/// identifiers) `comps`.
pub fn bom_lines(asms: &Vec<AssemblyNode>, comps: &Vec<String>, root: usize) -> (r: Vec<BomLine>)
    requires
        root < asms.len(),
    ensures
        r@.map_values(|l: BomLine| l@) == bom_tree(assemblies_view(asms@), ids_view(comps@), asms@[root as int].bom@.map_values(|b: BomItem| b@), 0, 0, seq![asms@[root as int].id@]),
{
    let mut visited: Vec<String> = Vec::new();
    visited.push(copy_text(&asms[root].id));
    let ghost av = assemblies_view(asms@);
    proof {
        crate::common::lemma_count_where_bound(asms.len() as int, not_visited(av, ids_view(visited@)));
    }
    assert(ids_view(visited@) =~= seq![asms@[root as int].id@]);
    let mut out: Vec<BomLine> = Vec::new();
    walk_bom(asms, comps, &asms[root].bom, 0, &mut visited, &mut out);
    assert(out@.map_values(|l: BomLine| l@) =~= Seq::<BomLineView>::empty() + bom_tree(assemblies_view(asms@), ids_view(comps@), asms@[root as int].bom@.map_values(|b: BomItem| b@), 0, 0, seq![asms@[root as int].id@]));
    out
}

/// The assembly a report is asked for: the first whose identifier is the
/// query or starts with it.
pub open spec fn assembly_query_match(ids: Seq<Seq<char>>, q: Seq<char>) -> Option<int> {
    crate::common::first_where(ids.len() as int, |i: int| ids[i] == q || text_starts_with(ids[i], q))
}

/// Finds the assembly a report is asked for.
pub fn find_report_assembly(asms: &Vec<AssemblyNode>, query: &str) -> (r: Option<usize>)
    ensures
        pos_view(r) == assembly_query_match(assembly_ids(assemblies_view(asms@)), query@),
        r matches Some(i) ==> i < asms.len(),
{
    let ghost ids = assembly_ids(assemblies_view(asms@));
    let ghost p = |i: int| ids[i] == query@ || text_starts_with(ids[i], query@);
    let mut i: usize = 0;
    while i < asms.len()
        invariant
            ids == assembly_ids(assemblies_view(asms@)),
            p == (|i: int| ids[i] == query@ || text_starts_with(ids[i], query@)),
            i <= asms.len(),
            forall|j: int| 0 <= j < i ==> !#[trigger] p(j),
        decreases asms.len() - i,
    {
        assert(ids[i as int] == asms@[i as int].id@);
        if str_eq(asms[i].id.as_str(), query) || str_starts_with(asms[i].id.as_str(), query) {
            proof {
                crate::common::lemma_first_where(asms.len() as int, p, i as int);
            }
            return Some(i);
        }
        i = i + 1;
    }
    None
}

} // verus!
