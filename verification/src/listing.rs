//! Ordering of listed entities: the keys a list is sorted by, the stable
//! order those keys give, and the reverse and limit options of list commands.

use vstd::prelude::*;
use crate::text::{chars_eq, chars_of};

verus! {

broadcast use vstd::utf8::char_u32_cast;

/// A value a list is sorted by: text (compared character by character, as
/// `str` ordering does) or a number. Numbers order before texts.
#[derive(Debug, Clone)]
pub enum SortKey {
    Text(Vec<char>),
    Num(i128),
}

/// Mathematical form of a [`SortKey`].
pub enum SortKeyView {
    Text(Seq<char>),
    Num(int),
}

impl View for SortKey {
    type V = SortKeyView;

    open spec fn view(&self) -> SortKeyView {
        match self {
            SortKey::Text(v) => SortKeyView::Text(v@),
            SortKey::Num(n) => SortKeyView::Num(*n as int),
        }
    }
}

impl SortKey {
    /// A text key.
    pub fn text(s: &str) -> (r: SortKey)
        ensures
            r@ == SortKeyView::Text(s@),
    {
        SortKey::Text(chars_of(s))
    }

    /// A numeric key.
    pub fn num(n: i128) -> (r: SortKey)
        ensures
            r@ == SortKeyView::Num(n as int),
    {
        SortKey::Num(n)
    }
}

/// Lexicographic order of texts by character code.
pub open spec fn lex_lt(a: Seq<char>, b: Seq<char>) -> bool
    decreases a.len(),
{
    if a.len() == 0 {
        b.len() > 0
    } else if b.len() == 0 {
        false
    } else if a[0] != b[0] {
        (a[0] as u32) < (b[0] as u32)
    } else {
        lex_lt(a.drop_first(), b.drop_first())
    }
}

/// Strict order of keys.
pub open spec fn key_lt(a: SortKeyView, b: SortKeyView) -> bool {
    match (a, b) {
        (SortKeyView::Num(x), SortKeyView::Num(y)) => x < y,
        (SortKeyView::Text(x), SortKeyView::Text(y)) => lex_lt(x, y),
        (SortKeyView::Num(_), SortKeyView::Text(_)) => true,
        (SortKeyView::Text(_), SortKeyView::Num(_)) => false,
    }
}

/// Position `i` comes before position `j`: by key (ascending, or descending
/// when `desc`), and by position when the keys are equal, as a stable sort does.
pub open spec fn precedes(keys: Seq<SortKeyView>, desc: bool, i: int, j: int) -> bool {
    if keys[i] == keys[j] {
        i < j
    } else if desc {
        key_lt(keys[j], keys[i])
    } else {
        key_lt(keys[i], keys[j])
    }
}

/// `s` arranges the positions `0..keys.len()` in the order `precedes` gives.
pub open spec fn is_sorted_arrangement(keys: Seq<SortKeyView>, desc: bool, s: Seq<usize>) -> bool {
    &&& s.len() == keys.len()
    &&& forall|a: int| 0 <= a < s.len() ==> s[a] < keys.len()
    &&& forall|a: int, b: int| 0 <= a < b < s.len() ==> precedes(keys, desc, s[a] as int, s[b] as int)
    &&& forall|x: usize| x < keys.len() ==> #[trigger] s.contains(x)
}

/// The positions of `keys` in stably sorted order.
pub open spec fn sorted_order(keys: Seq<SortKeyView>, desc: bool) -> Seq<usize> {
    choose|s: Seq<usize>| is_sorted_arrangement(keys, desc, s)
}

/// The keys, each taken by its view.
pub open spec fn key_views(keys: Seq<SortKey>) -> Seq<SortKeyView> {
    keys.map_values(|k: SortKey| k@)
}

proof fn lemma_lex_irreflexive(a: Seq<char>)
    ensures
        !lex_lt(a, a),
    decreases a.len(),
{
    if a.len() > 0 {
        lemma_lex_irreflexive(a.drop_first());
    }
}

proof fn lemma_lex_transitive(a: Seq<char>, b: Seq<char>, c: Seq<char>)
    requires
        lex_lt(a, b),
        lex_lt(b, c),
    ensures
        lex_lt(a, c),
    decreases a.len(),
{
    if a.len() > 0 && b.len() > 0 && c.len() > 0 && a[0] == b[0] && b[0] == c[0] {
        lemma_lex_transitive(a.drop_first(), b.drop_first(), c.drop_first());
    }
}

proof fn lemma_lex_total(a: Seq<char>, b: Seq<char>)
    requires
        a != b,
    ensures
        lex_lt(a, b) || lex_lt(b, a),
    decreases a.len(),
{
    if a.len() > 0 && b.len() > 0 {
        if a[0] == b[0] {
            if a.drop_first() == b.drop_first() {
                assert(a =~= seq![a[0]] + a.drop_first());
                assert(b =~= seq![b[0]] + b.drop_first());
            }
            lemma_lex_total(a.drop_first(), b.drop_first());
        } else {
            let x = a[0] as u32;
            let y = b[0] as u32;
            vstd::utf8::char_u32_cast(a[0], x);
            vstd::utf8::char_u32_cast(b[0], y);
            assert(x != y);
        }
    } else if a.len() == 0 && b.len() == 0 {
        assert(a =~= b);
    }
}

proof fn lemma_lex_asymmetric(a: Seq<char>, b: Seq<char>)
    requires
        lex_lt(a, b),
    ensures
        !lex_lt(b, a),
{
    if lex_lt(b, a) {
        lemma_lex_transitive(a, b, a);
        lemma_lex_irreflexive(a);
    }
}

proof fn lemma_key_order(a: SortKeyView, b: SortKeyView, c: SortKeyView)
    ensures
        !key_lt(a, a),
        key_lt(a, b) ==> !key_lt(b, a),
        key_lt(a, b) && key_lt(b, c) ==> key_lt(a, c),
        a != b ==> key_lt(a, b) || key_lt(b, a),
{
    match (a, b, c) {
        (SortKeyView::Text(x), SortKeyView::Text(y), SortKeyView::Text(z)) => {
            lemma_lex_irreflexive(x);
            if lex_lt(x, y) {
                lemma_lex_asymmetric(x, y);
                if lex_lt(y, z) {
                    lemma_lex_transitive(x, y, z);
                }
            }
            if x != y {
                lemma_lex_total(x, y);
            }
        },
        (SortKeyView::Text(x), SortKeyView::Text(y), _) => {
            lemma_lex_irreflexive(x);
            if lex_lt(x, y) {
                lemma_lex_asymmetric(x, y);
            }
            if x != y {
                lemma_lex_total(x, y);
            }
        },
        (SortKeyView::Text(x), _, _) => {
            lemma_lex_irreflexive(x);
        },
        _ => {},
    }
}

proof fn lemma_precedes_order(keys: Seq<SortKeyView>, desc: bool, i: int, j: int, k: int)
    ensures
        !precedes(keys, desc, i, i),
        precedes(keys, desc, i, j) ==> !precedes(keys, desc, j, i),
        precedes(keys, desc, i, j) && precedes(keys, desc, j, k) ==> precedes(keys, desc, i, k),
        i != j ==> precedes(keys, desc, i, j) || precedes(keys, desc, j, i),
{
    lemma_key_order(keys[i], keys[j], keys[k]);
    lemma_key_order(keys[k], keys[j], keys[i]);
    lemma_key_order(keys[j], keys[i], keys[k]);
    lemma_key_order(keys[i], keys[k], keys[j]);
}

/// The stable sorted order is unique: two arrangements that both sort the
/// same keys are the same arrangement.
pub proof fn law_sorted_order_unique(keys: Seq<SortKeyView>, desc: bool, s: Seq<usize>, t: Seq<usize>)
    requires
        is_sorted_arrangement(keys, desc, s),
        is_sorted_arrangement(keys, desc, t),
    ensures
        s == t,
{
    if s != t {
        assert(exists|a: int| 0 <= a < s.len() && s[a] != t[a]) by {
            if forall|a: int| 0 <= a < s.len() ==> s[a] == t[a] {
                assert(s =~= t);
            }
        }
        let w = choose|a: int| 0 <= a < s.len() && s[a] != t[a];
        let a = lemma_first_difference(s, t, w);
        let x = s[a];
        let y = t[a];
        assert(t.contains(x));
        assert(s.contains(y));
        let b = choose|b: int| 0 <= b < s.len() && s[b] == y;
        let c = choose|c: int| 0 <= c < t.len() && t[c] == x;
        if b < a {
            assert(t[b] == y);
            lemma_precedes_order(keys, desc, y as int, y as int, y as int);
        }
        if c < a {
            assert(s[c] == x);
            lemma_precedes_order(keys, desc, x as int, x as int, x as int);
        }
        assert(precedes(keys, desc, x as int, y as int));
        assert(precedes(keys, desc, y as int, x as int));
        lemma_precedes_order(keys, desc, x as int, y as int, x as int);
    }
}

proof fn lemma_first_difference(s: Seq<usize>, t: Seq<usize>, w: int) -> (a: int)
    requires
        s.len() == t.len(),
        0 <= w < s.len(),
        s[w] != t[w],
    ensures
        0 <= a <= w,
        s[a] != t[a],
        forall|b: int| 0 <= b < a ==> s[b] == t[b],
    decreases w,
{
    if exists|b: int| 0 <= b < w && s[b] != t[b] {
        let b = choose|b: int| 0 <= b < w && s[b] != t[b];
        lemma_first_difference(s, t, b)
    } else {
        w
    }
}

/// Text order of two character sequences.
fn text_lt(a: &[char], b: &[char]) -> (r: bool)
    ensures
        r == lex_lt(a@, b@),
{
    let mut i: usize = 0;
    assert(a@.skip(0) =~= a@);
    assert(b@.skip(0) =~= b@);
    while i < a.len() && i < b.len() && a[i] == b[i]
        invariant
            i <= a.len(),
            i <= b.len(),
            lex_lt(a@, b@) == lex_lt(a@.skip(i as int), b@.skip(i as int)),
        decreases a.len() - i,
    {
        assert(a@.skip(i as int).drop_first() =~= a@.skip(i as int + 1));
        assert(b@.skip(i as int).drop_first() =~= b@.skip(i as int + 1));
        i = i + 1;
    }
    if i == a.len() {
        i < b.len()
    } else if i == b.len() {
        false
    } else {
        (a[i] as u32) < (b[i] as u32)
    }
}

/// Whether two keys are equal.
fn key_eq(a: &SortKey, b: &SortKey) -> (r: bool)
    ensures
        r == (a@ == b@),
{
    match (a, b) {
        (SortKey::Text(x), SortKey::Text(y)) => chars_eq(x.as_slice(), y.as_slice()),
        (SortKey::Num(x), SortKey::Num(y)) => *x == *y,
        _ => false,
    }
}

/// Whether key `a` orders strictly before key `b`.
fn key_less(a: &SortKey, b: &SortKey) -> (r: bool)
    ensures
        r == key_lt(a@, b@),
{
    match (a, b) {
        (SortKey::Text(x), SortKey::Text(y)) => text_lt(x.as_slice(), y.as_slice()),
        (SortKey::Num(x), SortKey::Num(y)) => *x < *y,
        (SortKey::Num(_), SortKey::Text(_)) => true,
        (SortKey::Text(_), SortKey::Num(_)) => false,
    }
}

/// Whether position `i` comes before position `j`.
fn precedes_exec(keys: &Vec<SortKey>, desc: bool, i: usize, j: usize) -> (r: bool)
    requires
        i < keys.len(),
        j < keys.len(),
    ensures
        r == precedes(key_views(keys@), desc, i as int, j as int),
{
    assert(key_views(keys@)[i as int] == keys@[i as int]@);
    assert(key_views(keys@)[j as int] == keys@[j as int]@);
    if key_eq(&keys[i], &keys[j]) {
        i < j
    } else if desc {
        key_less(&keys[j], &keys[i])
    } else {
        key_less(&keys[i], &keys[j])
    }
}

/// The positions of `keys` in stably sorted order: ascending by key, or
/// descending when `descending`; equal keys keep their order.
pub fn stable_sort_order(keys: &Vec<SortKey>, descending: bool) -> (r: Vec<usize>)
    ensures
        is_sorted_arrangement(key_views(keys@), descending, r@),
        r@ == sorted_order(key_views(keys@), descending),
{
    let ghost kv = key_views(keys@);
    let mut r: Vec<usize> = Vec::new();
    let mut k: usize = 0;
    while k < keys.len()
        invariant
            kv == key_views(keys@),
            kv.len() == keys.len(),
            k <= keys.len(),
            r.len() == k,
            forall|a: int| 0 <= a < r.len() ==> r@[a] < k,
            forall|a: int, b: int| 0 <= a < b < r.len() ==> precedes(kv, descending, r@[a] as int, r@[b] as int),
            forall|x: usize| x < k ==> #[trigger] r@.contains(x),
        decreases keys.len() - k,
    {
        let mut p: usize = 0;
        while p < r.len() && !precedes_exec(keys, descending, k, r[p])
            invariant
                kv == key_views(keys@),
                k < keys.len(),
                p <= r.len(),
                forall|a: int| 0 <= a < r.len() ==> r@[a] < k,
                forall|q: int| 0 <= q < p ==> precedes(kv, descending, r@[q] as int, k as int),
            decreases r.len() - p,
        {
            proof {
                lemma_precedes_order(kv, descending, k as int, r@[p as int] as int, k as int);
            }
            p = p + 1;
        }
        let ghost old_r = r@;
        r.insert(p, k);
        proof {
            old_r.insert_ensures(p as int, k);
            let ns = r@;
            assert forall|a: int, b: int| 0 <= a < b < ns.len() implies precedes(kv, descending, ns[a] as int, ns[b] as int) by {
                if b < p {
                } else if b == p {
                } else if a < p {
                    assert(ns[b] == old_r[b - 1]);
                } else if a == p {
                    assert(ns[b] == old_r[b - 1]);
                    assert(precedes(kv, descending, k as int, old_r[p as int] as int));
                    if b - 1 > p {
                        lemma_precedes_order(kv, descending, k as int, old_r[p as int] as int, old_r[b - 1] as int);
                    }
                } else {
                    assert(ns[a] == old_r[a - 1]);
                    assert(ns[b] == old_r[b - 1]);
                }
            }
            assert forall|x: usize| x < k + 1 implies #[trigger] ns.contains(x) by {
                if x == k {
                    assert(ns[p as int] == k);
                } else {
                    assert(old_r.contains(x));
                    let q = choose|q: int| 0 <= q < old_r.len() && old_r[q] == x;
                    if q < p {
                        assert(ns[q] == x);
                    } else {
                        assert(ns[q + 1] == x);
                    }
                }
            }
        }
        k = k + 1;
    }
    proof {
        assert(is_sorted_arrangement(kv, descending, r@));
        law_sorted_order_unique(kv, descending, r@, sorted_order(kv, descending));
    }
    r
}

/// The positions shown by a list: the stable ascending order, reversed on
/// request, cut to `limit` entries when a limit is given.
pub open spec fn shown_positions(keys: Seq<SortKeyView>, reverse: bool, limit: Option<usize>) -> Seq<usize> {
    let s = sorted_order(keys, false);
    let s2 = if reverse {
        s.reverse()
    } else {
        s
    };
    match limit {
        Some(l) => if (l as int) < s2.len() {
            s2.take(l as int)
        } else {
            s2
        },
        None => s2,
    }
}

/// The positions, in order, whose flag is set.
pub open spec fn selected_positions(keep: Seq<bool>) -> Seq<usize> {
    Seq::new(keep.len(), |i: int| i as usize).filter(|i: usize| keep[i as int])
}

/// A position is selected exactly when its flag is set, and only positions
/// of the list are selected.
pub proof fn law_selected_exactly_flagged(keep: Seq<bool>)
    requires
        keep.len() <= usize::MAX,
    ensures
        forall|i: int| 0 <= i < keep.len() ==> (#[trigger] selected_positions(keep).contains(i as usize) <==> keep[i]),
        forall|a: int| 0 <= a < selected_positions(keep).len() ==> (#[trigger] selected_positions(keep)[a]) < keep.len(),
{
    let all = Seq::new(keep.len(), |i: int| i as usize);
    let pred = |i: usize| keep[i as int];
    assert forall|i: int| 0 <= i < keep.len() implies (#[trigger] selected_positions(keep).contains(i as usize) <==> keep[i]) by {
        assert(all[i] == i as usize);
        if keep[i] {
            all.lemma_filter_contains(pred, i);
        }
        if selected_positions(keep).contains(i as usize) {
            let a = choose|a: int| 0 <= a < selected_positions(keep).len() && selected_positions(keep)[a] == i as usize;
            all.lemma_filter_pred(pred, a);
        }
    }
    assert forall|a: int| 0 <= a < selected_positions(keep).len() implies (#[trigger] selected_positions(keep)[a]) < keep.len() by {
        let x = selected_positions(keep)[a];
        assert(selected_positions(keep).contains(x));
        all.lemma_filter_contains_rev(pred, x);
        let b = choose|b: int| 0 <= b < all.len() && all[b] == x;
    }
}

/// The entities a list shows, as positions in the loaded list: those the
/// filters keep, ordered by their keys, reversed on request, limited.
pub open spec fn listed_entities(keep: Seq<bool>, keys: Seq<SortKeyView>, reverse: bool, limit: Option<usize>) -> Seq<usize> {
    let f = selected_positions(keep);
    let sub = f.map_values(|i: usize| keys[i as int]);
    shown_positions(sub, reverse, limit).map_values(|p: usize| f[p as int])
}

/// The sequence in reverse order.
fn reversed(v: &Vec<usize>) -> (r: Vec<usize>)
    ensures
        r@ == v@.reverse(),
{
    let mut r: Vec<usize> = Vec::new();
    let n = v.len();
    let mut i: usize = 0;
    while i < n
        invariant
            n == v.len(),
            i <= n,
            r.len() == i,
            forall|j: int| 0 <= j < i ==> r@[j] == v@[n - 1 - j],
        decreases n - i,
    {
        r.push(v[n - 1 - i]);
        i = i + 1;
    }
    assert(r@ =~= v@.reverse());
    r
}

/// The order a list command shows its entities in: stably sorted by key,
/// reversed on request, then cut to `limit`.
pub fn list_order(keys: &Vec<SortKey>, reverse: bool, limit: Option<usize>) -> (r: Vec<usize>)
    ensures
        r@ == shown_positions(key_views(keys@), reverse, limit),
        forall|q: int| 0 <= q < r@.len() ==> r@[q] < keys.len(),
{
    let s = stable_sort_order(keys, false);
    assert(key_views(keys@).len() == keys@.len());
    let mut s2 = if reverse {
        reversed(&s)
    } else {
        s
    };
    match limit {
        Some(l) => {
            s2.truncate(l);
        },
        None => {},
    }
    s2
}

/// The positions, in order, whose flag is set.
pub fn positions_where(keep: &Vec<bool>) -> (r: Vec<usize>)
    ensures
        r@ == selected_positions(keep@),
        forall|a: int, b: int| 0 <= a < b < r@.len() ==> r@[a] < r@[b],
        forall|a: int| 0 <= a < r@.len() ==> r@[a] < keep.len() && keep@[r@[a] as int],
        forall|i: int| 0 <= i < keep.len() && keep@[i] ==> r@.contains(i as usize),
{
    let ghost all = Seq::new(keep@.len(), |i: int| i as usize);
    let mut r: Vec<usize> = Vec::new();
    let mut i: usize = 0;
    assert(all.take(0).filter(|i: usize| keep@[i as int]) =~= Seq::<usize>::empty());
    while i < keep.len()
        invariant
            all == Seq::new(keep@.len(), |i: int| i as usize),
            i <= keep.len(),
            r@ == all.take(i as int).filter(|i: usize| keep@[i as int]),
            forall|a: int, b: int| 0 <= a < b < r@.len() ==> r@[a] < r@[b],
            forall|a: int| 0 <= a < r@.len() ==> r@[a] < i && keep@[r@[a] as int],
            forall|j: int| 0 <= j < i && keep@[j] ==> r@.contains(j as usize),
        decreases keep.len() - i,
    {
        reveal_with_fuel(Seq::filter, 1);
        assert(all.take(i as int + 1).drop_last() =~= all.take(i as int));
        assert(all.take(i as int + 1).last() == i);
        let ghost before = r@;
        if keep[i] {
            r.push(i);
            assert forall|j: int| 0 <= j < i + 1 && keep@[j] implies r@.contains(j as usize) by {
                if j < i {
                    let k = choose|k: int| 0 <= k < before.len() && before[k] == j as usize;
                    assert(r@[k] == j as usize);
                } else {
                    assert(r@[before.len() as int] == i);
                }
            }
        } else {
            assert forall|j: int| 0 <= j < i + 1 && keep@[j] implies r@.contains(j as usize) by {
                if j < i {
                } else {
                }
            }
        }
        i = i + 1;
    }
    assert(all.take(keep.len() as int) =~= all);
    r
}

/// The entities a list command shows: those whose flag is set, ordered by
/// their keys (stable), reversed on request, cut to `limit`.
pub fn listed_positions(keep: &Vec<bool>, keys: &Vec<SortKey>, reverse: bool, limit: Option<usize>) -> (r: Vec<usize>)
    requires
        keep.len() == keys.len(),
    ensures
        r@ == listed_entities(keep@, key_views(keys@), reverse, limit),
{
    let f = positions_where(keep);
    let ghost kv = key_views(keys@);
    proof {
        reveal_with_fuel(Seq::filter, 1);
        Seq::new(keep@.len(), |i: int| i as usize).lemma_filter_len(|i: usize| keep@[i as int]);
        assert forall|j: int| 0 <= j < f@.len() implies f@[j] < keys.len() by {
            let all = Seq::new(keep@.len(), |i: int| i as usize);
            let g = all.filter(|i: usize| keep@[i as int]);
            all.lemma_filter_contains_rev(|i: usize| keep@[i as int], g[j]);
        }
    }
    let mut sub: Vec<SortKey> = Vec::new();
    let mut i: usize = 0;
    while i < f.len()
        invariant
            kv == key_views(keys@),
            i <= f.len(),
            forall|j: int| 0 <= j < f@.len() ==> f@[j] < keys.len(),
            key_views(sub@) == f@.take(i as int).map_values(|x: usize| kv[x as int]),
        decreases f.len() - i,
    {
        let ghost old_sub = sub@;
        sub.push(keys[f[i]].clone_key());
        assert(key_views(sub@) =~= key_views(old_sub).push(kv[f@[i as int] as int]));
        assert(f@.take(i as int + 1) =~= f@.take(i as int).push(f@[i as int]));
        assert(key_views(sub@) =~= f@.take(i as int + 1).map_values(|x: usize| kv[x as int]));
        i = i + 1;
    }
    assert(f@.take(f.len() as int) =~= f@);
    let order = list_order(&sub, reverse, limit);
    assert(sub@.len() == f@.len()) by {
        assert(key_views(sub@).len() == sub@.len());
    }
    let mut r: Vec<usize> = Vec::new();
    let mut j: usize = 0;
    while j < order.len()
        invariant
            j <= order.len(),
            forall|q: int| 0 <= q < order@.len() ==> order@[q] < f.len(),
            r@ == order@.take(j as int).map_values(|p: usize| f@[p as int]),
        decreases order.len() - j,
    {
        r.push(f[order[j]]);
        assert(order@.take(j as int + 1) =~= order@.take(j as int).push(order@[j as int]));
        assert(r@ =~= order@.take(j as int + 1).map_values(|p: usize| f@[p as int]));
        j = j + 1;
    }
    assert(order@.take(order.len() as int) =~= order@);
    r
}

/// The positions whose flag is set, stably ordered by their keys (ascending,
/// or descending when `desc`).
pub open spec fn ranked_selection(keep: Seq<bool>, keys: Seq<SortKeyView>, desc: bool) -> Seq<usize> {
    let f = selected_positions(keep);
    let sub = f.map_values(|i: usize| keys[i as int]);
    sorted_order(sub, desc).map_values(|p: usize| f[p as int])
}

/// The positions whose flag is set, stably ordered by their keys: ascending,
/// or descending when `descending` (equal keys keep their order).
pub fn ranked_positions(keep: &Vec<bool>, keys: &Vec<SortKey>, descending: bool) -> (r: Vec<usize>)
    requires
        keep.len() == keys.len(),
    ensures
        r@ == ranked_selection(keep@, key_views(keys@), descending),
        forall|a: int| 0 <= a < r@.len() ==> r@[a] < keep.len() && keep@[r@[a] as int],
        forall|a: int, b: int| 0 <= a < b < r@.len() ==> precedes(key_views(keys@), descending, r@[a] as int, r@[b] as int),
        forall|i: int| 0 <= i < keep.len() && keep@[i] ==> r@.contains(i as usize),
{
    let f = positions_where(keep);
    let ghost kv = key_views(keys@);
    proof {
        reveal_with_fuel(Seq::filter, 1);
        Seq::new(keep@.len(), |i: int| i as usize).lemma_filter_len(|i: usize| keep@[i as int]);
        assert forall|j: int| 0 <= j < f@.len() implies f@[j] < keys.len() by {
            let all = Seq::new(keep@.len(), |i: int| i as usize);
            let g = all.filter(|i: usize| keep@[i as int]);
            all.lemma_filter_contains_rev(|i: usize| keep@[i as int], g[j]);
        }
    }
    let mut sub: Vec<SortKey> = Vec::new();
    let mut i: usize = 0;
    while i < f.len()
        invariant
            kv == key_views(keys@),
            i <= f.len(),
            forall|j: int| 0 <= j < f@.len() ==> f@[j] < keys.len(),
            key_views(sub@) == f@.take(i as int).map_values(|x: usize| kv[x as int]),
        decreases f.len() - i,
    {
        let ghost old_sub = sub@;
        sub.push(keys[f[i]].clone_key());
        assert(key_views(sub@) =~= key_views(old_sub).push(kv[f@[i as int] as int]));
        assert(f@.take(i as int + 1) =~= f@.take(i as int).push(f@[i as int]));
        assert(key_views(sub@) =~= f@.take(i as int + 1).map_values(|x: usize| kv[x as int]));
        i = i + 1;
    }
    assert(f@.take(f.len() as int) =~= f@);
    let order = stable_sort_order(&sub, descending);
    assert(sub@.len() == f@.len()) by {
        assert(key_views(sub@).len() == sub@.len());
    }
    let mut r: Vec<usize> = Vec::new();
    let mut j: usize = 0;
    while j < order.len()
        invariant
            j <= order.len(),
            forall|q: int| 0 <= q < order@.len() ==> order@[q] < f.len(),
            r@ == order@.take(j as int).map_values(|p: usize| f@[p as int]),
        decreases order.len() - j,
    {
        r.push(f[order[j]]);
        assert(order@.take(j as int + 1) =~= order@.take(j as int).push(order@[j as int]));
        assert(r@ =~= order@.take(j as int + 1).map_values(|p: usize| f@[p as int]));
        j = j + 1;
    }
    assert(order@.take(order.len() as int) =~= order@);
    proof {
        let sk = key_views(sub@);
        assert forall|p: int| 0 <= p < sk.len() implies #[trigger] sk[p] == kv[f@[p] as int] by {
            assert(sk == f@.map_values(|x: usize| kv[x as int]));
        }
        assert forall|a: int, b: int| 0 <= a < b < r@.len() implies precedes(kv, descending, r@[a] as int, r@[b] as int) by {
            let p = order@[a] as int;
            let q = order@[b] as int;
            assert(precedes(sk, descending, p, q));
            assert(sk[p] == kv[f@[p] as int]);
            assert(sk[q] == kv[f@[q] as int]);
            if sk[p] == sk[q] {
                assert(p < q);
                assert(f@[p] < f@[q]);
            }
        }
        assert forall|i: int| 0 <= i < keep.len() && keep@[i] implies r@.contains(i as usize) by {
            assert(f@.contains(i as usize));
            let p = choose|p: int| 0 <= p < f@.len() && f@[p] == i as usize;
            assert(order@.contains(p as usize));
            let j = choose|j: int| 0 <= j < order@.len() && order@[j] == p as usize;
            assert(r@[j] == i as usize);
        }
    }
    r
}

impl SortKey {
    /// A copy of the key.
    pub fn clone_key(&self) -> (r: SortKey)
        ensures
            r@ == self@,
    {
        match self {
            SortKey::Text(v) => SortKey::Text(v.clone()),
            SortKey::Num(n) => SortKey::Num(*n),
        }
    }
}


/// A text key that orders an absent text before every present one and
/// present ones as their texts: present texts get a NUL character in front.
pub open spec fn optional_text_key(o: Option<String>) -> Seq<char> {
    match o {
        Some(x) => seq!['\0'] + x@,
        None => Seq::empty(),
    }
}

/// The sort key of an optional text, absent before present.
pub fn optional_text_sort_key(o: &Option<String>) -> (r: SortKey)
    ensures
        r@ == SortKeyView::Text(optional_text_key(*o)),
{
    match o {
        Some(x) => {
            let mut v: Vec<char> = Vec::new();
            v.push('\0');
            let cs = chars_of(x.as_str());
            let mut i: usize = 0;
            while i < cs.len()
                invariant
                    i <= cs.len(),
                    cs@ == x@,
                    v@ == seq!['\0'] + cs@.take(i as int),
                decreases cs.len() - i,
            {
                v.push(cs[i]);
                assert(cs@.take(i as int + 1) =~= cs@.take(i as int).push(cs@[i as int]));
                i = i + 1;
            }
            assert(cs@.take(cs.len() as int) =~= cs@);
            SortKey::Text(v)
        },
        None => {
            let v: Vec<char> = Vec::new();
            assert(v@ =~= Seq::<char>::empty());
            SortKey::Text(v)
        },
    }
}

} // verus!
