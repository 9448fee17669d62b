//! Values shared by the command modules: points in time, optional texts,
//! decimal numbers typed by users, and "first position where" searches.

use vstd::prelude::*;
use crate::listing::{SortKey, SortKeyView};
use crate::text::{chars_of, str_eq};

verus! {

/// A point in time: seconds since the Unix epoch and the nanoseconds past
/// that second (below one billion).
#[derive(Debug, Clone, Copy, PartialEq, Eq, Structural)]
pub struct Timestamp {
    pub secs: i64,
    pub nanos: u32,
}

/// Nanoseconds since the epoch.
pub open spec fn instant(t: Timestamp) -> int {
    t.secs * 1_000_000_000 + t.nanos
}

/// Seconds in thirty days, the window of the `--recent` filters.
pub const RECENT_WINDOW_SECS: i64 = 2_592_000;

/// `t` lies within thirty days before `now` (or after it).
pub open spec fn is_recent(t: Timestamp, now: Timestamp) -> bool {
    instant(t) >= instant(now) - RECENT_WINDOW_SECS * 1_000_000_000
}

/// Whether `t` lies within the thirty days before `now` (or after it).
pub fn within_recent_window(t: Timestamp, now: Timestamp) -> (r: bool)
    ensures
        r == is_recent(t, now),
{
    let a = (t.secs as i128) * 1_000_000_000 + (t.nanos as i128);
    let b = (now.secs as i128) * 1_000_000_000 + (now.nanos as i128) - (RECENT_WINDOW_SECS as i128) * 1_000_000_000;
    a >= b
}

/// A sort key ordering timestamps chronologically.
pub fn time_key(t: Timestamp) -> (r: SortKey)
    ensures
        r@ == SortKeyView::Num(instant(t)),
{
    SortKey::Num((t.secs as i128) * 1_000_000_000 + (t.nanos as i128))
}

/// The view of an optional text.
pub open spec fn opt_view(o: Option<String>) -> Option<Seq<char>> {
    match o {
        Some(s) => Some(s@),
        None => None,
    }
}

/// The optional text, or the empty text.
pub open spec fn text_or_empty(o: Option<String>) -> Seq<char> {
    match o {
        Some(s) => s@,
        None => Seq::empty(),
    }
}

/// Value of a string of decimal digits.
pub open spec fn digits_value(s: Seq<char>) -> int
    decreases s.len(),
{
    if s.len() == 0 {
        0
    } else {
        digits_value(s.drop_last()) * 10 + (s.last() as int - '0' as int)
    }
}

/// Every character is a decimal digit.
pub open spec fn all_digits(s: Seq<char>) -> bool {
    forall|i: int| 0 <= i < s.len() ==> '0' <= #[trigger] s[i] <= '9'
}

/// The unsigned number a text spells, as `str::parse::<usize>` reads it: an
/// optional `+` and at least one decimal digit, within range.
pub open spec fn parsed_usize(s: Seq<char>) -> Option<usize> {
    let d = if s.len() > 0 && s[0] == '+' {
        s.drop_first()
    } else {
        s
    };
    if d.len() > 0 && all_digits(d) && digits_value(d) <= usize::MAX {
        Some(digits_value(d) as usize)
    } else {
        None
    }
}

proof fn lemma_digits_value_monotone(d: Seq<char>, i: int)
    requires
        0 <= i <= d.len(),
        all_digits(d),
    ensures
        digits_value(d.take(i)) <= digits_value(d),
        digits_value(d.take(i)) >= 0,
    decreases d.len() - i,
{
    if i < d.len() {
        lemma_digits_value_monotone(d, i + 1);
        assert(d.take(i + 1).drop_last() =~= d.take(i));
        lemma_digits_value_nonneg(d.take(i));
    } else {
        assert(d.take(i) =~= d);
        lemma_digits_value_nonneg(d);
    }
}

proof fn lemma_digits_value_nonneg(d: Seq<char>)
    requires
        all_digits(d),
    ensures
        digits_value(d) >= 0,
    decreases d.len(),
{
    if d.len() > 0 {
        lemma_digits_value_nonneg(d.drop_last());
    }
}

/// Reads an unsigned decimal number the way `str::parse::<usize>` does.
pub fn parse_usize(s: &str) -> (r: Option<usize>)
    ensures
        r == parsed_usize(s@),
{
    let v = chars_of(s);
    let start: usize = if v.len() > 0 && v[0] == '+' { 1 } else { 0 };
    let ghost d = if s@.len() > 0 && s@[0] == '+' {
        s@.drop_first()
    } else {
        s@
    };
    assert(d =~= v@.skip(start as int));
    if start >= v.len() {
        return None;
    }
    let mut value: usize = 0;
    let mut i: usize = start;
    while i < v.len()
        invariant
            v@ == s@,
            start <= i <= v.len(),
            d =~= v@.skip(start as int),
            d == (if s@.len() > 0 && s@[0] == '+' {
                s@.drop_first()
            } else {
                s@
            }),
            all_digits(d.take(i - start)),
            value as int == digits_value(d.take(i - start)),
        decreases v.len() - i,
    {
        let c = v[i];
        assert(d.take(i - start + 1).drop_last() =~= d.take(i - start));
        assert(d[i - start] == c);
        if !('0' <= c && c <= '9') {
            assert(!all_digits(d));
            assert(parsed_usize(s@) is None);
            return None;
        }
        let digit = (c as u32 - '0' as u32) as usize;
        match value.checked_mul(10) {
            Some(m) => match m.checked_add(digit) {
                Some(n) => {
                    value = n;
                },
                None => {
                    proof {
                        assert(d.take(i - start + 1).last() == c);
                        assert(digits_value(d.take(i - start + 1)) == value * 10 + digit);
                        if all_digits(d) {
                            lemma_digits_value_monotone(d, i - start + 1);
                        }
                        assert(parsed_usize(s@) is None);
                    }
                    return None;
                },
            },
            None => {
                proof {
                    if all_digits(d) {
                        lemma_digits_value_monotone(d, i - start + 1);
                        lemma_digits_value_nonneg(d.take(i - start + 1).drop_last());
                    }
                }
                return None;
            },
        }
        assert(all_digits(d.take(i - start + 1)));
        i = i + 1;
    }
    assert(d.take(i - start) =~= d);
    Some(value)
}

/// The first position below `n` where `p` holds, if any.
pub open spec fn first_where(n: int, p: spec_fn(int) -> bool) -> Option<int> {
    if exists|i: int| 0 <= i < n && #[trigger] p(i) {
        Some(choose|i: int| 0 <= i < n && #[trigger] p(i) && forall|j: int| 0 <= j < i ==> !#[trigger] p(j))
    } else {
        None
    }
}

/// A position found by scanning from the start is the first one.
pub proof fn lemma_first_where(n: int, p: spec_fn(int) -> bool, i: int)
    requires
        0 <= i < n,
        p(i),
        forall|j: int| 0 <= j < i ==> !#[trigger] p(j),
    ensures
        first_where(n, p) == Some(i),
{
    let c = choose|c: int| 0 <= c < n && #[trigger] p(c) && forall|j: int| 0 <= j < c ==> !#[trigger] p(j);
    assert(0 <= i < n && p(i) && forall|j: int| 0 <= j < i ==> !#[trigger] p(j));
    if c < i {
    } else if c > i {
    }
}


/// Whether `a` lies strictly after `b`.
pub fn is_later(a: Timestamp, b: Timestamp) -> (r: bool)
    ensures
        r == (instant(a) > instant(b)),
{
    (a.secs as i128) * 1_000_000_000 + (a.nanos as i128) > (b.secs as i128) * 1_000_000_000 + (b.nanos as i128)
}

/// How many positions below `n` satisfy `p`.
pub open spec fn count_where(n: int, p: spec_fn(int) -> bool) -> nat
    decreases n,
{
    if n <= 0 {
        0
    } else {
        count_where(n - 1, p) + if p(n - 1) {
            1nat
        } else {
            0nat
        }
    }
}

/// At most `n` positions below `n` satisfy anything.
pub proof fn lemma_count_where_bound(n: int, p: spec_fn(int) -> bool)
    requires
        n >= 0,
    ensures
        count_where(n, p) <= n,
    decreases n,
{
    if n > 0 {
        lemma_count_where_bound(n - 1, p);
    }
}

/// The position as a mathematical integer.
pub open spec fn pos_view(o: Option<usize>) -> Option<int> {
    match o {
        Some(i) => Some(i as int),
        None => None,
    }
}


/// A weaker condition holds at no fewer positions.
pub proof fn lemma_count_where_mono(n: int, p: spec_fn(int) -> bool, q: spec_fn(int) -> bool)
    requires
        forall|i: int| 0 <= i < n && #[trigger] q(i) ==> p(i),
    ensures
        count_where(n, q) <= count_where(n, p),
    decreases n,
{
    if n > 0 {
        lemma_count_where_mono(n - 1, p, q);
    }
}

/// A condition that fails somewhere the weaker one holds holds at fewer
/// positions.
pub proof fn lemma_count_where_drops(n: int, p: spec_fn(int) -> bool, q: spec_fn(int) -> bool, w: int)
    requires
        0 <= w < n,
        forall|i: int| 0 <= i < n && #[trigger] q(i) ==> p(i),
        p(w),
        !q(w),
    ensures
        count_where(n, q) < count_where(n, p),
    decreases n,
{
    if w < n - 1 {
        lemma_count_where_drops(n - 1, p, q, w);
    } else {
        lemma_count_where_mono(n - 1, p, q);
    }
}

/// The last of the first `n` identifiers equal to `t` (when lookups go
/// through a map built from a list, a later entry with the same identifier
/// takes the place of an earlier one).
pub open spec fn last_with(ids: Seq<Seq<char>>, n: int, t: Seq<char>) -> Option<int>
    decreases n,
{
    if n <= 0 {
        None
    } else if ids[n - 1] == t {
        Some(n - 1)
    } else {
        last_with(ids, n - 1, t)
    }
}

/// The identifiers, each taken by its view.
pub open spec fn ids_view(ids: Seq<String>) -> Seq<Seq<char>> {
    ids.map_values(|s: String| s@)
}

/// The position of the last identifier equal to `t`.
pub fn last_position(ids: &Vec<String>, t: &str) -> (r: Option<usize>)
    ensures
        pos_view(r) == last_with(ids_view(ids@), ids.len() as int, t@),
        r matches Some(i) ==> i < ids.len(),
{
    let ghost v = ids_view(ids@);
    let mut found: Option<usize> = None;
    let mut i: usize = 0;
    while i < ids.len()
        invariant
            v == ids_view(ids@),
            i <= ids.len(),
            pos_view(found) == last_with(v, i as int, t@),
            found matches Some(x) ==> x < i,
        decreases ids.len() - i,
    {
        assert(v[i as int] == ids@[i as int]@);
        if str_eq(ids[i].as_str(), t) {
            found = Some(i);
        }
        i = i + 1;
    }
    found
}


/// Whether one of the identifiers equals `t`.
pub fn holds_id(ids: &Vec<String>, t: &str) -> (r: bool)
    ensures
        r == ids_view(ids@).contains(t@),
{
    let ghost v = ids_view(ids@);
    let mut i: usize = 0;
    while i < ids.len()
        invariant
            v == ids_view(ids@),
            i <= ids.len(),
            forall|j: int| 0 <= j < i ==> v[j] != t@,
        decreases ids.len() - i,
    {
        assert(v[i as int] == ids@[i as int]@);
        if str_eq(ids[i].as_str(), t) {
            return true;
        }
        i = i + 1;
    }
    false
}


/// `t` lies no more than `days` days before `now` (or after it).
pub open spec fn within_days(t: Timestamp, now: Timestamp, days: u32) -> bool {
    instant(t) >= instant(now) - days * 86_400_000_000_000
}

/// Whether `t` lies within the `days` days before `now` (or after it).
pub fn is_within_days(t: Timestamp, now: Timestamp, days: u32) -> (r: bool)
    ensures
        r == within_days(t, now, days),
{
    let a = (t.secs as i128) * 1_000_000_000 + (t.nanos as i128);
    let b = (now.secs as i128) * 1_000_000_000 + (now.nanos as i128) - (days as i128) * 86_400_000_000_000;
    a >= b
}

/// The first identifier that is the query or starts with it.
pub open spec fn id_query_match(ids: Seq<Seq<char>>, q: Seq<char>) -> Option<int> {
    first_where(ids.len() as int, |i: int| ids[i] == q || crate::text::text_starts_with(ids[i], q))
}

/// Finds the first identifier that is the query or starts with it.
pub fn first_id_match(ids: &Vec<String>, q: &str) -> (r: Option<usize>)
    ensures
        pos_view(r) == id_query_match(ids_view(ids@), q@),
        r matches Some(i) ==> i < ids.len(),
{
    let ghost v = ids_view(ids@);
    let ghost p = |i: int| v[i] == q@ || crate::text::text_starts_with(v[i], q@);
    let mut i: usize = 0;
    while i < ids.len()
        invariant
            v == ids_view(ids@),
            p == (|i: int| v[i] == q@ || crate::text::text_starts_with(v[i], q@)),
            i <= ids.len(),
            forall|j: int| 0 <= j < i ==> !#[trigger] p(j),
        decreases ids.len() - i,
    {
        assert(v[i as int] == ids@[i as int]@);
        if str_eq(ids[i].as_str(), q) || crate::text::str_starts_with(ids[i].as_str(), q) {
            proof {
                lemma_first_where(ids.len() as int, p, i as int);
            }
            return Some(i);
        }
        i = i + 1;
    }
    None
}


/// The first file name that holds the identifier (or starts with it).
pub open spec fn stem_match(stems: Seq<Seq<char>>, id: Seq<char>) -> Option<int> {
    first_where(stems.len() as int, |i: int| crate::text::text_contains(stems[i], id) || crate::text::text_starts_with(stems[i], id))
}

/// Finds the first file name that holds the identifier (or starts with it).
pub fn first_stem_match(stems: &Vec<String>, id: &str) -> (r: Option<usize>)
    ensures
        pos_view(r) == stem_match(ids_view(stems@), id@),
        r matches Some(i) ==> i < stems.len(),
{
    let ghost v = ids_view(stems@);
    let ghost p = |i: int| crate::text::text_contains(v[i], id@) || crate::text::text_starts_with(v[i], id@);
    let mut i: usize = 0;
    while i < stems.len()
        invariant
            v == ids_view(stems@),
            p == (|i: int| crate::text::text_contains(v[i], id@) || crate::text::text_starts_with(v[i], id@)),
            i <= stems.len(),
            forall|j: int| 0 <= j < i ==> !#[trigger] p(j),
        decreases stems.len() - i,
    {
        assert(v[i as int] == stems@[i as int]@);
        if crate::text::str_contains(stems[i].as_str(), id) || crate::text::str_starts_with(stems[i].as_str(), id) {
            proof {
                lemma_first_where(stems.len() as int, p, i as int);
            }
            return Some(i);
        }
        i = i + 1;
    }
    None
}

} // verus!
