//! Text primitives shared by the command logic: character views of strings,
//! byte-length arithmetic over UTF-8, substring search and case folding.

use vstd::prelude::*;
use vstd::utf8::*;

verus! {

broadcast use vstd::utf8::encode_utf8_decode_utf8;

/// Number of bytes in the UTF-8 encoding of `s` (what `str::len` reports).
pub open spec fn byte_len(s: Seq<char>) -> int {
    encode_utf8(s).len() as int
}

/// The text whose UTF-8 encoding is the first `k` bytes of the encoding of `s`.
pub open spec fn byte_prefix(s: Seq<char>, k: int) -> Seq<char> {
    decode_utf8(encode_utf8(s).take(k))
}

/// Byte offset `k` falls between two characters of `s`.
pub open spec fn is_byte_boundary(s: Seq<char>, k: int) -> bool {
    is_char_boundary(encode_utf8(s), k)
}

/// The three-dot marker appended to shortened text.
pub open spec fn ellipsis() -> Seq<char> {
    seq!['.', '.', '.']
}

/// `p` occurs in `s` starting at position `i`.
pub open spec fn occurs_at(s: Seq<char>, p: Seq<char>, i: int) -> bool {
    0 <= i && i + p.len() <= s.len() && s.subrange(i, i + p.len()) == p
}

/// `p` occurs somewhere in `s` (the empty text occurs everywhere).
pub open spec fn text_contains(s: Seq<char>, p: Seq<char>) -> bool {
    exists|i: int| occurs_at(s, p, i)
}

/// `p` is a prefix of `s`.
pub open spec fn text_starts_with(s: Seq<char>, p: Seq<char>) -> bool {
    p.len() <= s.len() && s.take(p.len() as int) == p
}

/// Lower-case form of a text, as `str::to_lowercase` computes it.
pub uninterp spec fn lowercase(s: Seq<char>) -> Seq<char>;

/// Upper-case form of a text, as `str::to_uppercase` computes it.
pub uninterp spec fn uppercase(s: Seq<char>) -> Seq<char>;

/// Case-insensitive containment as the list filters use it.
pub open spec fn contains_ignoring_case(s: Seq<char>, p: Seq<char>) -> bool {
    text_contains(lowercase(s), lowercase(p))
}

/// Calls `str::to_lowercase`; the result is named `lowercase` of the input.
#[verifier::external_body]
pub(crate) fn to_lowercase(s: &str) -> (r: String)
    ensures
        r@ == lowercase(s@),
{
    s.to_lowercase()
}

/// Every character is an ASCII capital letter (true of the empty text).
pub open spec fn all_capitals(s: Seq<char>) -> bool {
    forall|i: int| 0 <= i < s.len() ==> 'A' <= #[trigger] s[i] <= 'Z'
}

/// Calls `str::to_uppercase`; the result is named `uppercase` of the input.
/// A text of ASCII capitals is its own upper-case form.
#[verifier::external_body]
pub(crate) fn to_uppercase(s: &str) -> (r: String)
    ensures
        r@ == uppercase(s@),
        all_capitals(s@) ==> r@ == s@,
{
    s.to_uppercase()
}

/// Calls `String::push`, which appends one character.
#[verifier::external_body]
pub(crate) fn push_char(s: &mut String, c: char)
    ensures
        final(s)@ == old(s)@.push(c),
{
    s.push(c);
}

/// Number of bytes of `s`.
pub fn byte_length(s: &str) -> (r: usize)
    ensures
        r == byte_len(s@),
{
    s.as_bytes().len()
}

/// The characters of `s`, in order.
pub fn chars_of(s: &str) -> (r: Vec<char>)
    ensures
        r@ == s@,
{
    let mut r: Vec<char> = Vec::new();
    for c in it: s.chars()
        invariant
            r@ == it.seq().take(it.index() as int),
    {
        r.push(c);
    }
    r
}

/// Builds a `String` from the first `n` characters of `v`.
pub fn string_from_prefix(v: &[char], n: usize) -> (r: String)
    requires
        n <= v.len(),
    ensures
        r@ == v@.take(n as int),
{
    let mut r = String::new();
    let mut i: usize = 0;
    while i < n
        invariant
            n <= v.len(),
            i <= n,
            r@ == v@.take(i as int),
        decreases n - i,
    {
        push_char(&mut r, v[i]);
        assert(v@.take(i as int + 1) == v@.take(i as int).push(v@[i as int]));
        i = i + 1;
    }
    r
}

/// Builds a `String` from a slice of characters.
pub fn string_from_chars(v: &[char]) -> (r: String)
    ensures
        r@ == v@,
{
    let r = string_from_prefix(v, v.len());
    assert(v@.take(v.len() as int) =~= v@);
    r
}

/// Character-wise equality of two texts.
pub fn str_eq(a: &str, b: &str) -> (r: bool)
    ensures
        r == (a@ == b@),
{
    let x = chars_of(a);
    let y = chars_of(b);
    chars_eq(&x, &y)
}

/// Equality of two character sequences.
pub fn chars_eq(x: &[char], y: &[char]) -> (r: bool)
    ensures
        r == (x@ == y@),
{
    if x.len() != y.len() {
        return false;
    }
    let mut i: usize = 0;
    while i < x.len()
        invariant
            x.len() == y.len(),
            i <= x.len(),
            forall|j: int| 0 <= j < i ==> x@[j] == y@[j],
        decreases x.len() - i,
    {
        if x[i] != y[i] {
            return false;
        }
        i = i + 1;
    }
    assert(x@ =~= y@);
    true
}

/// Whether `p` occurs in `s` at position `i`.
fn occurs_at_exec(s: &[char], p: &[char], i: usize) -> (r: bool)
    ensures
        r == occurs_at(s@, p@, i as int),
{
    if i > s.len() || p.len() > s.len() - i {
        return false;
    }
    let mut j: usize = 0;
    while j < p.len()
        invariant
            i + p.len() <= s.len(),
            j <= p.len(),
            forall|k: int| 0 <= k < j ==> s@[i + k] == p@[k],
        decreases p.len() - j,
    {
        if s[i + j] != p[j] {
            assert(s@.subrange(i as int, i + p.len())[j as int] != p@[j as int]);
            return false;
        }
        j = j + 1;
    }
    assert(s@.subrange(i as int, i + p.len()) =~= p@);
    true
}

/// Whether `p` occurs anywhere in `s`.
pub fn chars_contain(s: &[char], p: &[char]) -> (r: bool)
    ensures
        r == text_contains(s@, p@),
{
    if p.len() == 0 {
        assert(s@.subrange(0, 0) =~= p@);
        assert(occurs_at(s@, p@, 0));
        return true;
    }
    let mut i: usize = 0;
    while i < s.len()
        invariant
            i <= s.len(),
            p.len() > 0,
            forall|k: int| 0 <= k < i ==> !occurs_at(s@, p@, k),
        decreases s.len() - i,
    {
        if occurs_at_exec(s, p, i) {
            return true;
        }
        i = i + 1;
    }
    assert forall|k: int| !occurs_at(s@, p@, k) by {
        if 0 <= k && k < i {
        }
    }
    false
}

/// Whether `p` occurs anywhere in `s`.
pub fn str_contains(s: &str, p: &str) -> (r: bool)
    ensures
        r == text_contains(s@, p@),
{
    let x = chars_of(s);
    let y = chars_of(p);
    chars_contain(&x, &y)
}

/// Whether `p` is a prefix of `s`.
pub fn str_starts_with(s: &str, p: &str) -> (r: bool)
    ensures
        r == text_starts_with(s@, p@),
{
    let x = chars_of(s);
    let y = chars_of(p);
    if y.len() > x.len() {
        return false;
    }
    let mut j: usize = 0;
    while j < y.len()
        invariant
            x@ == s@,
            y@ == p@,
            y.len() <= x.len(),
            j <= y.len(),
            forall|k: int| 0 <= k < j ==> x@[k] == y@[k],
        decreases y.len() - j,
    {
        if x[j] != y[j] {
            assert(x@.take(y.len() as int)[j as int] != y@[j as int]);
            assert(x@.take(y.len() as int) != y@);
            return false;
        }
        j = j + 1;
    }
    assert(x@.take(y.len() as int) =~= y@);
    true
}

/// Case-insensitive containment: lower-cases both texts, then searches.
pub fn contains_ignore_case(s: &str, p: &str) -> (r: bool)
    ensures
        r == contains_ignoring_case(s@, p@),
{
    let a = to_lowercase(s);
    let b = to_lowercase(p);
    str_contains(a.as_str(), b.as_str())
}

/// The first `k` bytes of `s` followed by `...`.
pub fn prefix_with_ellipsis(s: &str, k: usize) -> (r: String)
    requires
        k <= byte_len(s@),
        is_byte_boundary(s@, k as int),
    ensures
        r@ == byte_prefix(s@, k as int) + ellipsis(),
{
    let (a, _b) = s.split_at(k);
    assert(encode_utf8(a@) =~= encode_utf8(s@).take(k as int));
    let mut r = a.to_owned();
    proof {
        reveal_strlit("...");
    }
    r.append("...");
    r
}


/// The character has the Unicode `White_Space` property, which is what
/// `char::is_whitespace` tests and what `str::trim` removes.
pub open spec fn is_white_space(c: char) -> bool {
    ||| ('\u{9}' <= c && c <= '\u{d}')
    ||| c == ' '
    ||| c == '\u{85}'
    ||| c == '\u{a0}'
    ||| c == '\u{1680}'
    ||| ('\u{2000}' <= c && c <= '\u{200a}')
    ||| c == '\u{2028}'
    ||| c == '\u{2029}'
    ||| c == '\u{202f}'
    ||| c == '\u{205f}'
    ||| c == '\u{3000}'
}

/// Whether the character is white space.
pub fn white_space(c: char) -> (r: bool)
    ensures
        r == is_white_space(c),
{
    ('\u{9}' <= c && c <= '\u{d}') || c == ' ' || c == '\u{85}' || c == '\u{a0}' || c == '\u{1680}'
        || ('\u{2000}' <= c && c <= '\u{200a}') || c == '\u{2028}' || c == '\u{2029}' || c == '\u{202f}'
        || c == '\u{205f}' || c == '\u{3000}'
}

/// The text without its leading white space.
pub open spec fn trim_front(s: Seq<char>) -> Seq<char>
    decreases s.len(),
{
    if s.len() > 0 && is_white_space(s[0]) {
        trim_front(s.drop_first())
    } else {
        s
    }
}

/// The text without its trailing white space.
pub open spec fn trim_back(s: Seq<char>) -> Seq<char>
    decreases s.len(),
{
    if s.len() > 0 && is_white_space(s.last()) {
        trim_back(s.drop_last())
    } else {
        s
    }
}

/// The text without leading and trailing white space, as `str::trim` gives it.
pub open spec fn trimmed(s: Seq<char>) -> Seq<char> {
    trim_back(trim_front(s))
}

/// The text without leading and trailing white space.
pub fn trim_text(s: &str) -> (r: String)
    ensures
        r@ == trimmed(s@),
{
    let v = chars_of(s);
    let n = v.len();
    let mut i: usize = 0;
    assert(v@.skip(0) =~= v@);
    while i < n && white_space(v[i])
        invariant
            v@ == s@,
            n == v.len(),
            i <= n,
            trim_front(v@.skip(i as int)) == trim_front(v@),
        decreases n - i,
    {
        assert(v@.skip(i as int).drop_first() =~= v@.skip(i as int + 1));
        i = i + 1;
    }
    assert(trim_front(v@.skip(i as int)) == v@.skip(i as int));
    let mut j: usize = n;
    while j > i && white_space(v[j - 1])
        invariant
            v@ == s@,
            n == v.len(),
            i <= j <= n,
            trim_back(v@.subrange(i as int, j as int)) == trim_back(v@.subrange(i as int, n as int)),
        decreases j,
    {
        assert(v@.subrange(i as int, j as int).drop_last() =~= v@.subrange(i as int, j as int - 1));
        j = j - 1;
    }
    assert(v@.skip(i as int) =~= v@.subrange(i as int, n as int));
    let mut r = String::new();
    let mut k: usize = i;
    while k < j
        invariant
            i <= k <= j <= n,
            n == v.len(),
            r@ == v@.subrange(i as int, k as int),
        decreases j - k,
    {
        push_char(&mut r, v[k]);
        assert(v@.subrange(i as int, k as int + 1) =~= v@.subrange(i as int, k as int).push(v@[k as int]));
        k = k + 1;
    }
    r
}

/// The text `a` followed by the text `b`.
pub fn concat_texts(a: &str, b: &str) -> (r: String)
    ensures
        r@ == a@ + b@,
{
    let mut r = string_from_chars(chars_of(a).as_slice());
    append_text(&mut r, b);
    r
}

/// Every occurrence of `from` replaced by `to`, scanning left to right over
/// occurrences that do not overlap, as `str::replace` does (for a non-empty
/// `from`).
pub open spec fn replaced(s: Seq<char>, from: Seq<char>, to: Seq<char>) -> Seq<char>
    decreases s.len(),
{
    if from.len() == 0 || s.len() == 0 {
        s
    } else if s.len() >= from.len() && s.take(from.len() as int) == from {
        to + replaced(s.skip(from.len() as int), from, to)
    } else {
        seq![s[0]] + replaced(s.skip(1), from, to)
    }
}

/// The first occurrence of `from` replaced by `to`, as `str::replacen` with
/// a count of one does (for a non-empty `from`).
pub open spec fn replaced_first(s: Seq<char>, from: Seq<char>, to: Seq<char>) -> Seq<char>
    decreases s.len(),
{
    if from.len() == 0 || s.len() == 0 {
        s
    } else if s.len() >= from.len() && s.take(from.len() as int) == from {
        to + s.skip(from.len() as int)
    } else {
        seq![s[0]] + replaced_first(s.skip(1), from, to)
    }
}

/// Appends the characters of `w` to `r`.
fn push_all(r: &mut Vec<char>, w: &Vec<char>)
    ensures
        final(r)@ == old(r)@ + w@,
{
    let mut k: usize = 0;
    while k < w.len()
        invariant
            k <= w.len(),
            r@ == old(r)@ + w@.take(k as int),
        decreases w.len() - k,
    {
        r.push(w[k]);
        assert(w@.take(k as int + 1) =~= w@.take(k as int).push(w@[k as int]));
        k = k + 1;
    }
    assert(w@.take(w.len() as int) =~= w@);
}

/// Replaces every occurrence of `from` in `s` by `to`.
pub fn replace_all(s: &str, from: &str, to: &str) -> (r: String)
    requires
        from@.len() > 0,
    ensures
        r@ == replaced(s@, from@, to@),
{
    let v = chars_of(s);
    let f = chars_of(from);
    let t = chars_of(to);
    let n = v.len();
    let m = f.len();
    let mut out: Vec<char> = Vec::new();
    let mut i: usize = 0;
    assert(v@.skip(0) =~= v@);
    while i < n
        invariant
            v@ == s@,
            f@ == from@,
            t@ == to@,
            n == v.len(),
            m == f.len(),
            m > 0,
            i <= n,
            out@ + replaced(v@.skip(i as int), f@, t@) == replaced(v@, f@, t@),
        decreases n - i,
    {
        let ghost rest = v@.skip(i as int);
        if m <= n - i && occurs_at_exec(v.as_slice(), f.as_slice(), i) {
            assert(rest.take(m as int) =~= v@.subrange(i as int, i + m));
            assert(rest.skip(m as int) =~= v@.skip(i as int + m));
            push_all(&mut out, &t);
            assert(out@ + replaced(v@.skip(i as int + m), f@, t@) =~= replaced(v@, f@, t@));
            i = i + m;
        } else {
            assert(rest.len() >= m ==> rest.take(m as int) != f@) by {
                if rest.len() >= m {
                    assert(rest.take(m as int) =~= v@.subrange(i as int, i + m));
                }
            }
            assert(rest.skip(1) =~= v@.skip(i as int + 1));
            out.push(v[i]);
            assert(out@ + replaced(v@.skip(i as int + 1), f@, t@) =~= replaced(v@, f@, t@));
            i = i + 1;
        }
    }
    assert(v@.skip(n as int) =~= Seq::<char>::empty());
    assert(out@ =~= replaced(v@, f@, t@));
    string_from_chars(out.as_slice())
}

/// Replaces the first occurrence of `from` in `s` by `to`.
pub fn replace_first(s: &str, from: &str, to: &str) -> (r: String)
    requires
        from@.len() > 0,
    ensures
        r@ == replaced_first(s@, from@, to@),
{
    let v = chars_of(s);
    let f = chars_of(from);
    let t = chars_of(to);
    let n = v.len();
    let m = f.len();
    let mut out: Vec<char> = Vec::new();
    let mut i: usize = 0;
    assert(v@.skip(0) =~= v@);
    while i < n
        invariant
            v@ == s@,
            f@ == from@,
            t@ == to@,
            n == v.len(),
            m == f.len(),
            m > 0,
            i <= n,
            out@ + replaced_first(v@.skip(i as int), f@, t@) == replaced_first(v@, f@, t@),
        decreases n - i,
    {
        let ghost rest = v@.skip(i as int);
        if m <= n - i && occurs_at_exec(v.as_slice(), f.as_slice(), i) {
            assert(rest.take(m as int) =~= v@.subrange(i as int, i + m));
            let ghost pre = out@;
            push_all(&mut out, &t);
            let mut k: usize = i + m;
            while k < n
                invariant
                    i + m <= k <= n,
                    n == v.len(),
                    out@ == pre + t@ + v@.subrange(i + m, k as int),
                decreases n - k,
            {
                out.push(v[k]);
                assert(v@.subrange(i + m, k as int + 1) =~= v@.subrange(i + m, k as int).push(v@[k as int]));
                k = k + 1;
            }
            assert(v@.subrange(i + m, n as int) =~= rest.skip(m as int));
            assert(out@ =~= replaced_first(v@, f@, t@));
            return string_from_chars(out.as_slice());
        } else {
            assert(rest.len() >= m ==> rest.take(m as int) != f@) by {
                if rest.len() >= m {
                    assert(rest.take(m as int) =~= v@.subrange(i as int, i + m));
                }
            }
            assert(rest.skip(1) =~= v@.skip(i as int + 1));
            out.push(v[i]);
            assert(out@ + replaced_first(v@.skip(i as int + 1), f@, t@) =~= replaced_first(v@, f@, t@));
            i = i + 1;
        }
    }
    assert(v@.skip(n as int) =~= Seq::<char>::empty());
    assert(out@ =~= replaced_first(v@, f@, t@));
    string_from_chars(out.as_slice())
}


/// The pieces of a text between the occurrences of `sep`, as
/// `str::split(sep)` gives them (the empty text is one empty piece).
pub open spec fn pieces(s: Seq<char>, sep: char) -> Seq<Seq<char>>
    decreases s.len(),
{
    if s.len() == 0 {
        seq![Seq::<char>::empty()]
    } else {
        let p = pieces(s.drop_last(), sep);
        if s.last() == sep {
            p.push(Seq::<char>::empty())
        } else {
            p.update(p.len() - 1, p.last().push(s.last()))
        }
    }
}

/// The pieces of a text between commas, as `str::split(',')` gives them.
pub open spec fn comma_pieces(s: Seq<char>) -> Seq<Seq<char>> {
    pieces(s, ',')
}

/// There is always at least one piece.
pub proof fn lemma_pieces_nonempty(s: Seq<char>, sep: char)
    ensures
        pieces(s, sep).len() >= 1,
    decreases s.len(),
{
    if s.len() > 0 {
        lemma_pieces_nonempty(s.drop_last(), sep);
    }
}

/// There is always at least one piece between commas.
pub proof fn lemma_comma_pieces_nonempty(s: Seq<char>)
    ensures
        comma_pieces(s).len() >= 1,
{
    lemma_pieces_nonempty(s, ',');
}

/// Splits a text at each occurrence of `sep`.
pub fn split_text(s: &str, sep: char) -> (r: Vec<String>)
    ensures
        r@.map_values(|x: String| x@) == pieces(s@, sep),
{
    let v = chars_of(s);
    let mut done: Vec<String> = Vec::new();
    let mut cur: Vec<char> = Vec::new();
    let mut i: usize = 0;
    assert(v@.take(0) =~= Seq::<char>::empty());
    while i < v.len()
        invariant
            v@ == s@,
            i <= v.len(),
            done@.map_values(|x: String| x@).push(cur@) == pieces(v@.take(i as int), sep),
        decreases v.len() - i,
    {
        let ghost before = done@.map_values(|x: String| x@).push(cur@);
        assert(v@.take(i as int + 1).drop_last() =~= v@.take(i as int));
        assert(v@.take(i as int + 1).last() == v@[i as int]);
        if v[i] == sep {
            let piece = string_from_chars(cur.as_slice());
            done.push(piece);
            cur = Vec::new();
            assert(done@.map_values(|x: String| x@).push(cur@) =~= before.push(Seq::<char>::empty()));
        } else {
            cur.push(v[i]);
            assert(done@.map_values(|x: String| x@).push(cur@) =~= before.update(before.len() - 1, before.last().push(v@[i as int])));
        }
        i = i + 1;
    }
    let last = string_from_chars(cur.as_slice());
    let ghost before = done@.map_values(|x: String| x@);
    done.push(last);
    assert(done@.map_values(|x: String| x@) =~= before.push(cur@));
    assert(v@.take(v.len() as int) =~= v@);
    done
}

/// Splits a text at its commas.
pub fn split_commas(s: &str) -> (r: Vec<String>)
    ensures
        r@.map_values(|x: String| x@) == comma_pieces(s@),
{
    split_text(s, ',')
}


/// The parts written one after another with `sep` between neighbours, as
/// `join` gives them.
pub open spec fn joined(parts: Seq<Seq<char>>, sep: Seq<char>) -> Seq<char>
    decreases parts.len(),
{
    if parts.len() == 0 {
        Seq::empty()
    } else if parts.len() == 1 {
        parts[0]
    } else {
        joined(parts.drop_last(), sep) + sep + parts.last()
    }
}

/// Appends the characters of `w` to the text `r`.
pub fn append_text(r: &mut String, w: &str)
    ensures
        final(r)@ == old(r)@ + w@,
{
    let v = chars_of(w);
    let mut k: usize = 0;
    while k < v.len()
        invariant
            v@ == w@,
            k <= v.len(),
            r@ == old(r)@ + v@.take(k as int),
        decreases v.len() - k,
    {
        push_char(r, v[k]);
        assert(v@.take(k as int + 1) =~= v@.take(k as int).push(v@[k as int]));
        k = k + 1;
    }
    assert(v@.take(v.len() as int) =~= v@);
}

/// Writes the parts one after another with `sep` between neighbours.
pub fn join_texts(parts: &Vec<&str>, sep: &str) -> (r: String)
    ensures
        r@ == joined(parts@.map_values(|s: &str| s@), sep@),
{
    let ghost pv = parts@.map_values(|s: &str| s@);
    let mut r = String::new();
    let mut i: usize = 0;
    assert(pv.take(0) =~= Seq::<Seq<char>>::empty());
    while i < parts.len()
        invariant
            pv == parts@.map_values(|s: &str| s@),
            i <= parts.len(),
            r@ == joined(pv.take(i as int), sep@),
        decreases parts.len() - i,
    {
        assert(pv.take(i as int + 1).drop_last() =~= pv.take(i as int));
        assert(pv.take(i as int + 1).last() == parts@[i as int]@);
        if i > 0 {
            append_text(&mut r, sep);
        } else {
            assert(r@ =~= Seq::<char>::empty());
        }
        append_text(&mut r, parts[i]);
        i = i + 1;
    }
    assert(pv.take(parts.len() as int) =~= pv);
    r
}


/// Writes the texts one after another with `sep` between neighbours.
pub fn join_strings(parts: &Vec<String>, sep: &str) -> (r: String)
    ensures
        r@ == joined(parts@.map_values(|s: String| s@), sep@),
{
    let ghost pv = parts@.map_values(|s: String| s@);
    let mut r = String::new();
    let mut i: usize = 0;
    assert(pv.take(0) =~= Seq::<Seq<char>>::empty());
    while i < parts.len()
        invariant
            pv == parts@.map_values(|s: String| s@),
            i <= parts.len(),
            r@ == joined(pv.take(i as int), sep@),
        decreases parts.len() - i,
    {
        assert(pv.take(i as int + 1).drop_last() =~= pv.take(i as int));
        assert(pv.take(i as int + 1).last() == parts@[i as int]@);
        if i > 0 {
            append_text(&mut r, sep);
        } else {
            assert(r@ =~= Seq::<char>::empty());
        }
        append_text(&mut r, parts[i].as_str());
        i = i + 1;
    }
    assert(pv.take(parts.len() as int) =~= pv);
    r
}

/// Whether the text has no characters.
pub fn is_empty_text(s: &str) -> (r: bool)
    ensures
        r == (s@.len() == 0),
{
    chars_of(s).len() == 0
}


/// The decimal digits of a number, most significant first.
pub open spec fn decimal(n: nat) -> Seq<char>
    decreases n,
{
    if n < 10 {
        seq![digit_char(n)]
    } else {
        decimal(n / 10) + seq![digit_char(n % 10)]
    }
}

/// The character of a decimal digit.
pub open spec fn digit_char(d: nat) -> char {
    if d == 0 {
        '0'
    } else if d == 1 {
        '1'
    } else if d == 2 {
        '2'
    } else if d == 3 {
        '3'
    } else if d == 4 {
        '4'
    } else if d == 5 {
        '5'
    } else if d == 6 {
        '6'
    } else if d == 7 {
        '7'
    } else if d == 8 {
        '8'
    } else {
        '9'
    }
}

/// The character of a decimal digit.
fn digit_of(d: usize) -> (c: char)
    requires
        d < 10,
    ensures
        c == digit_char(d as nat),
{
    if d == 0 {
        '0'
    } else if d == 1 {
        '1'
    } else if d == 2 {
        '2'
    } else if d == 3 {
        '3'
    } else if d == 4 {
        '4'
    } else if d == 5 {
        '5'
    } else if d == 6 {
        '6'
    } else if d == 7 {
        '7'
    } else if d == 8 {
        '8'
    } else {
        '9'
    }
}

/// Writes a number in decimal, as its `Display` form does.
pub fn decimal_text(n: usize) -> (r: String)
    ensures
        r@ == decimal(n as nat),
    decreases n,
{
    if n < 10 {
        let mut r = String::new();
        push_char(&mut r, digit_of(n));
        r
    } else {
        let mut r = decimal_text(n / 10);
        push_char(&mut r, digit_of(n % 10));
        r
    }
}


/// The characters before the first white space.
pub open spec fn word_prefix(s: Seq<char>) -> Seq<char>
    decreases s.len(),
{
    if s.len() == 0 || is_white_space(s[0]) {
        Seq::empty()
    } else {
        seq![s[0]] + word_prefix(s.drop_first())
    }
}

/// The first word of a text, as `split_whitespace().next()` gives it.
pub open spec fn first_word(s: Seq<char>) -> Option<Seq<char>> {
    if trim_front(s).len() == 0 {
        None
    } else {
        Some(word_prefix(trim_front(s)))
    }
}

/// The first word of a text, if it has one.
pub fn first_word_of(s: &str) -> (r: Option<String>)
    ensures
        crate::common::opt_view(r) == first_word(s@),
{
    let v = chars_of(s);
    let n = v.len();
    let mut i: usize = 0;
    assert(v@.skip(0) =~= v@);
    while i < n && white_space(v[i])
        invariant
            v@ == s@,
            n == v.len(),
            i <= n,
            trim_front(v@.skip(i as int)) == trim_front(v@),
        decreases n - i,
    {
        assert(v@.skip(i as int).drop_first() =~= v@.skip(i as int + 1));
        i = i + 1;
    }
    assert(trim_front(v@.skip(i as int)) == v@.skip(i as int));
    if i == n {
        assert(v@.skip(i as int).len() == 0);
        return None;
    }
    let mut j: usize = i;
    assert(v@.subrange(i as int, i as int) =~= Seq::<char>::empty());
    while j < n && !white_space(v[j])
        invariant
            v@ == s@,
            n == v.len(),
            i <= j <= n,
            word_prefix(v@.skip(i as int)) == v@.subrange(i as int, j as int) + word_prefix(v@.skip(j as int)),
        decreases n - j,
    {
        assert(v@.skip(j as int).drop_first() =~= v@.skip(j as int + 1));
        assert(v@.subrange(i as int, j as int + 1) =~= v@.subrange(i as int, j as int) + seq![v@[j as int]]);
        j = j + 1;
    }
    assert(word_prefix(v@.skip(j as int)) =~= Seq::<char>::empty());
    assert(v@.subrange(i as int, j as int) + Seq::<char>::empty() =~= v@.subrange(i as int, j as int));
    let mut r = String::new();
    let mut k: usize = i;
    while k < j
        invariant
            i <= k <= j <= n,
            n == v.len(),
            r@ == v@.subrange(i as int, k as int),
        decreases j - k,
    {
        push_char(&mut r, v[k]);
        assert(v@.subrange(i as int, k as int + 1) =~= v@.subrange(i as int, k as int).push(v@[k as int]));
        k = k + 1;
    }
    Some(r)
}



/// The text followed by spaces up to `width` characters, as a left-aligned
/// field of that width is written (`{:<width}`); longer texts are unchanged.
pub open spec fn padded(s: Seq<char>, width: int) -> Seq<char> {
    if s.len() < width {
        s + Seq::new((width - s.len()) as nat, |i: int| ' ')
    } else {
        s
    }
}

/// Writes the text left-aligned in a field of `width` characters.
pub fn pad_right(s: &str, width: usize) -> (r: String)
    ensures
        r@ == padded(s@, width as int),
{
    let mut r = s.to_owned();
    let n = chars_of(s).len();
    let mut k = n;
    while k < width
        invariant
            n == s@.len(),
            n <= k <= width || (k == n && n >= width),
            r@ == s@ + Seq::new((k - n) as nat, |i: int| ' '),
        decreases width - k,
    {
        push_char(&mut r, ' ');
        assert(r@ =~= s@ + Seq::new((k + 1 - n) as nat, |i: int| ' '));
        k = k + 1;
    }
    assert(n >= width ==> Seq::new((k - n) as nat, |i: int| ' ') =~= Seq::<char>::empty());
    assert(n >= width ==> r@ =~= s@);
    r
}

/// The text without one `\r` at its end, if it has one.
pub open spec fn without_cr(s: Seq<char>) -> Seq<char> {
    if s.len() > 0 && s.last() == '\r' {
        s.drop_last()
    } else {
        s
    }
}

/// The lines of `s[start..]`, the current line having begun at `start`
/// and been read up to `i`: each `\n` ends a line (a `\r` just before it is
/// dropped), and what follows the last `\n` is a line when it is not empty.
pub open spec fn lines_from(s: Seq<char>, start: int, i: int) -> Seq<Seq<char>>
    decreases s.len() - i,
{
    if i < start || i >= s.len() {
        if 0 <= start < s.len() {
            seq![s.subrange(start, s.len() as int)]
        } else {
            seq![]
        }
    } else if s[i] == '\n' {
        seq![without_cr(s.subrange(start, i))] + lines_from(s, i + 1, i + 1)
    } else {
        lines_from(s, start, i + 1)
    }
}

/// The lines of a text, as `str::lines` gives them.
pub open spec fn text_lines(s: Seq<char>) -> Seq<Seq<char>> {
    lines_from(s, 0, 0)
}

/// Builds a `String` from the characters `v[a..b]`.
fn string_from_range(v: &Vec<char>, a: usize, b: usize) -> (r: String)
    requires
        a <= b <= v.len(),
    ensures
        r@ == v@.subrange(a as int, b as int),
{
    let mut r = String::new();
    let mut i: usize = a;
    while i < b
        invariant
            a <= i <= b <= v.len(),
            r@ == v@.subrange(a as int, i as int),
        decreases b - i,
    {
        push_char(&mut r, v[i]);
        assert(v@.subrange(a as int, i as int + 1) =~= v@.subrange(a as int, i as int).push(v@[i as int]));
        i = i + 1;
    }
    r
}

/// The lines of a text, as `str::lines` gives them.
pub fn lines_of(s: &str) -> (r: Vec<String>)
    ensures
        r@.map_values(|x: String| x@) == text_lines(s@),
{
    let cs = chars_of(s);
    let mut out: Vec<String> = Vec::new();
    let mut start: usize = 0;
    let mut i: usize = 0;
    while i < cs.len()
        invariant
            cs@ == s@,
            start <= i <= cs.len(),
            out@.map_values(|x: String| x@) + lines_from(cs@, start as int, i as int) == text_lines(s@),
        decreases cs.len() - i,
    {
        if cs[i] == '\n' {
            let line = if i > start && cs[i - 1] == '\r' {
                string_from_range(&cs, start, i - 1)
            } else {
                string_from_range(&cs, start, i)
            };
            assert(line@ == without_cr(cs@.subrange(start as int, i as int)));
            let ghost before = out@.map_values(|x: String| x@);
            out.push(line);
            assert(out@.map_values(|x: String| x@) =~= before.push(line@));
            assert(before.push(line@) + lines_from(cs@, i as int + 1, i as int + 1) =~= before + (seq![line@] + lines_from(cs@, i as int + 1, i as int + 1)));
            start = i + 1;
        }
        i = i + 1;
    }
    if start < cs.len() {
        let last = string_from_range(&cs, start, cs.len());
        let ghost before = out@.map_values(|x: String| x@);
        out.push(last);
        assert(out@.map_values(|x: String| x@) =~= before.push(last@));
    }
    assert(out@.map_values(|x: String| x@) =~= text_lines(s@));
    out
}

/// The lines of a text, each indented by two spaces, joined by `\n`: the
/// body of a YAML block scalar.
pub open spec fn indented_lines(s: Seq<char>) -> Seq<char> {
    joined(text_lines(s).map_values(|l: Seq<char>| "  "@ + l), "\n"@)
}

/// Writes the lines of a text, each indented by two spaces, joined by `\n`.
pub fn indent_lines(s: &str) -> (r: String)
    ensures
        r@ == indented_lines(s@),
{
    let lines = lines_of(s);
    let ghost lv = lines@.map_values(|x: String| x@);
    let mut indented: Vec<String> = Vec::new();
    let mut i: usize = 0;
    while i < lines.len()
        invariant
            lv == lines@.map_values(|x: String| x@),
            i <= lines.len(),
            indented.len() == i,
            forall|j: int| 0 <= j < i ==> (#[trigger] indented@[j])@ == "  "@ + lv[j],
        decreases lines.len() - i,
    {
        indented.push(concat_texts("  ", lines[i].as_str()));
        i = i + 1;
    }
    let mut parts: Vec<&str> = Vec::new();
    let mut k: usize = 0;
    while k < indented.len()
        invariant
            k <= indented.len(),
            parts.len() == k,
            forall|j: int| 0 <= j < k ==> (#[trigger] parts@[j])@ == indented@[j]@,
        decreases indented.len() - k,
    {
        parts.push(indented[k].as_str());
        k = k + 1;
    }
    assert(parts@.map_values(|p: &str| p@) =~= lv.map_values(|l: Seq<char>| "  "@ + l));
    join_texts(&parts, "\n")
}
} // verus!
