//! Display helpers shared by the list and show commands: short identifiers,
//! width-limited text and CSV field quoting.

use vstd::prelude::*;
use vstd::utf8::{is_char_boundary_iff_not_is_continuation_byte, is_continuation_byte, decode_utf8_encode_utf8, encode_utf8, encode_utf8_decode_utf8, encode_utf8_valid_utf8, is_ascii_chars, is_ascii_chars_encode_utf8, valid_utf8_split};
use crate::text::{byte_len, byte_length, byte_prefix, chars_of, ellipsis, is_byte_boundary, prefix_with_ellipsis, push_char};

verus! {

/// An identifier as displayed in tables: identifiers longer than 16 bytes
/// keep their first 13 bytes followed by `...`.
pub open spec fn short_id_form(id: Seq<char>) -> Seq<char> {
    if byte_len(id) > 16 {
        byte_prefix(id, 13) + ellipsis()
    } else {
        id
    }
}

/// Width-limited text: text longer than `max_len` bytes keeps its first
/// `max_len - 3` bytes (0 when `max_len < 3`) followed by `...`.
pub open spec fn truncated_form(s: Seq<char>, max_len: int) -> Seq<char> {
    if byte_len(s) <= max_len {
        s
    } else {
        byte_prefix(s, if max_len >= 3 { max_len - 3 } else { 0 }) + ellipsis()
    }
}

/// Whether a CSV field needs quoting: it holds a comma, a double quote or a newline.
pub open spec fn needs_csv_quoting(s: Seq<char>) -> bool {
    s.contains(',') || s.contains('"') || s.contains('\n')
}

/// `s` with every double quote written twice.
pub open spec fn double_quotes(s: Seq<char>) -> Seq<char>
    decreases s.len(),
{
    if s.len() == 0 {
        seq![]
    } else {
        double_quotes(s.drop_last()) + if s.last() == '"' {
            seq!['"', '"']
        } else {
            seq![s.last()]
        }
    }
}

/// A CSV field: quoted, with inner quotes doubled, when it needs quoting.
pub open spec fn csv_field(s: Seq<char>) -> Seq<char> {
    if needs_csv_quoting(s) {
        seq!['"'] + double_quotes(s) + seq!['"']
    } else {
        s
    }
}

/// Formats an entity identifier for table display.
pub fn format_short_id(id: &str) -> (r: String)
    requires
        byte_len(id@) > 16 ==> is_byte_boundary(id@, 13),
    ensures
        r@ == short_id_form(id@),
{
    if byte_length(id) > 16 {
        prefix_with_ellipsis(id, 13)
    } else {
        id.to_owned()
    }
}

/// Shortens text to at most `max_len` bytes for table cells.
pub fn truncate_str(s: &str, max_len: usize) -> (r: String)
    requires
        byte_len(s@) > max_len ==> is_byte_boundary(s@, if max_len >= 3 { max_len - 3 } else { 0 }),
    ensures
        r@ == truncated_form(s@, max_len as int),
{
    if byte_length(s) <= max_len {
        s.to_owned()
    } else {
        let k = max_len.saturating_sub(3);
        prefix_with_ellipsis(s, k)
    }
}

/// Shortens text for import progress lines. A text too long for a
/// `max_len` below 3 has no shortened form (the cut would start before the
/// text), so callers never ask for one.
pub fn truncate(s: &str, max_len: usize) -> (r: String)
    requires
        byte_len(s@) > max_len ==> max_len >= 3 && is_byte_boundary(s@, max_len - 3),
    ensures
        r@ == truncated_form(s@, max_len as int),
{
    if byte_length(s) <= max_len {
        s.to_owned()
    } else {
        prefix_with_ellipsis(s, max_len - 3)
    }
}

/// Shortens an identifier taken from a link for display.
pub fn truncate_id(id: &str) -> (r: String)
    requires
        byte_len(id@) > 16 ==> is_byte_boundary(id@, 13),
    ensures
        r@ == short_id_form(id@),
{
    if byte_length(id) > 16 {
        prefix_with_ellipsis(id, 13)
    } else {
        id.to_owned()
    }
}

/// Whether a character sequence holds `c`.
fn has_char(v: &[char], c: char) -> (r: bool)
    ensures
        r == v@.contains(c),
{
    let mut i: usize = 0;
    while i < v.len()
        invariant
            i <= v.len(),
            forall|k: int| 0 <= k < i ==> v@[k] != c,
        decreases v.len() - i,
    {
        if v[i] == c {
            assert(v@[i as int] == c);
            return true;
        }
        i = i + 1;
    }
    false
}

/// Quotes a value for a CSV cell when it holds a comma, a quote or a newline.
pub fn escape_csv(s: &str) -> (r: String)
    ensures
        r@ == csv_field(s@),
{
    let v = chars_of(s);
    if !(has_char(&v, ',') || has_char(&v, '"') || has_char(&v, '\n')) {
        return s.to_owned();
    }
    let mut r = String::new();
    push_char(&mut r, '"');
    let mut i: usize = 0;
    while i < v.len()
        invariant
            v@ == s@,
            i <= v.len(),
            r@ == seq!['"'] + double_quotes(v@.take(i as int)),
        decreases v.len() - i,
    {
        let c = v[i];
        assert(v@.take(i as int + 1).drop_last() =~= v@.take(i as int));
        if c == '"' {
            push_char(&mut r, '"');
            push_char(&mut r, '"');
        } else {
            push_char(&mut r, c);
        }
        assert(r@ =~= seq!['"'] + double_quotes(v@.take(i as int + 1)));
        i = i + 1;
    }
    assert(v@.take(v.len() as int) =~= v@);
    push_char(&mut r, '"');
    r
}


/// The text if there is one, else the stand-in `d`.
pub open spec fn text_or(o: Option<String>, d: Seq<char>) -> Seq<char> {
    match o {
        Some(x) => x@,
        None => d,
    }
}

/// The text if there is one, else the stand-in `d`.
pub fn shown_or(o: &Option<String>, d: &str) -> (r: String)
    ensures
        r@ == text_or(*o, d@),
{
    match o {
        Some(x) => x.clone(),
        None => d.to_owned(),
    }
}

/// A rule of `n` dashes.
pub open spec fn dash_rule(n: nat) -> Seq<char> {
    Seq::new(n, |i: int| '-')
}

/// Writes a rule of `n` dashes.
pub fn dashes(n: usize) -> (r: String)
    ensures
        r@ == dash_rule(n as nat),
{
    let mut r = String::new();
    let mut i: usize = 0;
    while i < n
        invariant
            i <= n,
            r@ == dash_rule(i as nat),
        decreases n - i,
    {
        push_char(&mut r, '-');
        assert(r@ =~= dash_rule(i as nat + 1));
        i = i + 1;
    }
    r
}

/// The encoding of two texts one after the other is their encodings one
/// after the other.
proof fn lemma_encode_concat(a: Seq<char>, b: Seq<char>)
    ensures
        encode_utf8(a + b) == encode_utf8(a) + encode_utf8(b),
    decreases a.len(),
{
    if a.len() == 0 {
        assert(a + b =~= b);
        assert(encode_utf8(a) + encode_utf8(b) =~= encode_utf8(b));
    } else {
        assert((a + b).drop_first() =~= a.drop_first() + b);
        assert((a + b)[0] == a[0]);
        lemma_encode_concat(a.drop_first(), b);
        assert(encode_utf8(a + b) =~= encode_utf8(a) + encode_utf8(b));
    }
}

/// The marker takes three bytes.
proof fn lemma_ellipsis_len()
    ensures
        byte_len(ellipsis()) == 3,
{
    assert(is_ascii_chars(ellipsis()));
    is_ascii_chars_encode_utf8(ellipsis());
}

/// A prefix cut at a character boundary takes exactly its bytes.
proof fn lemma_prefix_len(s: Seq<char>, k: int)
    requires
        0 <= k <= byte_len(s),
        is_byte_boundary(s, k),
    ensures
        byte_len(byte_prefix(s, k)) == k,
{
    let bytes = encode_utf8(s);
    encode_utf8_valid_utf8(s);
    valid_utf8_split(bytes, k);
    assert(bytes.take(k) =~= bytes.subrange(0, k));
    decode_utf8_encode_utf8(bytes.take(k));
}

/// The length, in bytes, of text cut to `max_len` bytes, when the text is
/// longer than that.
proof fn lemma_cut_len(s: Seq<char>, max_len: int)
    requires
        byte_len(s) > max_len,
        is_byte_boundary(s, if max_len >= 3 { max_len - 3 } else { 0 }),
    ensures
        byte_len(truncated_form(s, max_len)) == if max_len >= 3 { max_len } else { 3 },
{
    let k = if max_len >= 3 { max_len - 3 } else { 0 };
    lemma_prefix_len(s, k);
    lemma_ellipsis_len();
    lemma_encode_concat(byte_prefix(s, k), ellipsis());
}

/// Cut text fits its width: text cut to `max_len` bytes (at least 3) takes
/// at most `max_len` bytes.
pub proof fn law_cut_text_fits(s: Seq<char>, max_len: int)
    requires
        max_len >= 3,
        byte_len(s) > max_len ==> is_byte_boundary(s, max_len - 3),
    ensures
        byte_len(truncated_form(s, max_len)) <= max_len,
{
    if byte_len(s) > max_len {
        lemma_cut_len(s, max_len);
    }
}

/// Cutting text twice to the same width gives the text cut once.
pub proof fn law_cut_twice_is_cut_once(s: Seq<char>, max_len: int)
    requires
        byte_len(s) > max_len ==> is_byte_boundary(s, if max_len >= 3 { max_len - 3 } else { 0 }),
    ensures
        truncated_form(truncated_form(s, max_len), max_len) == truncated_form(s, max_len),
{
    if byte_len(s) > max_len {
        lemma_cut_len(s, max_len);
        if max_len < 3 {
            let t = truncated_form(s, max_len);
            let bytes = encode_utf8(t);
            assert(bytes.take(0) =~= Seq::<u8>::empty());
            assert(encode_utf8(Seq::<char>::empty()) =~= Seq::<u8>::empty());
            encode_utf8_decode_utf8(Seq::<char>::empty());
            assert(byte_prefix(t, 0) =~= Seq::<char>::empty());
            assert(byte_prefix(s, 0) =~= Seq::<char>::empty()) by {
                assert(encode_utf8(s).take(0) =~= Seq::<u8>::empty());
            }
            assert(t =~= ellipsis());
            assert(truncated_form(t, max_len) =~= ellipsis());
        }
    }
}

/// A displayed identifier is the identifier cut to 16 bytes, and takes at
/// most 16 bytes.
pub proof fn law_short_id_fits(id: Seq<char>)
    requires
        byte_len(id) > 16 ==> is_byte_boundary(id, 13),
    ensures
        short_id_form(id) == truncated_form(id, 16),
        byte_len(short_id_form(id)) <= 16,
{
    law_cut_text_fits(id, 16);
}


/// Identifiers are ASCII text, so a displayed identifier is always the
/// identifier cut cleanly to 16 bytes, and takes at most 16 bytes.
pub proof fn law_ascii_id_fits(id: Seq<char>)
    requires
        is_ascii_chars(id),
    ensures
        byte_len(id) > 16 ==> is_byte_boundary(id, 13),
        short_id_form(id) == truncated_form(id, 16),
        byte_len(short_id_form(id)) <= 16,
{
    let bytes = encode_utf8(id);
    encode_utf8_valid_utf8(id);
    is_ascii_chars_encode_utf8(id);
    if byte_len(id) > 16 {
        assert(id[13] as u8 == bytes[13]);
        assert('\0' <= id[13] <= '\u{7f}');
        assert((id[13] as u32) <= 0x7f);
        assert(!is_continuation_byte(bytes[13]));
        is_char_boundary_iff_not_is_continuation_byte(bytes, 13);
    }
    law_short_id_fits(id);
}

} // verus!
