use vstd::prelude::*;

verus! {

/// Number of UTF-16 code units that encode `c`.
pub open spec fn utf16_width(c: char) -> nat {
    if (c as u32) < 0x1_0000 { 1 } else { 2 }
}

/// Number of UTF-8 bytes that encode `c`.
pub open spec fn utf8_width(c: char) -> nat {
    if (c as u32) < 0x80 {
        1
    } else if (c as u32) < 0x800 {
        2
    } else if (c as u32) < 0x1_0000 {
        3
    } else {
        4
    }
}

/// Length of `s` in UTF-16 code units.
pub open spec fn utf16_len(s: Seq<char>) -> nat
    decreases s.len(),
{
    if s.len() == 0 { 0 } else { utf16_len(s.drop_last()) + utf16_width(s.last()) }
}

/// Length of `s` in UTF-8 bytes.
pub open spec fn utf8_len(s: Seq<char>) -> nat
    decreases s.len(),
{
    if s.len() == 0 { 0 } else { utf8_len(s.drop_last()) + utf8_width(s.last()) }
}

/// Number of characters in the longest prefix of `s` that spans at most `cu`
/// UTF-16 code units.
pub open spec fn cursor_prefix(s: Seq<char>, cu: int) -> nat
    decreases s.len(),
{
    if s.len() == 0 || utf16_len(s) <= cu { s.len() } else { cursor_prefix(s.drop_last(), cu) }
}

/// The byte offset in `s` of a cursor that stands `cu` code units in.
pub open spec fn cursor_byte_offset_of(s: Seq<char>, cu: int) -> nat {
    utf8_len(s.take(cursor_prefix(s, cu) as int))
}

/// The cursor prefix is the longest prefix of `s` that spans at most `cu`
/// code units, and the cursor's byte offset is that prefix's UTF-8 length.
pub proof fn lemma_cursor_offset_is_longest_prefix(s: Seq<char>, cu: int)
    requires
        0 <= cu,
    ensures
        cursor_prefix(s, cu) <= s.len(),
        utf16_len(s.take(cursor_prefix(s, cu) as int)) <= cu,
        forall|j: int|
            cursor_prefix(s, cu) < j <= s.len() ==> #[trigger] utf16_len(s.take(j)) > cu,
        cursor_byte_offset_of(s, cu) == utf8_len(s.take(cursor_prefix(s, cu) as int)),
    decreases s.len(),
{
    if s.len() == 0 {
        assert(s.take(0) =~= s);
    } else if utf16_len(s) <= cu {
        assert(s.take(s.len() as int) =~= s);
    } else {
        let t = s.drop_last();
        let k = cursor_prefix(t, cu) as int;
        lemma_cursor_offset_is_longest_prefix(t, cu);
        assert(s.take(k) =~= t.take(k));
        assert forall|j: int| k < j <= s.len() implies #[trigger] utf16_len(s.take(j)) > cu by {
            if j == s.len() {
                assert(s.take(j) =~= s);
            } else {
                assert(s.take(j) =~= t.take(j));
            }
        }
    }
}

/// A string's UTF-8 length is at most three times its UTF-16 length.
proof fn lemma_utf8_le_three_utf16(s: Seq<char>)
    ensures
        utf8_len(s) <= 3 * utf16_len(s),
    decreases s.len(),
{
    if s.len() > 0 {
        lemma_utf8_le_three_utf16(s.drop_last());
    }
}

/// Longer prefixes span at least as many code units.
proof fn lemma_utf16_len_prefix_monotone(s: Seq<char>, j: int, k: int)
    requires
        0 <= j <= k <= s.len(),
    ensures
        utf16_len(s.take(j)) <= utf16_len(s.take(k)),
    decreases k - j,
{
    if j < k {
        lemma_utf16_len_prefix_monotone(s, j, k - 1);
        assert(s.take(k).drop_last() =~= s.take(k - 1));
    }
}

/// A prefix of `i` characters that fits within `cu` code units, where one more
/// character would not, is the cursor prefix.
proof fn lemma_cursor_prefix_is(s: Seq<char>, cu: int, i: int)
    requires
        0 <= i <= s.len(),
        utf16_len(s.take(i)) <= cu,
        i < s.len() ==> utf16_len(s.take(i + 1)) > cu,
    ensures
        cursor_prefix(s, cu) == i,
    decreases s.len(),
{
    if i == s.len() {
        assert(s.take(i) =~= s);
    } else {
        lemma_utf16_len_prefix_monotone(s, i + 1, s.len() as int);
        assert(s.take(s.len() as int) =~= s);
        let t = s.drop_last();
        assert(t.take(i) =~= s.take(i));
        if i + 1 < s.len() {
            assert(t.take(i + 1) =~= s.take(i + 1));
        }
        lemma_cursor_prefix_is(t, cu, i);
    }
}

/// The low 16 bits of a raw cursor value, read as a count of code units.
pub fn cursor_code_units(raw: i32) -> (cu: u16)
    ensures
        cu as int == raw as int % 0x1_0000,
{
    let bits = raw as u32;
    let cu = (bits & 0xffff) as u16;
    assert(cu == bits % 0x1_0000) by (bit_vector)
        requires cu == (bits & 0xffff) as u16;
    assert(raw >= 0 ==> bits == raw) by (bit_vector)
        requires bits == raw as u32;
    assert(raw < 0 ==> bits == raw + 0x1_0000_0000) by (bit_vector)
        requires bits == raw as u32;
    cu
}

/// Number of UTF-8 bytes that encode `c`, as `char::len_utf8` gives it.
fn char_utf8_width(c: char) -> (w: usize)
    ensures
        w == utf8_width(c),
{
    let v = c as u32;
    if v < 0x80 {
        1
    } else if v < 0x800 {
        2
    } else if v < 0x1_0000 {
        3
    } else {
        4
    }
}

/// Number of UTF-16 code units that encode `c`, as `char::len_utf16` gives it.
fn char_utf16_width(c: char) -> (w: usize)
    ensures
        w == utf16_width(c),
{
    if (c as u32) < 0x1_0000 {
        1
    } else {
        2
    }
}

/// Translates a cursor given in UTF-16 code units into a byte offset in
/// `text`: the byte length of the longest prefix of `text` that spans at most
/// `cu` code units. A cursor past the end gives the length of `text`.
pub fn cursor_byte_offset(text: &str, cu: u16) -> (offset: usize)
    ensures
        offset == cursor_byte_offset_of(text@, cu as int),
{
    broadcast use vstd::string::axiom_spec_iter;
    let ghost s = text@;
    let mut units: usize = 0;
    let mut bytes: usize = 0;
    for c in it: text.chars()
        invariant
            s == text@,
            it.seq() == s,
            it.index() <= s.len(),
            units == utf16_len(s.take(it.index() as int)),
            bytes == utf8_len(s.take(it.index() as int)),
            units <= cu,
    {
        let ghost i = it.index() as int;
        assert(c == s[i]);
        assert(s.take(i + 1).drop_last() =~= s.take(i));
        assert(s.take(i + 1).last() == c);
        let w16 = char_utf16_width(c);
        if units + w16 > cu as usize {
            proof {
                lemma_cursor_prefix_is(s, cu as int, i);
            }
            return bytes;
        }
        proof {
            lemma_utf8_le_three_utf16(s.take(i + 1));
        }
        units = units + w16;
        bytes = bytes + char_utf8_width(c);
    }
    proof {
        lemma_cursor_prefix_is(s, cu as int, s.len() as int);
    }
    bytes
}

} // verus!
