//! What is done to texts, and what they are written in.

use crate::encoding::{hex_decoded, hex_encoded, uuid_parsed, uuid_text};
use crate::screens::layout::{centred_box, centred_line, notice_row, Area};
use crate::text::{
    ascii_lowered, bytes_before, first_occurrence, is_white_space, occurs, occurs_at,
    split_at_first, trimmed, trimmed_end, trimmed_start, without_prefixes,
    without_trailing,
};
use vstd::prelude::*;
use vstd::utf8::encode_utf8;

verus! {

// ── Trimming and cutting ──────────────────────────────────────────────────────

/// Nothing but white space.
pub open spec fn blank(s: Seq<char>) -> bool {
    forall|i: int| 0 <= i < s.len() ==> is_white_space(#[trigger] s[i])
}

proof fn lemma_trimmed_start_of(before: Seq<char>, s: Seq<char>)
    requires
        blank(before),
        s.len() > 0 ==> !is_white_space(s[0]),
    ensures
        trimmed_start(before + s) == s,
    decreases before.len(),
{
    if before.len() > 0 {
        assert((before + s).drop_first() =~= before.drop_first() + s);
        assert((before + s)[0] == before[0]);
        lemma_trimmed_start_of(before.drop_first(), s);
    } else {
        assert(before + s =~= s);
    }
}

proof fn lemma_trimmed_end_of(s: Seq<char>, after: Seq<char>)
    requires
        blank(after),
        s.len() > 0 ==> !is_white_space(s.last()),
    ensures
        trimmed_end(s + after) == s,
    decreases after.len(),
{
    if after.len() > 0 {
        assert((s + after).drop_last() =~= s + after.drop_last());
        assert((s + after).last() == after.last());
        lemma_trimmed_end_of(s, after.drop_last());
    } else {
        assert(s + after =~= s);
    }
}

/// Trimming takes all white space off both ends, and nothing else.
pub proof fn law_trimming_takes_off_white_space(
    before: Seq<char>,
    s: Seq<char>,
    after: Seq<char>,
)
    requires
        blank(before),
        blank(after),
        s.len() > 0,
        !is_white_space(s[0]),
        !is_white_space(s.last()),
    ensures
        trimmed(before + s + after) == s,
        trimmed(before).len() == 0,
{
    assert(before + s + after =~= before + (s + after));
    assert((s + after)[0] == s[0]);
    lemma_trimmed_start_of(before, s + after);
    lemma_trimmed_end_of(s, after);
    assert(before + Seq::<char>::empty() =~= before);
    lemma_trimmed_start_of(before, Seq::empty());
}

/// Spaces, tabs and line ends are white space; what can be seen in ASCII is not.
pub proof fn law_what_can_be_seen_is_no_white_space(c: char)
    ensures
        is_white_space(' '),
        is_white_space('\t'),
        is_white_space('\n'),
        is_white_space('\r'),
        0x21 <= c as u32 <= 0x7e ==> !is_white_space(c),
{
}

/// Taking prefixes off takes off as many as there are, and nothing where there is none.
pub proof fn law_prefixes_are_taken_off(s: Seq<char>, p: Seq<char>)
    requires
        p.len() > 0,
    ensures
        without_prefixes(p + s, p) == without_prefixes(s, p),
        !p.is_prefix_of(s) ==> without_prefixes(s, p) == s,
        !p.is_prefix_of(without_prefixes(s, p)),
{
    assert((p + s).subrange(0, p.len() as int) =~= p);
    assert((p + s).skip(p.len() as int) =~= s);
    lemma_no_prefix_left(s, p);
}

proof fn lemma_no_prefix_left(s: Seq<char>, p: Seq<char>)
    requires
        p.len() > 0,
    ensures
        !p.is_prefix_of(without_prefixes(s, p)),
    decreases s.len(),
{
    if p.is_prefix_of(s) {
        lemma_no_prefix_left(s.skip(p.len() as int), p);
    }
}

/// Taking a trailing character off takes off as many as there are, and nothing where there is
/// none.
pub proof fn law_trailing_characters_are_taken_off(s: Seq<char>, c: char)
    ensures
        without_trailing(s.push(c), c) == without_trailing(s, c),
        s.len() > 0 && s.last() != c ==> without_trailing(s, c) == s,
        without_trailing(Seq::empty(), c).len() == 0,
{
    assert(s.push(c).drop_last() =~= s);
}

proof fn lemma_first(s: Seq<char>, p: Seq<char>, i: int)
    requires
        occurs_at(s, p, i),
    ensures
        exists|j: int| first_occurrence(s, p, j),
    decreases i,
{
    if first_occurrence(s, p, i) {
    } else {
        let j = choose|j: int| 0 <= j < i && occurs_at(s, p, j);
        lemma_first(s, p, j);
    }
}

/// A text is split at the first place of a mark, and nowhere else: both parts with the mark
/// between them are the text, and the mark begins nowhere before.
pub proof fn law_a_text_is_split_at_the_first_mark(s: Seq<char>, p: Seq<char>, j: int)
    ensures
        split_at_first(s, p) is Some <==> occurs(s, p),
        split_at_first(s, p) matches Some((a, b)) ==> {
            &&& s == a + p + b
            &&& 0 <= j < a.len() ==> !occurs_at(s, p, j)
        },
{
    if occurs(s, p) {
        let i = choose|i: int| occurs_at(s, p, i);
        lemma_first(s, p, i);
        let k = choose|k: int| first_occurrence(s, p, k);
        assert(first_occurrence(s, p, k));
        crate::text::lemma_first_occurrence(s, p, k);
        assert(s =~= s.take(k) + s.subrange(k, k + p.len()) + s.skip(k + p.len()));
    }
}

/// Lowering changes the letters from A to Z to those from a to z, and nothing else.
pub proof fn law_lowering_changes_capitals_only(s: Seq<char>, i: int)
    requires
        0 <= i < s.len(),
    ensures
        ascii_lowered(s).len() == s.len(),
        'A' <= s[i] <= 'Z' ==> ascii_lowered(s)[i] as u32 == s[i] as u32 + 32,
        !('A' <= s[i] <= 'Z') ==> ascii_lowered(s)[i] == s[i],
{
}

/// Texts are ordered by their bytes: of two different ones exactly one comes before the other, and
/// what one begins with comes before it.
pub proof fn law_bytes_are_ordered(a: Seq<u8>, b: Seq<u8>, c: Seq<u8>, x: u8, y: u8)
    ensures
        !bytes_before(a, a),
        a != b ==> (bytes_before(a, b) <==> !bytes_before(b, a)),
        c.len() > 0 ==> bytes_before(a, a + c),
        x < y ==> bytes_before(a.push(x) + b, a.push(y) + c),
    decreases a.len(),
{
    crate::text::lemma_bytes_before_total(a, a);
    crate::text::lemma_bytes_before_total(a, b);
    if a.len() > 0 {
        let t = a.drop_first();
        law_bytes_are_ordered(t, b, c, x, y);
        assert((a + c).drop_first() =~= t + c);
        assert((a.push(x) + b).drop_first() =~= t.push(x) + b);
        assert((a.push(y) + c).drop_first() =~= t.push(y) + c);
        assert((a.push(x) + b)[0] == a[0]);
        assert((a.push(y) + c)[0] == a[0]);
    } else {
        assert((a.push(x) + b)[0] == x);
        assert((a.push(y) + c)[0] == y);
    }
}

// ── Hexadecimal and UUIDs ─────────────────────────────────────────────────────

/// Hexadecimal is read back, has two digits for a byte, the higher one first, and is the same in
/// capitals.
pub proof fn law_hexadecimal_is_read_back(b: Seq<u8>, s: Seq<char>, i: int)
    requires
        0 <= i < b.len(),
    ensures
        hex_decoded(hex_encoded(b)) == Some(b),
        hex_encoded(b).len() == 2 * b.len(),
        b[i] < 16 ==> hex_encoded(b)[2 * i] == '0',
        b[i] == 0xa1 ==> hex_encoded(b)[2 * i] == 'a' && hex_encoded(b)[2 * i + 1] == '1',
        hex_decoded(ascii_lowered(s)) == hex_decoded(s),
{
    crate::encoding::lemma_hex_round_trip(b);
    let t = ascii_lowered(s);
    assert forall|k: int| 0 <= k < s.len() implies crate::text::is_ascii_hex_digit(#[trigger] t[k])
        == crate::text::is_ascii_hex_digit(s[k]) && (crate::text::is_ascii_hex_digit(s[k])
        ==> crate::encoding::hex_value(t[k]) == crate::encoding::hex_value(s[k])) by {}
    if crate::encoding::all_hex(s) {
        assert(crate::encoding::all_hex(t));
        if s.len() % 2 == 0 {
            assert(hex_decoded(t)->0 =~= hex_decoded(s)->0);
        }
    } else {
        let k = choose|k: int|
            0 <= k < s.len() && !crate::text::is_ascii_hex_digit(#[trigger] s[k]);
        assert(!crate::text::is_ascii_hex_digit(t[k]));
        assert(!crate::encoding::all_hex(t));
    }
}

/// A UUID is read from its groups, from its bare digits, from braces and from a URN alike.
pub proof fn law_a_uuid_has_four_forms(b: Seq<u8>)
    requires
        b.len() == 16,
    ensures
        uuid_text(b).len() == 36,
        uuid_parsed(uuid_text(b)) == Some(b),
        uuid_parsed(hex_encoded(b)) == Some(b),
        uuid_parsed(seq!['{'] + uuid_text(b) + seq!['}']) == Some(b),
        uuid_parsed("urn:uuid:"@ + uuid_text(b)) == Some(b),
{
    reveal_strlit("urn:uuid:");
    crate::encoding::lemma_uuid_round_trip(b);
    crate::encoding::lemma_hex_round_trip(b);
    let t = uuid_text(b);
    let braced = seq!['{'] + t + seq!['}'];
    assert(braced.subrange(1, 37) =~= t);
    let urn = "urn:uuid:"@ + t;
    assert(urn.skip(9) =~= t);
    assert(ascii_lowered(urn.take(9)) =~= "urn:uuid:"@);
}

// ── Places on the screen ──────────────────────────────────────────────────────

/// A centred box has the size that was asked for, as far as there is room, and as much room on
/// either side, give or take one cell.
pub proof fn law_a_centred_box_stands_in_the_middle(area: Area, width: u16, height: u16)
    requires
        area.x + area.width <= u16::MAX,
        area.y + area.height <= u16::MAX,
    ensures
        ({
            let b = centred_box(area, width, height);
            let left = b.x - area.x;
            let right = (area.x + area.width) - (b.x + b.width);
            let above = b.y - area.y;
            let below = (area.y + area.height) - (b.y + b.height);
            &&& width <= area.width ==> b.width == width
            &&& width > area.width ==> b.width == area.width
            &&& height <= area.height ==> b.height == height
            &&& height > area.height ==> b.height == area.height
            &&& left >= 0 && left <= right <= left + 1
            &&& above >= 0 && above <= below <= above + 1
        }),
{
}

/// A centred line stands in its row, one cell high, as wide as its bytes as far as there is room.
pub proof fn law_a_centred_line_stands_in_its_row(area: Area, text: Seq<char>, row: u16)
    requires
        encode_utf8(text).len() <= area.width,
        area.x + area.width <= u16::MAX,
    ensures
        ({
            let b = centred_line(area, text, row as int);
            let left = b.x - area.x;
            let right = (area.x + area.width) - (b.x + b.width);
            &&& b.y == row
            &&& b.height == 1
            &&& b.width == encode_utf8(text).len()
            &&& left >= 0 && left <= right <= left + 1
        }),
{
}

/// A notice fills the last row but one.
pub proof fn law_a_notice_fills_its_row(area: Area)
    ensures
        area.height >= 2 ==> notice_row(area).y + 2 == area.height,
        notice_row(area).x == 0,
        notice_row(area).width == area.width,
        notice_row(area).height == 1,
{
}

} // verus!
