//! Text primitives: the handful of string operations the rest of the crate is built
//! on, stated over `Seq<char>`.

use vstd::prelude::*;
use vstd::utf8::{decode_utf8, encode_utf8, is_ascii_chars, valid_utf8};

verus! {

// ── Characters ────────────────────────────────────────────────────────────────

/// Unicode `White_Space`.
pub open spec fn is_white_space(c: char) -> bool {
    let u = c as u32;
    ||| 0x09 <= u <= 0x0d
    ||| u == 0x20
    ||| u == 0x85
    ||| u == 0xa0
    ||| u == 0x1680
    ||| 0x2000 <= u <= 0x200a
    ||| u == 0x2028
    ||| u == 0x2029
    ||| u == 0x202f
    ||| u == 0x205f
    ||| u == 0x3000
}

/// One ASCII letter in lower case, every other character unchanged.
pub open spec fn ascii_lower(c: char) -> char {
    if 'A' <= c <= 'Z' {
        ((c as u32) + 32) as char
    } else {
        c
    }
}

pub open spec fn is_ascii_digit(c: char) -> bool {
    '0' <= c <= '9'
}

pub open spec fn is_ascii_alphanumeric(c: char) -> bool {
    is_ascii_digit(c) || 'a' <= c <= 'z' || 'A' <= c <= 'Z'
}

pub open spec fn is_ascii_hex_digit(c: char) -> bool {
    is_ascii_digit(c) || 'a' <= c <= 'f' || 'A' <= c <= 'F'
}

// ── Trimming ──────────────────────────────────────────────────────────────────

/// `s` without its leading white space.
pub open spec fn trimmed_start(s: Seq<char>) -> Seq<char>
    decreases s.len(),
{
    if s.len() > 0 && is_white_space(s[0]) {
        trimmed_start(s.drop_first())
    } else {
        s
    }
}

/// `s` without its trailing white space.
pub open spec fn trimmed_end(s: Seq<char>) -> Seq<char>
    decreases s.len(),
{
    if s.len() > 0 && is_white_space(s.last()) {
        trimmed_end(s.drop_last())
    } else {
        s
    }
}

/// `s` without white space at either end.
pub open spec fn trimmed(s: Seq<char>) -> Seq<char> {
    trimmed_end(trimmed_start(s))
}

/// Text with no white space at either end is its own trimmed text.
pub proof fn lemma_trimmed_fixed(s: Seq<char>)
    requires
        s.len() > 0 ==> !is_white_space(s[0]) && !is_white_space(s.last()),
    ensures
        trimmed(s) == s,
{
}

proof fn lemma_trimmed_start(s: Seq<char>)
    ensures
        trimmed_start(s).len() == 0 || !is_white_space(trimmed_start(s)[0]),
    decreases s.len(),
{
    if s.len() > 0 && is_white_space(s[0]) {
        lemma_trimmed_start(s.drop_first());
    }
}

proof fn lemma_trimmed_end(s: Seq<char>)
    ensures
        trimmed_end(s).len() == 0 || (!is_white_space(trimmed_end(s).last()) && trimmed_end(s)[0]
            == s[0]),
    decreases s.len(),
{
    if s.len() > 0 && is_white_space(s.last()) {
        lemma_trimmed_end(s.drop_last());
    }
}

/// A trimmed text has no white space at either end.
pub proof fn lemma_trimmed_ends(s: Seq<char>)
    ensures
        trimmed(s).len() > 0 ==> !is_white_space(trimmed(s)[0]) && !is_white_space(
            trimmed(s).last(),
        ),
{
    lemma_trimmed_start(s);
    lemma_trimmed_end(trimmed_start(s));
}

/// Trimming a trimmed text changes nothing.
pub proof fn lemma_trimmed_twice(s: Seq<char>)
    ensures
        trimmed(trimmed(s)) == trimmed(s),
{
    lemma_trimmed_ends(s);
    lemma_trimmed_fixed(trimmed(s));
}

/// `s` with every leading occurrence of `p` removed.
pub open spec fn without_prefixes(s: Seq<char>, p: Seq<char>) -> Seq<char>
    decreases s.len(),
{
    if p.len() > 0 && p.is_prefix_of(s) {
        without_prefixes(s.skip(p.len() as int), p)
    } else {
        s
    }
}

/// `s` with every trailing occurrence of the character `c` removed.
pub open spec fn without_trailing(s: Seq<char>, c: char) -> Seq<char>
    decreases s.len(),
{
    if s.len() > 0 && s.last() == c {
        without_trailing(s.drop_last(), c)
    } else {
        s
    }
}

/// `str::trim`: the slice without leading and trailing `White_Space` characters.
#[verifier::external_body]
pub(crate) fn trim(s: &str) -> (r: &str)
    ensures
        r@ == trimmed(s@),
{
    s.trim()
}

/// `str::strip_prefix` with a string pattern: the rest after `p` when `s` starts with `p`.
#[verifier::external_body]
pub(crate) fn strip_prefix<'a>(s: &'a str, p: &str) -> (r: Option<&'a str>)
    ensures
        r is Some <==> p@.is_prefix_of(s@),
        r matches Some(rest) ==> rest@ == s@.skip(p@.len() as int),
{
    s.strip_prefix(p)
}

/// `str::strip_suffix` with a string pattern: the part before `p` when `s` ends with `p`.
#[verifier::external_body]
pub(crate) fn strip_suffix<'a>(s: &'a str, p: &str) -> (r: Option<&'a str>)
    ensures
        r is Some <==> p@.is_suffix_of(s@),
        r matches Some(rest) ==> rest@ == s@.take(s@.len() - p@.len()),
{
    s.strip_suffix(p)
}

/// Drops `p` from the front of `s` as often as it stands there.
pub(crate) fn trim_start_matches<'a>(s: &'a str, p: &str) -> (r: &'a str)
    requires
        p@.len() > 0,
    ensures
        r@ == without_prefixes(s@, p@),
{
    let mut rest = s;
    loop
        invariant
            p@.len() > 0,
            without_prefixes(s@, p@) == without_prefixes(rest@, p@),
        decreases rest@.len(),
    {
        match strip_prefix(rest, p) {
            Some(shorter) => {
                rest = shorter;
            },
            None => {
                return rest;
            },
        }
    }
}

// ── Searching ─────────────────────────────────────────────────────────────────

/// `p` stands in `s` at position `i`.
pub open spec fn occurs_at(s: Seq<char>, p: Seq<char>, i: int) -> bool {
    0 <= i && i + p.len() <= s.len() && s.subrange(i, i + p.len()) == p
}

/// `p` stands somewhere in `s`.
pub open spec fn occurs(s: Seq<char>, p: Seq<char>) -> bool {
    exists|i: int| occurs_at(s, p, i)
}

/// `i` is the leftmost position at which `p` stands in `s`.
pub open spec fn first_occurrence(s: Seq<char>, p: Seq<char>, i: int) -> bool {
    occurs_at(s, p, i) && forall|j: int| 0 <= j < i ==> !occurs_at(s, p, j)
}

/// The parts of `s` before and after the leftmost `p`.
pub open spec fn split_at_first(s: Seq<char>, p: Seq<char>) -> Option<(Seq<char>, Seq<char>)> {
    if occurs(s, p) {
        let i = choose|i: int| first_occurrence(s, p, i);
        Some((s.take(i), s.skip(i + p.len())))
    } else {
        None
    }
}

/// There is only one leftmost occurrence, and `split_at_first` splits there.
pub proof fn lemma_first_occurrence(s: Seq<char>, p: Seq<char>, i: int)
    requires
        first_occurrence(s, p, i),
    ensures
        split_at_first(s, p) == Some((s.take(i), s.skip(i + p.len()))),
{
    let j = choose|j: int| first_occurrence(s, p, j);
    assert(first_occurrence(s, p, j));
    assert(i == j);
}

/// `str::split_once` with a string pattern: what stands before and after the leftmost
/// occurrence of `p`, and `None` when `p` does not occur.
#[verifier::external_body]
pub(crate) fn split_once<'a>(s: &'a str, p: &str) -> (r: Option<(&'a str, &'a str)>)
    ensures
        r is None <==> !occurs(s@, p@),
        r matches Some((before, after)) ==> {
            &&& first_occurrence(s@, p@, before@.len() as int)
            &&& before@ == s@.take(before@.len() as int)
            &&& after@ == s@.skip((before@.len() + p@.len()) as int)
        },
{
    s.split_once(p)
}

/// Whether `p` occurs in `s`.
pub(crate) fn contains(s: &str, p: &str) -> (r: bool)
    ensures
        r == occurs(s@, p@),
{
    split_once(s, p).is_some()
}

/// Whether `s` begins with `p`.
pub(crate) fn starts_with(s: &str, p: &str) -> (r: bool)
    ensures
        r == p@.is_prefix_of(s@),
{
    strip_prefix(s, p).is_some()
}

/// `<str as PartialEq>::eq`: the same characters.
#[verifier::external_body]
pub(crate) fn same(a: &str, b: &str) -> (r: bool)
    ensures
        r == (a@ == b@),
{
    a == b
}

/// `a` comes before `b` in the order of byte strings: at the first difference, or as a prefix.
pub open spec fn bytes_before(a: Seq<u8>, b: Seq<u8>) -> bool
    decreases a.len(),
{
    if b.len() == 0 {
        false
    } else if a.len() == 0 {
        true
    } else if a[0] != b[0] {
        a[0] < b[0]
    } else {
        bytes_before(a.drop_first(), b.drop_first())
    }
}

/// Of two different byte strings one comes before the other.
pub proof fn lemma_bytes_before_total(a: Seq<u8>, b: Seq<u8>)
    ensures
        !(bytes_before(a, b) && bytes_before(b, a)),
        a != b ==> bytes_before(a, b) || bytes_before(b, a),
    decreases a.len(),
{
    if a.len() == 0 || b.len() == 0 {
        if a.len() == 0 && b.len() == 0 {
            assert(a =~= b);
        }
    } else if a[0] == b[0] {
        lemma_bytes_before_total(a.drop_first(), b.drop_first());
        if a.drop_first() == b.drop_first() {
            assert(a =~= seq![a[0]] + a.drop_first());
            assert(b =~= seq![b[0]] + b.drop_first());
        }
    }
}

/// `<str as PartialOrd>::lt`: the order of the UTF-8 bytes.
#[verifier::external_body]
pub(crate) fn before(a: &str, b: &str) -> (r: bool)
    ensures
        r == bytes_before(encode_utf8(a@), encode_utf8(b@)),
{
    a < b
}

// ── Case ──────────────────────────────────────────────────────────────────────

/// `s` with its ASCII letters in lower case.
pub open spec fn ascii_lowered(s: Seq<char>) -> Seq<char> {
    s.map_values(|c: char| ascii_lower(c))
}

/// What `str::to_lowercase` returns: the Unicode lower-case equivalent.
pub uninterp spec fn lowercased(s: Seq<char>) -> Seq<char>;

/// `str::to_ascii_lowercase`: ASCII letters mapped to lower case, the rest unchanged.
#[verifier::external_body]
pub(crate) fn to_ascii_lowercase(s: &str) -> (r: String)
    ensures
        r@ == ascii_lowered(s@),
{
    s.to_ascii_lowercase()
}

/// `str::to_lowercase`: the Unicode lower-case equivalent. It holds no ASCII capital, and
/// of ASCII text it is the ASCII lower case.
#[verifier::external_body]
pub(crate) fn to_lowercase(s: &str) -> (r: String)
    ensures
        r@ == lowercased(s@),
        forall|i: int| 0 <= i < r@.len() ==> !('A' <= #[trigger] r@[i] <= 'Z'),
        is_ascii_chars(s@) ==> r@ == ascii_lowered(s@),
{
    s.to_lowercase()
}

// ── UTF-8 ─────────────────────────────────────────────────────────────────────

/// What `String::from_utf8_lossy` makes of bytes that are not UTF-8.
pub uninterp spec fn utf8_repaired(b: Seq<u8>) -> Seq<char>;

/// The text that bytes stand for, repaired where they are not UTF-8.
pub open spec fn utf8_lossy(b: Seq<u8>) -> Seq<char> {
    if valid_utf8(b) {
        decode_utf8(b)
    } else {
        utf8_repaired(b)
    }
}

/// What `String::from_utf8` says of bytes that are not UTF-8.
pub uninterp spec fn utf8_error_text(b: Seq<u8>) -> Seq<char>;

/// `String::from_utf8`: the text that `b` encodes, when `b` is valid UTF-8; fails on anything
/// else, with a text that says so.
#[verifier::external_body]
pub(crate) fn from_utf8(b: Vec<u8>) -> (r: Result<String, String>)
    ensures
        r is Ok <==> valid_utf8(b@),
        r matches Ok(s) ==> s@ == decode_utf8(b@),
        r matches Err(e) ==> e@ == utf8_error_text(b@),
{
    match String::from_utf8(b) {
        Ok(s) => Ok(s),
        Err(e) => Err(e.to_string()),
    }
}

/// `String::from_utf8_lossy`: the text that `b` encodes, with what is not valid UTF-8
/// replaced; valid UTF-8 is decoded as it stands.
#[verifier::external_body]
pub(crate) fn from_utf8_lossy(b: &[u8]) -> (r: String)
    ensures
        r@ == (if valid_utf8(b@) {
            decode_utf8(b@)
        } else {
            utf8_repaired(b@)
        }),
{
    String::from_utf8_lossy(b).into_owned()
}

// ── Numbers ───────────────────────────────────────────────────────────────────

/// The decimal digit for a value below ten.
pub open spec fn digit(d: nat) -> char {
    ('0' as u32 + d) as char
}

/// `n` in decimal, without leading zeros.
pub open spec fn decimal(n: nat) -> Seq<char>
    decreases n,
{
    if n < 10 {
        seq![digit(n)]
    } else {
        decimal(n / 10).push(digit(n % 10))
    }
}

/// A signed number in decimal.
pub open spec fn signed_decimal(n: int) -> Seq<char> {
    if n < 0 {
        seq!['-'] + decimal((-n) as nat)
    } else {
        decimal(n as nat)
    }
}

/// The number that a row of decimal digits writes.
pub open spec fn digits_value(s: Seq<char>) -> nat
    decreases s.len(),
{
    if s.len() == 0 {
        0
    } else {
        (10 * digits_value(s.drop_last()) + (s.last() as nat - '0' as nat)) as nat
    }
}

/// Decimal digits and nothing else.
pub open spec fn all_digits(s: Seq<char>) -> bool {
    forall|i: int| 0 <= i < s.len() ==> is_ascii_digit(#[trigger] s[i])
}

/// The number that `s` writes: digits, at least one, after an optional `+`.
pub open spec fn parsed_number(s: Seq<char>) -> Option<nat> {
    let d = if s.len() > 0 && s[0] == '+' {
        s.drop_first()
    } else {
        s
    };
    if d.len() > 0 && all_digits(d) {
        Some(digits_value(d))
    } else {
        None
    }
}

/// The number that `s` writes, when it fits in a `u64`.
pub open spec fn parsed_u64(s: Seq<char>) -> Option<u64> {
    match parsed_number(s) {
        Some(n) => if n <= u64::MAX {
            Some(n as u64)
        } else {
            None
        },
        None => None,
    }
}

/// `<u64 as ToString>::to_string`: the number in decimal.
#[verifier::external_body]
pub(crate) fn format_u64(n: u64) -> (r: String)
    ensures
        r@ == decimal(n as nat),
{
    n.to_string()
}

/// `<i64 as ToString>::to_string`: the number in decimal, with a minus sign when negative.
#[verifier::external_body]
pub(crate) fn format_i64(n: i64) -> (r: String)
    ensures
        r@ == signed_decimal(n as int),
{
    n.to_string()
}

/// `str::parse::<u64>`: the number written in `s`, when `s` is decimal digits after an
/// optional `+` and the number fits.
#[verifier::external_body]
pub(crate) fn parse_u64(s: &str) -> (r: Option<u64>)
    ensures
        r == parsed_u64(s@),
{
    s.parse::<u64>().ok()
}

// ── Building ──────────────────────────────────────────────────────────────────

/// `String::push` appends one character.
pub assume_specification[ String::push ](s: &mut String, c: char)
    ensures
        final(s)@ == old(s)@.push(c),
;

/// `String::pop` takes the last character off, if there is one.
pub assume_specification[ String::pop ](s: &mut String) -> (r: Option<char>)
    ensures
        old(s)@.len() == 0 ==> r is None && final(s)@ == old(s)@,
        old(s)@.len() > 0 ==> r == Some(old(s)@.last()) && final(s)@ == old(s)@.drop_last(),
;

/// Drops the character `c` from the end of `s` as often as it stands there.
pub(crate) fn trim_end_matches<'a>(s: &'a str, p: &str, Ghost(c): Ghost<char>) -> (r: &'a str)
    requires
        p@ == seq![c],
    ensures
        r@ == without_trailing(s@, c),
{
    let mut rest = s;
    loop
        invariant
            p@ == seq![c],
            without_trailing(s@, c) == without_trailing(rest@, c),
        decreases rest@.len(),
    {
        match strip_suffix(rest, p) {
            Some(shorter) => {
                assert(rest@.subrange(rest@.len() - 1, rest@.len() as int) == seq![c]);
                assert(rest@.last() == rest@.subrange(rest@.len() - 1, rest@.len() as int)[0]);
                assert(shorter@ == rest@.drop_last());
                rest = shorter;
            },
            None => {
                proof {
                    if rest@.len() > 0 && rest@.last() == c {
                        assert(rest@.subrange(rest@.len() - 1, rest@.len() as int) == seq![c]);
                    }
                }
                return rest;
            },
        }
    }
}

/// The texts one after the other.
pub(crate) fn join(a: &str, b: &str) -> (r: String)
    ensures
        r@ == a@ + b@,
{
    let mut r = String::from_str(a);
    r.append(b);
    r
}

/// The text inside an option.
pub open spec fn opt_text(o: Option<String>) -> Option<Seq<char>> {
    match o {
        Some(s) => Some(s@),
        None => None,
    }
}

/// The text that an option borrows.
pub open spec fn opt_str(o: Option<&str>) -> Option<Seq<char>> {
    match o {
        Some(s) => Some(s@),
        None => None,
    }
}

/// `Option::as_deref` of an optional text.
pub(crate) fn as_deref(o: &Option<String>) -> (r: Option<&str>)
    ensures
        opt_str(r) == opt_text(*o),
{
    match o {
        Some(s) => Some(s.as_str()),
        None => None,
    }
}

} // verus!
