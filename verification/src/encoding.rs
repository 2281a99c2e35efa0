//! Byte encodings: big-endian integers, hexadecimal, Base64 and UUID text.

use crate::text::{ascii_lowered, is_ascii_hex_digit};
use base64::Engine;
use vstd::prelude::*;
use vstd::utf8::is_ascii_chars;

verus! {

// ── Big-endian integers ───────────────────────────────────────────────────────

/// The number whose base-256 digits are `b`, most significant first.
pub open spec fn be_value(b: Seq<u8>) -> nat
    decreases b.len(),
{
    if b.len() == 0 {
        0
    } else {
        be_value(b.drop_last()) * 256 + b.last() as nat
    }
}

/// The low `n` base-256 digits of `v`, most significant first.
pub open spec fn be_bytes(v: nat, n: nat) -> Seq<u8>
    decreases n,
{
    if n == 0 {
        Seq::empty()
    } else {
        be_bytes(v / 256, (n - 1) as nat).push((v % 256) as u8)
    }
}

/// `256` to the power `n`.
pub open spec fn base256(n: nat) -> nat
    decreases n,
{
    if n == 0 {
        1
    } else {
        256 * base256((n - 1) as nat)
    }
}

/// `be_bytes` writes exactly `n` bytes.
pub proof fn lemma_be_bytes_len(v: nat, n: nat)
    ensures
        be_bytes(v, n).len() == n,
    decreases n,
{
    if n > 0 {
        lemma_be_bytes_len(v / 256, (n - 1) as nat);
    }
}

/// Reading back a number that fits gives the number.
pub proof fn lemma_be_round_trip(v: nat, n: nat)
    requires
        v < base256(n),
    ensures
        be_value(be_bytes(v, n)) == v,
    decreases n,
{
    if n > 0 {
        let b = be_bytes(v, n);
        assert(b.drop_last() =~= be_bytes(v / 256, (n - 1) as nat));
        lemma_be_round_trip(v / 256, (n - 1) as nat);
    }
}

/// The `n` bytes of a number read from `n` bytes are those bytes.
pub proof fn lemma_be_bytes_of_value(b: Seq<u8>)
    ensures
        be_bytes(be_value(b), b.len()) == b,
        be_value(b) < base256(b.len()),
    decreases b.len(),
{
    if b.len() > 0 {
        lemma_be_bytes_of_value(b.drop_last());
        let v = be_value(b);
        assert(v / 256 == be_value(b.drop_last()));
        assert(v % 256 == b.last() as nat);
        assert(b =~= b.drop_last().push(b.last()));
    } else {
        assert(be_bytes(be_value(b), 0) =~= b);
    }
}

pub proof fn lemma_base256()
    ensures
        base256(2) == 0x1_0000,
        base256(4) == 0x1_0000_0000,
        base256(8) == 0x1_0000_0000_0000_0000,
{
    reveal_with_fuel(base256, 9);
}

/// Appends `n` as eight big-endian bytes.
pub(crate) fn push_be_u64(out: &mut Vec<u8>, n: u64)
    ensures
        final(out)@ == old(out)@ + be_bytes(n as nat, 8),
{
    push_be_u32(out, (n / 0x1_0000_0000) as u32);
    push_be_u32(out, (n % 0x1_0000_0000) as u32);
    proof {
        let hi = be_bytes((n / 0x1_0000_0000) as nat, 4);
        let lo = be_bytes((n % 0x1_0000_0000) as nat, 4);
        lemma_base256();
        lemma_be_bytes_len((n / 0x1_0000_0000) as nat, 4);
        lemma_be_bytes_len((n % 0x1_0000_0000) as nat, 4);
        lemma_be_round_trip((n / 0x1_0000_0000) as nat, 4);
        lemma_be_round_trip((n % 0x1_0000_0000) as nat, 4);
        lemma_be_value_concat(hi, lo);
        lemma_be_bytes_of_value(hi + lo);
        assert(out@ =~= old(out)@ + (hi + lo));
    }
}

/// Appends `n` as four big-endian bytes.
pub(crate) fn push_be_u32(out: &mut Vec<u8>, n: u32)
    ensures
        final(out)@ == old(out)@ + be_bytes(n as nat, 4),
{
    out.push((n / 0x100_0000) as u8);
    out.push((n / 0x1_0000 % 0x100) as u8);
    out.push((n / 0x100 % 0x100) as u8);
    out.push((n % 0x100) as u8);
    proof {
        reveal_with_fuel(be_bytes, 5);
        assert(out@ =~= old(out)@ + be_bytes(n as nat, 4));
    }
}

/// The number in the four bytes from `at`.
pub(crate) fn read_be_u32(data: &[u8], at: usize) -> (n: u32)
    requires
        at + 4 <= data@.len(),
    ensures
        n as nat == be_value(data@.subrange(at as int, at + 4)),
{
    let hi: u32 = data[at] as u32 * 0x100_0000 + data[at + 1] as u32 * 0x1_0000;
    let lo: u32 = data[at + 2] as u32 * 0x100 + data[at + 3] as u32;
    proof {
        let b = data@.subrange(at as int, at + 4);
        reveal_with_fuel(be_value, 5);
        assert(b.drop_last() =~= b.subrange(0, 3));
        assert(b.drop_last().drop_last() =~= b.subrange(0, 2));
        assert(b.drop_last().drop_last().drop_last() =~= b.subrange(0, 1));
        assert(b.drop_last().drop_last().drop_last().drop_last() =~= Seq::<u8>::empty());
    }
    hi + lo
}

/// The number in the eight bytes from `at`.
pub(crate) fn read_be_u64(data: &[u8], at: usize) -> (n: u64)
    requires
        at + 8 <= data@.len(),
    ensures
        n as nat == be_value(data@.subrange(at as int, at + 8)),
{
    let len: usize = data.len();
    assert(at + 8 <= len);
    let hi: u64 = read_be_u32(data, at) as u64;
    let lo: u64 = read_be_u32(data, at + 4) as u64;
    proof {
        let b = data@.subrange(at as int, at + 8);
        let h = data@.subrange(at as int, at + 4);
        let l = data@.subrange(at + 4, at + 8);
        assert(b =~= h + l);
        lemma_be_value_concat(h, l);
        lemma_base256();
        assert(hi * 0x1_0000_0000 + lo <= u64::MAX) by {
            lemma_be_bytes_of_value(h);
            lemma_be_bytes_of_value(l);
        }
    }
    hi * 0x1_0000_0000 + lo
}

pub proof fn lemma_be_value_concat(h: Seq<u8>, l: Seq<u8>)
    ensures
        be_value(h + l) == be_value(h) * base256(l.len()) + be_value(l),
    decreases l.len(),
{
    if l.len() == 0 {
        assert(h + l =~= h);
        assert(be_value(h) * 1 == be_value(h));
    } else {
        lemma_be_value_concat(h, l.drop_last());
        assert((h + l).drop_last() =~= h + l.drop_last());
        let v = be_value(h);
        let p = base256((l.len() - 1) as nat);
        assert((h + l).last() == l.last());
        assert(v * (256 * p) == (v * p) * 256) by (nonlinear_arith);
        assert(base256(l.len()) == 256 * p);
        assert(v * base256(l.len()) == (v * p) * 256);
        let w = be_value(l.drop_last());
        assert(be_value(h + l.drop_last()) == v * p + w);
        assert(be_value(h + l) == (v * p + w) * 256 + l.last() as nat);
    }
}

// ── Hexadecimal ───────────────────────────────────────────────────────────────

/// The lower-case digit for a value below sixteen.
pub open spec fn hex_digit(v: int) -> char {
    if v < 10 {
        ('0' as u32 + v) as char
    } else {
        ('a' as u32 + v - 10) as char
    }
}

/// The value of a hexadecimal digit of either case.
pub open spec fn hex_value(c: char) -> int {
    if '0' <= c <= '9' {
        c as u32 - '0' as u32
    } else if 'a' <= c <= 'f' {
        c as u32 - 'a' as u32 + 10
    } else {
        c as u32 - 'A' as u32 + 10
    }
}

pub open spec fn all_hex(s: Seq<char>) -> bool {
    forall|i: int| 0 <= i < s.len() ==> is_ascii_hex_digit(#[trigger] s[i])
}

/// Two lower-case digits for each byte.
pub open spec fn hex_encoded(b: Seq<u8>) -> Seq<char> {
    Seq::new(
        2 * b.len(),
        |i: int|
            hex_digit(
                if i % 2 == 0 {
                    b[i / 2] as int / 16
                } else {
                    b[i / 2] as int % 16
                },
            ),
    )
}

/// One byte for each pair of digits; `None` unless `s` is digits only, an even number of them.
pub open spec fn hex_decoded(s: Seq<char>) -> Option<Seq<u8>> {
    if s.len() % 2 == 0 && all_hex(s) {
        Some(
            Seq::new(
                s.len() / 2,
                |i: int| (16 * hex_value(s[2 * i]) + hex_value(s[2 * i + 1])) as u8,
            ),
        )
    } else {
        None
    }
}

/// `hex_encoded` writes digits only, none of them a capital, and `hex_decoded` undoes it.
pub proof fn lemma_hex_round_trip(b: Seq<u8>)
    ensures
        hex_decoded(hex_encoded(b)) == Some(b),
        is_ascii_chars(hex_encoded(b)),
        ascii_lowered(hex_encoded(b)) == hex_encoded(b),
{
    let s = hex_encoded(b);
    assert forall|i: int| 0 <= i < s.len() implies is_ascii_hex_digit(#[trigger] s[i]) && !('A'
        <= s[i] <= 'Z') by {
        lemma_hex_digit(b[i / 2] as int / 16);
        lemma_hex_digit(b[i / 2] as int % 16);
    }
    let d = hex_decoded(s)->0;
    assert forall|i: int| 0 <= i < b.len() implies d[i] == b[i] by {
        assert((2 * i) / 2 == i && (2 * i + 1) / 2 == i);
        lemma_hex_digit(b[i] as int / 16);
        lemma_hex_digit(b[i] as int % 16);
        assert(s[2 * i] == hex_digit(b[i] as int / 16));
        assert(s[2 * i + 1] == hex_digit(b[i] as int % 16));
    }
    assert(d =~= b);
    assert(ascii_lowered(s) =~= s);
}

proof fn lemma_hex_digit(v: int)
    requires
        0 <= v < 16,
    ensures
        is_ascii_hex_digit(hex_digit(v)),
        !('A' <= hex_digit(v) <= 'Z'),
        hex_value(hex_digit(v)) == v,
{
}

/// Digits without a capital are the encoding of what they decode to.
pub proof fn lemma_hex_encode_decoded(s: Seq<char>)
    requires
        s.len() % 2 == 0,
        all_hex(s),
        forall|i: int| 0 <= i < s.len() ==> !('A' <= #[trigger] s[i] <= 'Z'),
    ensures
        hex_decoded(s) is Some,
        hex_decoded(s)->0.len() == s.len() / 2,
        hex_encoded(hex_decoded(s)->0) == s,
{
    let d = hex_decoded(s)->0;
    let e = hex_encoded(d);
    assert forall|i: int| 0 <= i < s.len() implies e[i] == s[i] by {
        let k = i / 2;
        assert(is_ascii_hex_digit(s[2 * k]) && is_ascii_hex_digit(s[2 * k + 1]));
        assert(!('A' <= s[2 * k] <= 'Z') && !('A' <= s[2 * k + 1] <= 'Z'));
        let h = hex_value(s[2 * k]);
        let l = hex_value(s[2 * k + 1]);
        assert(0 <= h < 16 && 0 <= l < 16);
        assert(d[k] as int == 16 * h + l);
        assert(hex_digit(h) == s[2 * k] && hex_digit(l) == s[2 * k + 1]);
        assert(i == 2 * k || i == 2 * k + 1);
    }
    assert(e =~= s);
}

/// `hex::encode`: two lower-case digits for each byte.
#[verifier::external_body]
pub(crate) fn hex_encode(b: &[u8]) -> (r: String)
    ensures
        r@ == hex_encoded(b@),
{
    hex::encode(b)
}

/// What `hex::decode` says of a text that it does not accept.
pub uninterp spec fn hex_error_text(s: Seq<char>) -> Seq<char>;

/// `hex::decode`: one byte for each pair of digits of either case; fails on an odd length
/// and on anything that is not a digit, with a text that says so.
#[verifier::external_body]
pub(crate) fn hex_decode(s: &str) -> (r: Result<Vec<u8>, String>)
    ensures
        r is Ok <==> hex_decoded(s@) is Some,
        r matches Ok(b) ==> hex_decoded(s@) == Some(b@),
        r matches Err(e) ==> e@ == hex_error_text(s@),
{
    match hex::decode(s) {
        Ok(b) => Ok(b),
        Err(e) => Err(e.to_string()),
    }
}

// ── Base64 ────────────────────────────────────────────────────────────────────

/// The two Base64 dialects in use.
#[derive(Clone, Copy, PartialEq, Eq, Structural)]
pub enum Base64 {
    /// `+` and `/`, padded with `=`.
    Standard,
    /// `-` and `_`, not padded.
    UrlSafeNoPad,
}

/// The symbol for a value below sixty-four.
pub open spec fn base64_symbol(kind: Base64, v: int) -> char {
    if v < 26 {
        ('A' as u32 + v) as char
    } else if v < 52 {
        ('a' as u32 + v - 26) as char
    } else if v < 62 {
        ('0' as u32 + v - 52) as char
    } else if v == 62 {
        match kind {
            Base64::Standard => '+',
            Base64::UrlSafeNoPad => '-',
        }
    } else {
        match kind {
            Base64::Standard => '/',
            Base64::UrlSafeNoPad => '_',
        }
    }
}

pub open spec fn base64_padding(kind: Base64, n: nat) -> Seq<char> {
    match kind {
        Base64::Standard => Seq::new(n, |i: int| '='),
        Base64::UrlSafeNoPad => Seq::empty(),
    }
}

/// Four symbols for each three bytes; two or three symbols and the padding for a rest of one
/// or two bytes.
pub open spec fn base64_encoded(kind: Base64, b: Seq<u8>) -> Seq<char>
    decreases b.len(),
{
    if b.len() == 0 {
        Seq::empty()
    } else if b.len() == 1 {
        seq![
            base64_symbol(kind, b[0] as int / 4),
            base64_symbol(kind, b[0] as int % 4 * 16),
        ] + base64_padding(kind, 2)
    } else if b.len() == 2 {
        seq![
            base64_symbol(kind, b[0] as int / 4),
            base64_symbol(kind, b[0] as int % 4 * 16 + b[1] as int / 16),
            base64_symbol(kind, b[1] as int % 16 * 4),
        ] + base64_padding(kind, 1)
    } else {
        seq![
            base64_symbol(kind, b[0] as int / 4),
            base64_symbol(kind, b[0] as int % 4 * 16 + b[1] as int / 16),
            base64_symbol(kind, b[1] as int % 16 * 4 + b[2] as int / 64),
            base64_symbol(kind, b[2] as int % 64),
        ] + base64_encoded(kind, b.skip(3))
    }
}

/// The bytes whose encoding is `s`, if there are any.
pub open spec fn base64_decoded(kind: Base64, s: Seq<char>) -> Option<Seq<u8>> {
    if exists|b: Seq<u8>| base64_encoded(kind, b) == s {
        Some(choose|b: Seq<u8>| base64_encoded(kind, b) == s)
    } else {
        None
    }
}

proof fn lemma_base64_symbol_injective(kind: Base64, v: int, w: int)
    requires
        0 <= v < 64,
        0 <= w < 64,
        base64_symbol(kind, v) == base64_symbol(kind, w),
    ensures
        v == w,
{
}

proof fn lemma_base64_symbol(kind: Base64, v: int)
    requires
        0 <= v < 64,
    ensures
        base64_symbol(kind, v) != '=',
        base64_symbol(kind, v) != '&',
        (base64_symbol(kind, v) as u32) < 0x80,
        !crate::text::is_white_space(base64_symbol(kind, v)),
{
}

/// The second value of an encoding, with zero bits where there is no second byte.
spec fn second_value(b: Seq<u8>) -> int {
    b[0] as int % 4 * 16 + if b.len() == 1 {
        0
    } else {
        b[1] as int / 16
    }
}

/// The third value of an encoding, with zero bits where there is no third byte.
spec fn third_value(b: Seq<u8>) -> int {
    b[1] as int % 16 * 4 + if b.len() == 2 {
        0
    } else {
        b[2] as int / 64
    }
}

/// What the first symbols of an encoding are.
proof fn lemma_base64_head(kind: Base64, b: Seq<u8>)
    requires
        b.len() > 0,
    ensures
        ({
            let e = base64_encoded(kind, b);
            &&& e.len() >= 2
            &&& e[0] == base64_symbol(kind, b[0] as int / 4)
            &&& e[1] == base64_symbol(kind, second_value(b))
            &&& b.len() == 1 ==> {
                ||| e.len() == 2
                ||| e[2] == '='
            }
            &&& b.len() >= 2 ==> e.len() >= 3 && e[2] == base64_symbol(kind, third_value(b))
            &&& b.len() == 2 ==> {
                ||| e.len() == 3
                ||| e[3] == '='
            }
            &&& b.len() >= 3 ==> {
                &&& e.len() >= 4
                &&& e[3] == base64_symbol(kind, b[2] as int % 64)
                &&& e.skip(4) == base64_encoded(kind, b.skip(3))
            }
        }),
{
    let e = base64_encoded(kind, b);
    if b.len() >= 3 {
        assert(e.skip(4) =~= base64_encoded(kind, b.skip(3)));
    }
}

/// Different bytes have different encodings.
pub proof fn lemma_base64_injective(kind: Base64, a: Seq<u8>, b: Seq<u8>)
    requires
        base64_encoded(kind, a) == base64_encoded(kind, b),
    ensures
        a == b,
    decreases a.len(),
{
    if a.len() == 0 || b.len() == 0 {
        if a.len() > 0 {
            lemma_base64_head(kind, a);
        }
        if b.len() > 0 {
            lemma_base64_head(kind, b);
        }
        assert(a =~= b);
    } else {
        lemma_base64_head(kind, a);
        lemma_base64_head(kind, b);
        lemma_base64_symbol_injective(kind, a[0] as int / 4, b[0] as int / 4);
        lemma_base64_symbol_injective(kind, second_value(a), second_value(b));
        assert(a[0] == b[0]);
        if a.len() >= 2 {
            lemma_base64_symbol(kind, third_value(a));
        }
        if b.len() >= 2 {
            lemma_base64_symbol(kind, third_value(b));
        }
        if a.len() >= 2 && b.len() >= 2 {
            lemma_base64_symbol_injective(kind, third_value(a), third_value(b));
            assert(a[1] == b[1]);
            if a.len() >= 3 {
                lemma_base64_symbol(kind, a[2] as int % 64);
            }
            if b.len() >= 3 {
                lemma_base64_symbol(kind, b[2] as int % 64);
            }
            if a.len() >= 3 && b.len() >= 3 {
                lemma_base64_symbol_injective(kind, a[2] as int % 64, b[2] as int % 64);
                assert(a[2] == b[2]);
                lemma_base64_injective(kind, a.skip(3), b.skip(3));
                assert(a =~= seq![a[0], a[1], a[2]] + a.skip(3));
                assert(b =~= seq![b[0], b[1], b[2]] + b.skip(3));
            }
        }
        assert(a =~= b);
    }
}

/// Decoding undoes encoding.
pub proof fn lemma_base64_round_trip(kind: Base64, b: Seq<u8>)
    ensures
        base64_decoded(kind, base64_encoded(kind, b)) == Some(b),
{
    let s = base64_encoded(kind, b);
    let d = choose|d: Seq<u8>| base64_encoded(kind, d) == s;
    assert(base64_encoded(kind, d) == s);
    lemma_base64_injective(kind, d, b);
}

/// An encoding is ASCII without white space and without `&`.
pub proof fn lemma_base64_chars(kind: Base64, b: Seq<u8>)
    ensures
        forall|i: int|
            0 <= i < base64_encoded(kind, b).len() ==> {
                let c = #[trigger] base64_encoded(kind, b)[i];
                &&& c != '&'
                &&& (c as u32) < 0x80
                &&& !crate::text::is_white_space(c)
                &&& kind == Base64::UrlSafeNoPad ==> c != '='
            },
        base64_encoded(kind, b).len() >= b.len(),
    decreases b.len(),
{
    let e = base64_encoded(kind, b);
    if b.len() > 2 {
        lemma_base64_chars(kind, b.skip(3));
        let rest = base64_encoded(kind, b.skip(3));
        lemma_base64_symbol(kind, b[0] as int / 4);
        lemma_base64_symbol(kind, b[0] as int % 4 * 16 + b[1] as int / 16);
        lemma_base64_symbol(kind, b[1] as int % 16 * 4 + b[2] as int / 64);
        lemma_base64_symbol(kind, b[2] as int % 64);
        assert forall|i: int| 0 <= i < e.len() implies {
            let c = #[trigger] e[i];
            &&& c != '&'
            &&& (c as u32) < 0x80
            &&& !crate::text::is_white_space(c)
            &&& kind == Base64::UrlSafeNoPad ==> c != '='
        } by {
            if i >= 4 {
                assert(e[i] == rest[i - 4]);
            }
        }
    } else if b.len() == 2 {
        lemma_base64_symbol(kind, b[0] as int / 4);
        lemma_base64_symbol(kind, b[0] as int % 4 * 16 + b[1] as int / 16);
        lemma_base64_symbol(kind, b[1] as int % 16 * 4);
    } else if b.len() == 1 {
        lemma_base64_symbol(kind, b[0] as int / 4);
        lemma_base64_symbol(kind, b[0] as int % 4 * 16);
    }
}

/// `base64::Engine::encode` of the engines `STANDARD` and `URL_SAFE_NO_PAD`.
#[verifier::external_body]
pub(crate) fn base64_encode(kind: Base64, b: &[u8]) -> (r: String)
    ensures
        r@ == base64_encoded(kind, b@),
{
    match kind {
        Base64::Standard => base64::engine::general_purpose::STANDARD.encode(b),
        Base64::UrlSafeNoPad => base64::engine::general_purpose::URL_SAFE_NO_PAD.encode(b),
    }
}

/// What `base64::Engine::decode` says of a text that it does not accept, with the engine
/// `URL_SAFE_NO_PAD` or with `STANDARD`.
pub uninterp spec fn base64_error_text(url_safe: bool, s: Seq<char>) -> Seq<char>;

/// `base64::Engine::decode` of the engines `STANDARD` and `URL_SAFE_NO_PAD`. Both are strict
/// on padding and on the unused bits of the last symbol, so they accept exactly what
/// `encode` writes; they fail on anything else, with a text that says why.
#[verifier::external_body]
pub(crate) fn base64_decode(kind: Base64, s: &str) -> (r: Result<Vec<u8>, String>)
    ensures
        r matches Ok(b) ==> base64_encoded(kind, b@) == s@,
        r is Err ==> forall|b: Seq<u8>| base64_encoded(kind, b) != s@,
        r matches Err(e) ==> e@ == base64_error_text(kind == Base64::UrlSafeNoPad, s@),
{
    let decoded = match kind {
        Base64::Standard => base64::engine::general_purpose::STANDARD.decode(s),
        Base64::UrlSafeNoPad => base64::engine::general_purpose::URL_SAFE_NO_PAD.decode(s),
    };
    match decoded {
        Ok(b) => Ok(b),
        Err(e) => Err(e.to_string()),
    }
}

// ── UUID text ─────────────────────────────────────────────────────────────────

/// Thirty-two digits in groups of 8, 4, 4, 4 and 12.
pub open spec fn uuid_groups(h: Seq<char>) -> Seq<char> {
    h.subrange(0, 8) + seq!['-'] + h.subrange(8, 12) + seq!['-'] + h.subrange(12, 16) + seq!['-']
        + h.subrange(16, 20) + seq!['-'] + h.subrange(20, 32)
}

/// The usual text of a UUID: lower-case digits in groups of 8, 4, 4, 4 and 12.
pub open spec fn uuid_text(b: Seq<u8>) -> Seq<char> {
    uuid_groups(hex_encoded(b))
}

/// The bytes of a UUID written in five groups.
pub open spec fn grouped_uuid(s: Seq<char>) -> Option<Seq<u8>> {
    if s.len() == 36 && s[8] == '-' && s[13] == '-' && s[18] == '-' && s[23] == '-' {
        hex_decoded(
            s.subrange(0, 8) + s.subrange(9, 13) + s.subrange(14, 18) + s.subrange(19, 23)
                + s.subrange(24, 36),
        )
    } else {
        None
    }
}

/// The bytes of a UUID written without hyphens, in groups, in groups between braces, or as a
/// URN.
pub open spec fn uuid_parsed(s: Seq<char>) -> Option<Seq<u8>> {
    if s.len() == 32 {
        hex_decoded(s)
    } else if s.len() == 36 {
        grouped_uuid(s)
    } else if s.len() == 38 && s[0] == '{' && s[37] == '}' {
        grouped_uuid(s.subrange(1, 37))
    } else if s.len() == 45 && ascii_lowered(s.take(9)) == "urn:uuid:"@ {
        grouped_uuid(s.skip(9))
    } else {
        None
    }
}

/// A parsed UUID has sixteen bytes.
pub proof fn lemma_uuid_parsed_len(s: Seq<char>)
    ensures
        uuid_parsed(s) matches Some(b) ==> b.len() == 16,
{
}

/// The digits in the groups are the digits, and what is between them are hyphens.
proof fn lemma_uuid_groups(h: Seq<char>)
    requires
        h.len() == 32,
    ensures
        ({
            let s = uuid_groups(h);
            &&& s.len() == 36
            &&& s[8] == '-' && s[13] == '-' && s[18] == '-' && s[23] == '-'
            &&& s.subrange(0, 8) + s.subrange(9, 13) + s.subrange(14, 18) + s.subrange(19, 23)
                + s.subrange(24, 36) == h
            &&& forall|i: int|
                0 <= i < 36 ==> #[trigger] s[i] == '-' || exists|k: int|
                    0 <= k < 32 && s[i] == #[trigger] h[k]
        }),
{
    let s = uuid_groups(h);
    assert(s.subrange(0, 8) =~= h.subrange(0, 8));
    assert(s.subrange(9, 13) =~= h.subrange(8, 12));
    assert(s.subrange(14, 18) =~= h.subrange(12, 16));
    assert(s.subrange(19, 23) =~= h.subrange(16, 20));
    assert(s.subrange(24, 36) =~= h.subrange(20, 32));
    assert(h.subrange(0, 8) + h.subrange(8, 12) + h.subrange(12, 16) + h.subrange(16, 20)
        + h.subrange(20, 32) =~= h);
    assert forall|i: int| 0 <= i < 36 implies #[trigger] s[i] == '-' || exists|k: int|
        0 <= k < 32 && s[i] == #[trigger] h[k] by {
        let k = if i < 8 {
            i
        } else if i < 13 {
            i - 1
        } else if i < 18 {
            i - 2
        } else if i < 23 {
            i - 3
        } else {
            i - 4
        };
        assert(s[i] == '-' || s[i] == h[k]);
    }
}

/// The usual text of a UUID is lower-case ASCII and parses back.
pub proof fn lemma_uuid_round_trip(b: Seq<u8>)
    requires
        b.len() == 16,
    ensures
        uuid_parsed(uuid_text(b)) == Some(b),
        is_ascii_chars(uuid_text(b)),
        ascii_lowered(uuid_text(b)) == uuid_text(b),
{
    let h = hex_encoded(b);
    let s = uuid_text(b);
    lemma_hex_round_trip(b);
    lemma_uuid_groups(h);
    assert forall|i: int| 0 <= i < s.len() implies (#[trigger] s[i] as u32) < 0x80 && !('A' <= s[i]
        <= 'Z') by {
        if s[i] != '-' {
            let k = choose|k: int| 0 <= k < 32 && s[i] == #[trigger] h[k];
            assert(ascii_lowered(h)[k] == h[k]);
        }
    }
    assert(ascii_lowered(s) =~= s);
}

/// What `uuid::Uuid::parse_str` says of a text that it does not accept.
pub uninterp spec fn uuid_error_text(s: Seq<char>) -> Seq<char>;

/// `uuid::Uuid::parse_str`: the bytes of a UUID in any of its four notations, with digits of
/// either case; fails on anything else, with a text that says why.
#[verifier::external_body]
pub(crate) fn uuid_parse(s: &str) -> (r: Result<[u8; 16], String>)
    ensures
        r is Ok <==> uuid_parsed(s@) is Some,
        r matches Ok(b) ==> uuid_parsed(s@) == Some(b@),
        r matches Err(e) ==> e@ == uuid_error_text(s@),
{
    match uuid::Uuid::parse_str(s) {
        Ok(id) => Ok(id.into_bytes()),
        Err(e) => Err(e.to_string()),
    }
}

/// `<uuid::Uuid as ToString>::to_string`: the usual text.
#[verifier::external_body]
pub(crate) fn uuid_to_string(b: [u8; 16]) -> (r: String)
    ensures
        r@ == uuid_text(b@),
{
    uuid::Uuid::from_bytes(b).to_string()
}

/// Sixteen bytes with the version and variant bits of a random UUID.
pub open spec fn random_uuid(b: Seq<u8>) -> bool {
    b.len() == 16 && b[6] / 16 == 4 && b[8] / 64 == 2
}

/// `uuid::Uuid::new_v4`: sixteen random bytes with the version and variant bits of a random
/// UUID.
#[verifier::external_body]
pub(crate) fn uuid_new_v4() -> (r: [u8; 16])
    ensures
        random_uuid(r@),
{
    uuid::Uuid::new_v4().into_bytes()
}

} // verus!
