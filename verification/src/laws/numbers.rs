//! Numbers in text and in bytes.

use crate::clock::signed_ms;
use crate::encoding::{be_bytes, be_value};
use crate::text::{
    all_digits, decimal, digit, digits_value, is_ascii_digit, parsed_number, parsed_u64,
    signed_decimal,
};
use vstd::prelude::*;

verus! {

/// What is written in decimal is digits, and they write the number.
pub proof fn lemma_decimal(n: nat)
    ensures
        decimal(n).len() > 0,
        all_digits(decimal(n)),
        digits_value(decimal(n)) == n,
        n > 0 ==> decimal(n)[0] != '0',
    decreases n,
{
    let s = decimal(n);
    if n < 10 {
        assert(s.last() == digit(n));
        assert(s.drop_last() =~= Seq::empty());
        assert(digits_value(s.drop_last()) == 0);
    } else {
        lemma_decimal(n / 10);
        assert(s.drop_last() =~= decimal(n / 10));
        assert(s.last() == digit(n % 10));
        assert(s[0] == decimal(n / 10)[0]);
    }
}

/// A number that was written in decimal is read back, and is written without a needless zero in
/// front.
pub proof fn law_decimal_is_read_back(n: nat)
    ensures
        parsed_number(decimal(n)) == Some(n),
        n <= u64::MAX ==> parsed_u64(decimal(n)) == Some(n as u64),
        n > 0 ==> decimal(n)[0] != '0',
        n == 0 ==> decimal(n) == seq!['0'],
{
    lemma_decimal(n);
    assert(is_ascii_digit(decimal(n)[0]));
}

/// Different numbers are written differently, with or without a sign.
pub proof fn law_decimals_differ(m: int, n: int)
    requires
        m != n,
    ensures
        signed_decimal(m) != signed_decimal(n),
        m >= 0 && n >= 0 ==> decimal(m as nat) != decimal(n as nat),
{
    let a = if m < 0 {
        (-m) as nat
    } else {
        m as nat
    };
    let b = if n < 0 {
        (-n) as nat
    } else {
        n as nat
    };
    lemma_decimal(a);
    lemma_decimal(b);
    assert(is_ascii_digit(decimal(a)[0]));
    assert(is_ascii_digit(decimal(b)[0]));
    if m < 0 {
        assert(signed_decimal(m)[0] == '-');
        assert(signed_decimal(m).drop_first() =~= decimal(a));
    }
    if n < 0 {
        assert(signed_decimal(n)[0] == '-');
        assert(signed_decimal(n).drop_first() =~= decimal(b));
    }
}

/// The bytes of a number stand with the most significant first.
pub proof fn law_bytes_are_big_endian(n: u32, a: u8, b: u8)
    ensures
        be_bytes(n as nat, 4) == seq![
            (n / 0x100_0000) as u8,
            (n / 0x1_0000 % 0x100) as u8,
            (n / 0x100 % 0x100) as u8,
            (n % 0x100) as u8,
        ],
        be_value(seq![a, b]) == 0x100 * a + b,
{
    reveal_with_fuel(be_bytes, 5);
    reveal_with_fuel(be_value, 3);
    assert(seq![a, b].drop_last() =~= seq![a]);
    assert(seq![a].drop_last() =~= Seq::<u8>::empty());
}

/// A time that is shown or kept never runs ahead of the clock, and a later one never comes before
/// an earlier one.
pub proof fn law_times_keep_their_order(a: u64, b: u64)
    requires
        a <= b,
    ensures
        signed_ms(a) <= signed_ms(b),
        0 <= signed_ms(a) <= a,
        a <= i64::MAX ==> signed_ms(a) == a,
{
}

} // verus!
