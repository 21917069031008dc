//! Decimal numerals and the numbered keys and values built from them.

use vstd::prelude::*;
use vstd::string::StringSliceAdditionalSpecFns;

verus! {

/// The ASCII byte of the decimal digit `d`.
pub open spec fn digit_byte(d: nat) -> u8 {
    (48 + d % 10) as u8
}

/// The decimal numeral of `n` in ASCII, without leading zeros.
pub open spec fn decimal(n: nat) -> Seq<u8>
    decreases n,
{
    if n < 10 {
        seq![digit_byte(n)]
    } else {
        decimal(n / 10).push(digit_byte(n))
    }
}

/// A numeral is never empty, and its last byte is the last digit.
pub proof fn lemma_decimal_shape(n: nat)
    ensures
        decimal(n).len() >= 1,
        decimal(n).last() == digit_byte(n),
        n >= 10 ==> decimal(n).len() >= 2,
    decreases n,
{
    if n >= 10 {
        lemma_decimal_shape(n / 10);
    }
}

/// Distinct numbers have distinct numerals.
pub proof fn lemma_decimal_injective(a: nat, b: nat)
    requires
        decimal(a) == decimal(b),
    ensures
        a == b,
    decreases a,
{
    lemma_decimal_shape(a);
    lemma_decimal_shape(b);
    if a >= 10 && b >= 10 {
        assert(decimal(a).drop_last() == decimal(a / 10));
        assert(decimal(b).drop_last() == decimal(b / 10));
        lemma_decimal_injective(a / 10, b / 10);
    }
}

/// Appends the decimal numeral of `n` to `out`.
pub fn push_decimal(out: &mut Vec<u8>, n: u32)
    ensures
        final(out)@ == old(out)@ + decimal(n as nat),
    decreases n,
{
    if n >= 10 {
        push_decimal(out, n / 10);
    }
    out.push(48 + (n % 10) as u8);
    assert(final(out)@ =~= old(out)@ + decimal(n as nat));
}

/// The bytes of `prefix` followed by the decimal numeral of `n`
/// (`numbered("batch_key_", 3)` is `batch_key_3`).
pub fn numbered(prefix: &str, n: u32) -> (r: Vec<u8>)
    ensures
        r@ == prefix.spec_bytes() + decimal(n as nat),
{
    let mut out = vstd::slice::slice_to_vec(prefix.as_bytes());
    push_decimal(&mut out, n);
    out
}

/// Two numbered byte strings with one prefix are equal only for equal numbers.
pub proof fn lemma_numbered_distinct(prefix: Seq<u8>, a: nat, b: nat)
    requires
        a != b,
    ensures
        prefix + decimal(a) != prefix + decimal(b),
{
    if prefix + decimal(a) == prefix + decimal(b) {
        assert(decimal(a) == (prefix + decimal(a)).subrange(prefix.len() as int, (prefix + decimal(a)).len() as int));
        assert(decimal(b) == (prefix + decimal(b)).subrange(prefix.len() as int, (prefix + decimal(b)).len() as int));
        lemma_decimal_injective(a, b);
    }
}

} // verus!
