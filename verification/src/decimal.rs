//! Decimal rendering of unsigned numbers, as it appears in addresses.

use vstd::prelude::*;
use vstd::string::*;

verus! {

/// The decimal digit for a value below ten.
pub open spec fn digit(d: int) -> char
    recommends
        0 <= d < 10,
{
    (d + 48) as u8 as char
}

/// The decimal rendering of `n`: no sign, no leading zeros, `"0"` for zero.
pub open spec fn decimal(n: nat) -> Seq<char>
    decreases n,
{
    if n < 10 {
        seq![digit(n as int)]
    } else {
        decimal(n / 10).push(digit((n % 10) as int))
    }
}

/// The number that a decimal rendering stands for, read digit by digit.
pub open spec fn decimal_value(text: Seq<char>) -> nat
    decreases text.len(),
{
    if text.len() == 0 {
        0
    } else {
        (10 * decimal_value(text.drop_last()) + (text.last() as int - 48)) as nat
    }
}

/// Whether every character of `text` is a decimal digit.
pub open spec fn all_digits(text: Seq<char>) -> bool {
    forall|i: int| 0 <= i < text.len() ==> '0' <= #[trigger] text[i] <= '9'
}

/// A decimal rendering is made of digits only, is never empty, and reads
/// back as the number it was made from.
pub proof fn lemma_decimal_round_trip(n: nat)
    ensures
        decimal(n).len() >= 1,
        all_digits(decimal(n)),
        decimal_value(decimal(n)) == n,
    decreases n,
{
    if n < 10 {
        let text = decimal(n);
        assert(text.drop_last() =~= Seq::<char>::empty());
        assert(decimal_value(text.drop_last()) == 0);
    } else {
        lemma_decimal_round_trip(n / 10);
        let text = decimal(n);
        assert(text.drop_last() =~= decimal(n / 10));
        assert(text.last() == digit((n % 10) as int));
    }
}

/// Two numbers with the same decimal rendering are the same number.
pub proof fn lemma_decimal_injective(a: nat, b: nat)
    requires
        decimal(a) == decimal(b),
    ensures
        a == b,
{
    lemma_decimal_round_trip(a);
    lemma_decimal_round_trip(b);
}

/// Calls `String::push`, which appends one character to the end.
#[verifier::external_body]
pub(crate) fn push_char(text: &mut String, c: char)
    ensures
        final(text)@ == old(text)@.push(c),
{
    text.push(c)
}

/// Appends the decimal rendering of `n` to `text`.
pub fn push_decimal(text: &mut String, n: u64)
    ensures
        final(text)@ == old(text)@ + decimal(n as nat),
    decreases n,
{
    if n >= 10 {
        push_decimal(text, n / 10);
    }
    let d: u8 = (n % 10) as u8;
    push_char(text, (d + 48) as char);
    proof {
        if n >= 10 {
            assert(final(text)@ =~= old(text)@ + decimal(n as nat));
        } else {
            assert(final(text)@ =~= old(text)@ + decimal(n as nat));
        }
    }
}

/// The decimal rendering of `n` as a string of its own.
pub fn to_decimal(n: u64) -> (text: String)
    ensures
        text@ == decimal(n as nat),
{
    let mut text = String::new();
    push_decimal(&mut text, n);
    assert(Seq::<char>::empty() + decimal(n as nat) =~= decimal(n as nat));
    text
}

} // verus!
