//! Numbers as text: whole numbers in decimal, and counts of millionths as a
//! decimal fraction with no digit more than is needed.
use vstd::prelude::*;

verus! {

/// The character of one decimal digit.
pub open spec fn digit_char(d: nat) -> char
    recommends
        d < 10,
{
    ((48 + d) as u8) as char
}

/// A whole number in decimal, without leading zeros.
pub open spec fn decimal_text(n: nat) -> Seq<char>
    decreases n,
{
    if n < 10 {
        seq![digit_char(n)]
    } else {
        decimal_text(n / 10).push(digit_char(n % 10))
    }
}

/// The last `width` decimal digits of `n`, zeros in front where `n` is short.
pub open spec fn padded_text(n: nat, width: nat) -> Seq<char>
    decreases width,
{
    if width == 0 {
        Seq::<char>::empty()
    } else {
        padded_text(n / 10, (width - 1) as nat).push(digit_char(n % 10))
    }
}

/// The digits behind the decimal point of a fraction of `width` digits,
/// without trailing zeros; empty where the fraction is zero.
pub open spec fn fraction_text(frac: nat, width: nat) -> Seq<char>
    decreases width,
{
    if width == 0 {
        Seq::<char>::empty()
    } else if frac % 10 == 0 {
        fraction_text(frac / 10, (width - 1) as nat)
    } else {
        padded_text(frac, width)
    }
}

/// A count of millionths as a decimal number: the whole part, and behind a
/// point the fraction where there is one. Ten millions read `10`, a hundred
/// thousand reads `0.1`.
pub open spec fn micros_text(micros: nat) -> Seq<char> {
    let whole = decimal_text(micros / 1_000_000);
    let frac = fraction_text(micros % 1_000_000, 6);
    if frac.len() == 0 {
        whole
    } else {
        whole.push('.') + frac
    }
}

/// `String::push` of std: the character is added at the end and nothing
/// else changes.
#[verifier::external_body]
pub(crate) fn push_char(out: &mut String, c: char)
    ensures
        final(out)@ == old(out)@.push(c),
{
    out.push(c)
}

/// The character of the decimal digit `d`.
fn digit(d: u8) -> (c: char)
    requires
        d < 10,
    ensures
        c == digit_char(d as nat),
{
    (48 + d) as char
}

/// Appends `n` in decimal.
pub fn push_decimal(out: &mut String, n: u128)
    ensures
        final(out)@ == old(out)@ + decimal_text(n as nat),
    decreases n,
{
    if n >= 10 {
        push_decimal(out, n / 10);
    }
    push_char(out, digit((n % 10) as u8));
}

/// Appends the last `width` digits of `n`.
pub fn push_padded(out: &mut String, n: u64, width: u8)
    ensures
        final(out)@ == old(out)@ + padded_text(n as nat, width as nat),
    decreases width,
{
    if width > 0 {
        push_padded(out, n / 10, width - 1);
        push_char(out, digit((n % 10) as u8));
    }
}

/// Appends a count of millionths as a decimal number.
pub fn push_micros(out: &mut String, micros: u64)
    ensures
        final(out)@ == old(out)@ + micros_text(micros as nat),
{
    push_decimal(out, (micros / 1_000_000) as u128);
    let mut frac: u64 = micros % 1_000_000;
    let mut width: u8 = 6;
    while width > 0 && frac % 10 == 0
        invariant
            width <= 6,
            fraction_text(frac as nat, width as nat) == fraction_text(
                (micros % 1_000_000) as nat,
                6,
            ),
        decreases width,
    {
        frac = frac / 10;
        width = width - 1;
    }
    if width > 0 {
        push_char(out, '.');
        push_padded(out, frac, width);
    }
}

} // verus!
