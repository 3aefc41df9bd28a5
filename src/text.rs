use vstd::prelude::*;

verus! {

/// The character of a decimal digit.
pub open spec fn digit_char(d: nat) -> char {
    if d == 0 { '0' }
    else if d == 1 { '1' }
    else if d == 2 { '2' }
    else if d == 3 { '3' }
    else if d == 4 { '4' }
    else if d == 5 { '5' }
    else if d == 6 { '6' }
    else if d == 7 { '7' }
    else if d == 8 { '8' }
    else { '9' }
}

/// The decimal notation of `n`, without leading zeros.
pub open spec fn decimal(n: nat) -> Seq<char>
    decreases n,
{
    if n < 10 {
        seq![digit_char(n)]
    } else {
        decimal(n / 10).push(digit_char(n % 10))
    }
}

/// The last `width` decimal digits of `n`, padded with leading zeros.
pub open spec fn padded(n: nat, width: nat) -> Seq<char>
    decreases width,
{
    if width == 0 {
        Seq::empty()
    } else {
        padded(n / 10, (width - 1) as nat).push(digit_char(n % 10))
    }
}

/// `a / b` rounded to the nearest integer, halves rounded up.
pub open spec fn round_div(a: nat, b: nat) -> nat
    recommends
        b > 0,
{
    (a + b / 2) / b
}

/// The fixed-point notation of a number given in units of a tenth, hundredth, ...:
/// `scaled / 10^places` written with exactly `places` digits after the point.
pub open spec fn fixed_point(scaled: nat, places: nat) -> Seq<char> {
    if places == 0 {
        decimal(scaled)
    } else {
        decimal(scaled / pow10(places)) + seq!['.'] + padded(scaled % pow10(places), places)
    }
}

pub open spec fn pow10(k: nat) -> nat
    decreases k,
{
    if k == 0 { 1 } else { 10 * pow10((k - 1) as nat) }
}

/// Relies on `String::push`: appends one character.
#[verifier::external_body]
pub(crate) fn push_char(s: &mut String, c: char)
    ensures
        final(s)@ == old(s)@.push(c),
{
    s.push(c)
}

pub(crate) fn digit_of(d: u8) -> (c: char)
    requires
        d < 10,
    ensures
        c == digit_char(d as nat),
{
    match d {
        0 => '0',
        1 => '1',
        2 => '2',
        3 => '3',
        4 => '4',
        5 => '5',
        6 => '6',
        7 => '7',
        8 => '8',
        _ => '9',
    }
}

/// Appends the decimal notation of `n`.
pub fn push_decimal(s: &mut String, n: u128)
    ensures
        final(s)@ == old(s)@ + decimal(n as nat),
    decreases n,
{
    if n >= 10 {
        push_decimal(s, n / 10);
    }
    let c = digit_of((n % 10) as u8);
    push_char(s, c);
    assert(final(s)@ =~= old(s)@ + decimal(n as nat));
}

/// Appends the last `width` digits of `n`, padded with zeros.
pub fn push_padded(s: &mut String, n: u128, width: u8)
    ensures
        final(s)@ == old(s)@ + padded(n as nat, width as nat),
    decreases width,
{
    if width > 0 {
        push_padded(s, n / 10, width - 1);
        let c = digit_of((n % 10) as u8);
        push_char(s, c);
    }
    assert(final(s)@ =~= old(s)@ + padded(n as nat, width as nat));
}

/// Appends `scaled / 10^places` in fixed-point notation.
pub fn push_fixed(s: &mut String, scaled: u128, places: u8)
    requires
        places <= 6,
    ensures
        final(s)@ == old(s)@ + fixed_point(scaled as nat, places as nat),
{
    if places == 0 {
        push_decimal(s, scaled);
    } else {
        let mut p: u128 = 1;
        let mut k: u8 = 0;
        while k < places
            invariant
                k <= places <= 6,
                p == pow10(k as nat),
                1 <= p <= 1_000_000,
            decreases places - k,
        {
            assert(pow10((k + 1) as nat) == 10 * pow10(k as nat));
            p = p * 10;
            k = k + 1;
            assert(p <= 1_000_000) by {
                lemma_pow10_bound(k as nat);
            }
        }
        push_decimal(s, scaled / p);
        push_char(s, '.');
        push_padded(s, scaled % p, places);
    }
    assert(final(s)@ =~= old(s)@ + fixed_point(scaled as nat, places as nat));
}

proof fn lemma_pow10_bound(k: nat)
    requires
        k <= 6,
    ensures
        pow10(k) <= 1_000_000,
{
    reveal_with_fuel(pow10, 7);
}

/// The decimal notation of `n`, with a minus sign when negative.
pub open spec fn signed_decimal(n: int) -> Seq<char> {
    if n < 0 { seq!['-'] + decimal((-n) as nat) } else { decimal(n as nat) }
}

/// Appends the decimal notation of `n`, with its sign.
pub fn push_signed(s: &mut String, n: i128)
    requires
        n > i128::MIN,
    ensures
        final(s)@ == old(s)@ + signed_decimal(n as int),
{
    if n < 0 {
        push_char(s, '-');
        push_decimal(s, (-n) as u128);
    } else {
        push_decimal(s, n as u128);
    }
    assert(final(s)@ =~= old(s)@ + signed_decimal(n as int));
}

} // verus!
