//! Decimal rendering of integers and small helpers for building strings.

use vstd::prelude::*;

verus! {

/// `String::push` of the standard library appends one character to the string
/// and leaves everything before it as it was.
pub assume_specification[ std::string::String::push ](s: &mut std::string::String, ch: char)
    ensures
        final(s)@ == old(s)@.push(ch),
;

/// The character that writes the digit `d`.
pub open spec fn digit_char(d: nat) -> char {
    if d == 0 {
        '0'
    } else if d == 1 {
        '1'
    } else if d == 2 {
        '2'
    } else if d == 3 {
        '3'
    } else if d == 4 {
        '4'
    } else if d == 5 {
        '5'
    } else if d == 6 {
        '6'
    } else if d == 7 {
        '7'
    } else if d == 8 {
        '8'
    } else {
        '9'
    }
}

/// Decimal notation of `n`: no sign, no leading zero, `"0"` for zero.
pub open spec fn decimal_digits(n: nat) -> Seq<char>
    decreases n,
{
    if n < 10 {
        seq![digit_char(n)]
    } else {
        decimal_digits(n / 10).push(digit_char(n % 10))
    }
}

/// Decimal notation of a signed number: a minus sign in front of negative ones.
pub open spec fn signed_decimal_digits(n: int) -> Seq<char> {
    if n < 0 {
        seq!['-'] + decimal_digits((-n) as nat)
    } else {
        decimal_digits(n as nat)
    }
}

fn digit(d: u64) -> (c: char)
    requires
        d < 10,
    ensures
        c == digit_char(d as nat),
{
    match d {
        0 => '0',
        1 => '1',
        2 => '2',
        3 => '3',
        4 => '4',
        5 => '5',
        6 => '6',
        7 => '7',
        8 => '8',
        _ => '9',
    }
}

/// Appends the decimal notation of `n` to `out`.
pub fn push_decimal(out: &mut String, n: u64)
    ensures
        final(out)@ == old(out)@ + decimal_digits(n as nat),
{
    let mut low: Vec<char> = Vec::new();
    let mut rest: u64 = n;
    while rest >= 10
        invariant
            decimal_digits(n as nat) == decimal_digits(rest as nat) + low@.reverse(),
        decreases rest,
    {
        let ghost before = low@;
        low.push(digit(rest % 10));
        assert(low@.reverse() =~= seq![digit_char((rest % 10) as nat)] + before.reverse());
        assert(decimal_digits(rest as nat) + before.reverse() =~= decimal_digits(
            (rest / 10) as nat,
        ) + low@.reverse());
        rest = rest / 10;
    }
    let ghost before = low@;
    low.push(digit(rest));
    assert(low@.reverse() =~= decimal_digits(rest as nat) + before.reverse());
    let mut i: usize = low.len();
    while i > 0
        invariant
            i <= low.len(),
            out@ == old(out)@ + low@.reverse().subrange(0, low.len() - i),
        decreases i,
    {
        i = i - 1;
        out.push(low[i]);
        assert(out@ =~= old(out)@ + low@.reverse().subrange(0, low.len() - i));
    }
    assert(low@.reverse().subrange(0, low.len() as int) =~= low@.reverse());
}

/// Appends the decimal notation of a signed number to `out`.
pub fn push_signed_decimal(out: &mut String, n: i64)
    ensures
        final(out)@ == old(out)@ + signed_decimal_digits(n as int),
{
    if n < 0 {
        out.push('-');
        let magnitude: u64 = (-(n + 1)) as u64 + 1;
        push_decimal(out, magnitude);
        assert(out@ =~= old(out)@ + signed_decimal_digits(n as int));
    } else {
        push_decimal(out, n as u64);
    }
}

/// Decimal notation of `n` as a string of its own.
pub fn decimal(n: u64) -> (s: String)
    ensures
        s@ == decimal_digits(n as nat),
{
    let mut s = String::new();
    push_decimal(&mut s, n);
    assert(s@ =~= decimal_digits(n as nat));
    s
}

} // verus!
