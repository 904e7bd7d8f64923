use vstd::prelude::*;

verus! {

/// The decimal digit character for `d` in 0..=9.
pub open spec fn dec_digit(d: int) -> char {
    if d == 0 {
        '0'
    } else if d == 1 {
        '1'
    } else if d == 2 {
        '2'
    } else if d == 3 {
        '3'
    } else if d == 4 {
        '4'
    } else if d == 5 {
        '5'
    } else if d == 6 {
        '6'
    } else if d == 7 {
        '7'
    } else if d == 8 {
        '8'
    } else {
        '9'
    }
}

/// Decimal digits of a nonnegative number, most significant first.
pub open spec fn spec_udec(n: nat) -> Seq<char>
    decreases n,
{
    if n < 10 {
        seq![dec_digit(n as int)]
    } else {
        spec_udec(n / 10).push(dec_digit((n % 10) as int))
    }
}

/// Decimal rendering of a signed number, with a leading minus sign when
/// negative.
pub open spec fn spec_idec(n: int) -> Seq<char> {
    if n < 0 {
        seq!['-'] + spec_udec((-n) as nat)
    } else {
        spec_udec(n as nat)
    }
}

/// A count of cents rendered as a whole amount with two decimals:
/// `1234` is `12.34`, `-3` is `-0.03`.
pub open spec fn spec_fixed2(cents: int) -> Seq<char> {
    if cents < 0 {
        seq!['-'] + spec_fixed2_nonneg((-cents) as nat)
    } else {
        spec_fixed2_nonneg(cents as nat)
    }
}

/// Two-decimal rendering of a nonnegative count of hundredths.
pub open spec fn spec_fixed2_nonneg(cents: nat) -> Seq<char> {
    spec_udec(cents / 100) + seq!['.', dec_digit(((cents / 10) % 10) as int), dec_digit(
        (cents % 10) as int,
    )]
}

/// One-decimal rendering of a nonnegative count of tenths: `15` is `1.5`.
pub open spec fn spec_fixed1(tenths: nat) -> Seq<char> {
    spec_udec(tenths / 10) + seq!['.', dec_digit((tenths % 10) as int)]
}

/// Relies on std's String::push_str: appends the slice to the string.
#[verifier::external_body]
pub(crate) fn push_str(s: &mut String, t: &str)
    ensures
        final(s)@ == old(s)@ + t@,
{
    s.push_str(t)
}

/// Relies on std's String::push: appends the character to the string.
#[verifier::external_body]
pub(crate) fn push_char(s: &mut String, c: char)
    ensures
        final(s)@ == old(s)@.push(c),
{
    s.push(c)
}

/// The character of one decimal digit.
fn digit_char(d: u64) -> (c: char)
    requires
        d < 10,
    ensures
        c == dec_digit(d as int),
{
    match d {
        0 => '0',
        1 => '1',
        2 => '2',
        3 => '3',
        4 => '4',
        5 => '5',
        6 => '6',
        7 => '7',
        8 => '8',
        _ => '9',
    }
}

/// Append the decimal rendering of `n`.
pub fn push_udec(s: &mut String, n: u64)
    ensures
        final(s)@ == old(s)@ + spec_udec(n as nat),
    decreases n,
{
    if n < 10 {
        push_char(s, digit_char(n));
        proof {
            assert(s@ =~= old(s)@ + spec_udec(n as nat));
        }
    } else {
        push_udec(s, n / 10);
        push_char(s, digit_char(n % 10));
        proof {
            assert(spec_udec(n as nat) == spec_udec((n as nat) / 10).push(
                dec_digit(((n as nat) % 10) as int),
            ));
            assert(s@ =~= old(s)@ + spec_udec(n as nat));
        }
    }
}

/// Append the decimal rendering of a signed number.
pub fn push_idec(s: &mut String, n: i64)
    ensures
        final(s)@ == old(s)@ + spec_idec(n as int),
{
    if n < 0 {
        push_char(s, '-');
        let mag: u64 = (-(n as i128)) as u64;
        push_udec(s, mag);
        proof {
            assert(s@ =~= old(s)@ + spec_idec(n as int));
        }
    } else {
        push_udec(s, n as u64);
    }
}

/// Append a two-decimal rendering of a signed count of hundredths.
pub fn push_fixed2(s: &mut String, cents: i64)
    ensures
        final(s)@ == old(s)@ + spec_fixed2(cents as int),
{
    let mag: u64 = if cents < 0 {
        push_char(s, '-');
        (-(cents as i128)) as u64
    } else {
        cents as u64
    };
    push_udec(s, mag / 100);
    push_char(s, '.');
    push_char(s, digit_char((mag / 10) % 10));
    push_char(s, digit_char(mag % 10));
    proof {
        assert(s@ =~= old(s)@ + spec_fixed2(cents as int));
    }
}

/// Append a one-decimal rendering of a count of tenths.
pub fn push_fixed1(s: &mut String, tenths: u64)
    ensures
        final(s)@ == old(s)@ + spec_fixed1(tenths as nat),
{
    push_udec(s, tenths / 10);
    push_char(s, '.');
    push_char(s, digit_char(tenths % 10));
    proof {
        assert(s@ =~= old(s)@ + spec_fixed1(tenths as nat));
    }
}

} // verus!
