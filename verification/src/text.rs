//! Verified construction of the human-readable event strings.
//!
//! Everything here works over `Vec<char>`; the single trusted step is the
//! final conversion of the collected characters into a `String`.

use vstd::prelude::*;

verus! {

/// The character of a single decimal digit.
pub open spec fn decimal_digit(d: nat) -> char {
    if d == 0 {
        '0'
    } else if d == 1 {
        '1'
    } else if d == 2 {
        '2'
    } else if d == 3 {
        '3'
    } else if d == 4 {
        '4'
    } else if d == 5 {
        '5'
    } else if d == 6 {
        '6'
    } else if d == 7 {
        '7'
    } else if d == 8 {
        '8'
    } else {
        '9'
    }
}

/// The decimal numeral of `n`, most significant digit first.
pub open spec fn decimal(n: nat) -> Seq<char>
    decreases n,
{
    if n < 10 {
        seq![decimal_digit(n)]
    } else {
        decimal(n / 10) + seq![decimal_digit(n % 10)]
    }
}

fn digit_char(d: u16) -> (c: char)
    requires
        d < 10,
    ensures
        c == decimal_digit(d as nat),
{
    match d {
        0 => '0',
        1 => '1',
        2 => '2',
        3 => '3',
        4 => '4',
        5 => '5',
        6 => '6',
        7 => '7',
        8 => '8',
        _ => '9',
    }
}

/// Appends the decimal numeral of `n` to `out`.
pub fn push_decimal(out: &mut Vec<char>, n: u16)
    ensures
        final(out)@ == old(out)@ + decimal(n as nat),
    decreases n,
{
    if n >= 10 {
        push_decimal(out, n / 10);
    }
    let c = digit_char(n % 10);
    out.push(c);
    proof {
        assert(out@ =~= old(out)@ + decimal(n as nat));
    }
}

/// Appends every character of `s` to `out`, in order.
pub fn push_str_chars(out: &mut Vec<char>, s: &str)
    ensures
        final(out)@ == old(out)@ + s@,
{
    for c in it: s.chars()
        invariant
            it.seq() == s@,
            out@ == old(out)@ + it.seq().take(it.index() as int),
    {
        out.push(c);
        proof {
            assert(out@ =~= old(out)@ + it.seq().take(it.index() as int + 1));
        }
    }
    proof {
        assert(out@ =~= old(out)@ + s@);
    }
}

/// Relies on `String::from_iter` for `char` items: the returned string holds
/// exactly the characters of `v`, in order.
#[verifier::external_body]
fn chars_to_string(v: Vec<char>) -> (s: String)
    ensures
        s@ == v@,
{
    String::from_iter(v)
}

/// The concatenation of a name and a fixed suffix, as a `String`.
pub fn join_name_suffix(name: &str, suffix: &str) -> (r: String)
    ensures
        r@ == name@ + suffix@,
{
    let mut v: Vec<char> = Vec::new();
    push_str_chars(&mut v, name);
    push_str_chars(&mut v, suffix);
    proof {
        assert(v@ =~= name@ + suffix@);
    }
    chars_to_string(v)
}

/// A name, an infix, a decimal number and a suffix, joined into a `String`.
pub fn join_name_num(name: &str, mid: &str, n: u16, suffix: &str) -> (r: String)
    ensures
        r@ == name@ + mid@ + decimal(n as nat) + suffix@,
{
    let mut v: Vec<char> = Vec::new();
    push_str_chars(&mut v, name);
    push_str_chars(&mut v, mid);
    push_decimal(&mut v, n);
    push_str_chars(&mut v, suffix);
    proof {
        assert(v@ =~= name@ + mid@ + decimal(n as nat) + suffix@);
    }
    chars_to_string(v)
}

} // verus!
