//! Building strings: what `String::push` and `String::pop` do, and numbers in
//! decimal.

use vstd::prelude::*;

verus! {

/// `String::push` appends one character.
pub assume_specification[ String::push ](s: &mut String, c: char)
    ensures
        final(s)@ == old(s)@.push(c),
;

/// `String::pop` removes the last character and returns it, or returns `None`
/// and leaves an empty string as it is.
pub assume_specification[ String::pop ](s: &mut String) -> (last: Option<char>)
    ensures
        old(s)@.len() == 0 ==> last.is_none() && final(s)@ == old(s)@,
        old(s)@.len() > 0 ==> last == Some(old(s)@.last()) && final(s)@ == old(s)@.drop_last(),
;

/// The character of a decimal digit.
pub open spec fn digit(d: u8) -> char {
    (48u8 + d) as char
}

/// A number in decimal, without leading zeros.
pub open spec fn decimal(n: u32) -> Seq<char>
    decreases n,
{
    if n < 10 {
        seq![digit(n as u8)]
    } else {
        decimal(n / 10).push(digit((n % 10) as u8))
    }
}

/// A number in decimal, with spaces before it where it has fewer than four
/// digits, so that it takes at least four characters.
pub open spec fn decimal_4(n: u32) -> Seq<char> {
    if n < 10 {
        seq![' ', ' ', ' '] + decimal(n)
    } else if n < 100 {
        seq![' ', ' '] + decimal(n)
    } else if n < 1000 {
        seq![' '] + decimal(n)
    } else {
        decimal(n)
    }
}

/// Appends a number in decimal.
pub fn push_decimal(s: &mut String, n: u32)
    ensures
        final(s)@ == old(s)@ + decimal(n),
    decreases n,
{
    if n >= 10 {
        push_decimal(s, n / 10);
    }
    let d: u8 = (n % 10) as u8;
    s.push((48u8 + d) as char);
    assert(s@ =~= old(s)@ + decimal(n));
}

/// Appends a number in decimal, padded with spaces to four characters.
pub fn push_decimal_4(s: &mut String, n: u32)
    ensures
        final(s)@ == old(s)@ + decimal_4(n),
{
    if n < 1000 {
        s.push(' ');
    }
    if n < 100 {
        s.push(' ');
    }
    if n < 10 {
        s.push(' ');
    }
    push_decimal(s, n);
    assert(s@ =~= old(s)@ + decimal_4(n));
}

} // verus!
