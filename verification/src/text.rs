//! Small text utilities the bridge builds its tokens and messages from:
//! decimal rendering of integers, character substitution, appending.

use vstd::prelude::*;
use vstd::string::*;

verus! {

/// `String::push` appends the one character it is given to the end of the
/// string and leaves the rest as it was.
pub assume_specification[ String::push ](s: &mut String, ch: char)
    ensures
        final(s)@ == old(s)@.push(ch),
;

/// The character a dataset path character becomes in a suggested file name:
/// a slash or a space turns into an underscore, anything else stays.
pub open spec fn underscored_char(c: char) -> char {
    if c == '/' || c == ' ' {
        '_'
    } else {
        c
    }
}

/// `s` with every slash and every space replaced by an underscore.
pub open spec fn underscored(s: Seq<char>) -> Seq<char> {
    Seq::new(s.len(), |i: int| underscored_char(s[i]))
}

/// Replaces every slash and every space of `s` by an underscore.
pub fn replace_separators(s: &str) -> (out: String)
    ensures
        out@ == underscored(s@),
{
    let mut out = String::new();
    for c in it: s.chars()
        invariant
            it.seq() == s@,
            out@ == underscored(s@.take(it.index() as int)),
    {
        if c == '/' || c == ' ' {
            out.push('_');
        } else {
            out.push(c);
        }
    }
    out
}

/// The character that stands for the decimal digit `d`.
pub open spec fn digit_char(d: int) -> char {
    if d == 0 {
        '0'
    } else if d == 1 {
        '1'
    } else if d == 2 {
        '2'
    } else if d == 3 {
        '3'
    } else if d == 4 {
        '4'
    } else if d == 5 {
        '5'
    } else if d == 6 {
        '6'
    } else if d == 7 {
        '7'
    } else if d == 8 {
        '8'
    } else {
        '9'
    }
}

/// The decimal digits of `n`, most significant first, without leading
/// zeros; zero is the single digit `0`.
pub open spec fn decimal_digits(n: nat) -> Seq<char>
    decreases n,
{
    if n < 10 {
        seq![digit_char(n as int)]
    } else {
        decimal_digits(n / 10).push(digit_char((n % 10) as int))
    }
}

/// The decimal text of an integer: a minus sign for a negative number,
/// then the digits of its magnitude.
pub open spec fn decimal_text(v: int) -> Seq<char> {
    if v < 0 {
        seq!['-'] + decimal_digits((-v) as nat)
    } else {
        decimal_digits(v as nat)
    }
}

fn digit_to_char(d: u32) -> (c: char)
    requires
        d < 10,
    ensures
        c == digit_char(d as int),
{
    if d == 0 {
        '0'
    } else if d == 1 {
        '1'
    } else if d == 2 {
        '2'
    } else if d == 3 {
        '3'
    } else if d == 4 {
        '4'
    } else if d == 5 {
        '5'
    } else if d == 6 {
        '6'
    } else if d == 7 {
        '7'
    } else if d == 8 {
        '8'
    } else {
        '9'
    }
}

fn push_decimal_digits(out: &mut String, n: u32)
    ensures
        final(out)@ == old(out)@ + decimal_digits(n as nat),
    decreases n,
{
    if n >= 10 {
        push_decimal_digits(out, n / 10);
    }
    out.push(digit_to_char(n % 10));
}

/// Renders `v` in decimal, as `i32`'s own text form does.
pub fn i32_to_decimal(v: i32) -> (out: String)
    ensures
        out@ == decimal_text(v as int),
{
    let mut out = String::new();
    if v < 0 {
        out.push('-');
        let magnitude: i64 = -(v as i64);
        push_decimal_digits(&mut out, magnitude as u32);
    } else {
        push_decimal_digits(&mut out, v as u32);
    }
    out
}

/// The text `head` followed by the text `tail`.
pub fn append_text(head: &str, tail: &str) -> (out: String)
    ensures
        out@ == head@ + tail@,
{
    let mut out = head.to_owned();
    out.append(tail);
    out
}

} // verus!
