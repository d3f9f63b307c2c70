//! Plain-text building blocks: decimal numbers, euro amounts and XML escaping.

use vstd::prelude::*;

verus! {

/// The character of the decimal digit `d` (meaningful for `d < 10`).
pub open spec fn digit_char(d: nat) -> char {
    if d == 0 {
        '0'
    } else if d == 1 {
        '1'
    } else if d == 2 {
        '2'
    } else if d == 3 {
        '3'
    } else if d == 4 {
        '4'
    } else if d == 5 {
        '5'
    } else if d == 6 {
        '6'
    } else if d == 7 {
        '7'
    } else if d == 8 {
        '8'
    } else {
        '9'
    }
}

/// Decimal notation of `n`, without leading zeros ("0" for zero).
pub open spec fn decimal(n: nat) -> Seq<char>
    decreases n,
{
    if n < 10 {
        seq![digit_char(n)]
    } else {
        decimal(n / 10).push(digit_char(n % 10))
    }
}

/// `n` with exactly two digits, a leading zero where needed (meaningful for `n < 100`).
pub open spec fn two_digits(n: nat) -> Seq<char> {
    seq![digit_char(n / 10), digit_char(n % 10)]
}

/// `n` with exactly four digits (meaningful for `n < 10000`).
pub open spec fn four_digits(n: nat) -> Seq<char> {
    two_digits(n / 100) + two_digits(n % 100)
}

/// A euro amount given in cents, written as its shortest decimal notation:
/// whole euros, then a point and the significant cent digits, if any
/// (4200 is "42", 4250 is "42.5", 4205 is "42.05").
pub open spec fn amount_text(cents: nat) -> Seq<char> {
    let frac = cents % 100;
    if frac == 0 {
        decimal(cents / 100)
    } else if frac % 10 == 0 {
        decimal(cents / 100) + seq!['.', digit_char(frac / 10)]
    } else {
        decimal(cents / 100) + seq!['.', digit_char(frac / 10), digit_char(frac % 10)]
    }
}

/// How one character stands in XML text or in an attribute value.
pub open spec fn escaped_char(c: char) -> Seq<char> {
    if c == '<' {
        seq!['&', 'l', 't', ';']
    } else if c == '>' {
        seq!['&', 'g', 't', ';']
    } else if c == '&' {
        seq!['&', 'a', 'm', 'p', ';']
    } else if c == '\'' {
        seq!['&', 'a', 'p', 'o', 's', ';']
    } else if c == '"' {
        seq!['&', 'q', 'u', 'o', 't', ';']
    } else {
        seq![c]
    }
}

/// `s` with each markup character replaced by its predefined entity.
pub open spec fn xml_escaped(s: Seq<char>) -> Seq<char>
    decreases s.len(),
{
    if s.len() == 0 {
        Seq::empty()
    } else {
        xml_escaped(s.drop_last()) + escaped_char(s.last())
    }
}

/// Relies on `String::push`: appends the one character.
#[verifier::external_body]
pub(crate) fn push_char(s: &mut String, c: char)
    ensures
        final(s)@ == old(s)@.push(c),
{
    s.push(c);
}

/// Relies on quick_xml's `BytesText::new`, which replaces `<`, `>`, `&`, `'` and `"`
/// by `&lt;`, `&gt;`, `&amp;`, `&apos;` and `&quot;` and keeps every other character.
#[verifier::external_body]
pub(crate) fn escape_xml(s: &str) -> (r: String)
    ensures
        r@ == xml_escaped(s@),
{
    let text = xsd_parser_types::quick_xml::BytesText::new(s);
    String::from_utf8_lossy(&text).into_owned()
}

/// The digit character of `d`.
pub fn digit(d: u128) -> (c: char)
    requires
        d < 10,
    ensures
        c == digit_char(d as nat),
{
    if d == 0 {
        '0'
    } else if d == 1 {
        '1'
    } else if d == 2 {
        '2'
    } else if d == 3 {
        '3'
    } else if d == 4 {
        '4'
    } else if d == 5 {
        '5'
    } else if d == 6 {
        '6'
    } else if d == 7 {
        '7'
    } else if d == 8 {
        '8'
    } else {
        '9'
    }
}

/// Appends the decimal notation of `n` to `out`.
pub fn push_decimal(out: &mut String, n: u128)
    ensures
        final(out)@ == old(out)@ + decimal(n as nat),
    decreases n,
{
    if n >= 10 {
        push_decimal(out, n / 10);
        push_char(out, digit(n % 10));
        assert(decimal(n as nat) == decimal((n / 10) as nat).push(digit_char((n % 10) as nat)));
        assert(final(out)@ =~= old(out)@ + decimal(n as nat));
    } else {
        push_char(out, digit(n));
        assert(final(out)@ =~= old(out)@ + decimal(n as nat));
    }
}

/// The decimal notation of `n`.
pub fn decimal_text(n: u128) -> (r: String)
    ensures
        r@ == decimal(n as nat),
{
    let mut r = String::new();
    push_decimal(&mut r, n);
    assert(r@ =~= decimal(n as nat));
    r
}

/// The amount of `cents` euro cents in its shortest decimal notation.
pub fn amount_string(cents: u128) -> (r: String)
    ensures
        r@ == amount_text(cents as nat),
{
    let mut r = String::new();
    push_decimal(&mut r, cents / 100);
    let frac = cents % 100;
    if frac != 0 {
        push_char(&mut r, '.');
        push_char(&mut r, digit(frac / 10));
        if frac % 10 != 0 {
            push_char(&mut r, digit(frac % 10));
        }
    }
    assert(r@ =~= amount_text(cents as nat));
    r
}

} // verus!
