//! Whitespace-separated tokens, unsigned decimal numbers and their text.

use vstd::prelude::*;
use vstd::string::*;

verus! {

/// Unicode white space, as `char::is_whitespace` has it.
pub open spec fn is_ws(c: char) -> bool {
    ('\t' <= c && c <= '\r') || c == ' ' || c == '\u{85}' || c == '\u{a0}' || c == '\u{1680}'
        || ('\u{2000}' <= c && c <= '\u{200a}') || c == '\u{2028}' || c == '\u{2029}'
        || c == '\u{202f}' || c == '\u{205f}' || c == '\u{3000}'
}

pub fn char_is_ws(c: char) -> (r: bool)
    ensures
        r == is_ws(c),
{
    ('\t' <= c && c <= '\r') || c == ' ' || c == '\u{85}' || c == '\u{a0}' || c == '\u{1680}'
        || ('\u{2000}' <= c && c <= '\u{200a}') || c == '\u{2028}' || c == '\u{2029}'
        || c == '\u{202f}' || c == '\u{205f}' || c == '\u{3000}'
}

/// First index from `i` on that is not white space (or the end).
pub open spec fn skip_ws(s: Seq<char>, i: int) -> int
    decreases s.len() - i,
{
    if i < 0 || i >= s.len() {
        if i < 0 { 0 } else { i }
    } else if is_ws(s[i]) {
        skip_ws(s, i + 1)
    } else {
        i
    }
}

/// First index from `i` on that is white space (or the end).
pub open spec fn token_end(s: Seq<char>, i: int) -> int
    decreases s.len() - i,
{
    if i < 0 || i >= s.len() {
        if i < 0 { 0 } else { i }
    } else if is_ws(s[i]) {
        i
    } else {
        token_end(s, i + 1)
    }
}

/// The bounds of the first token at or after index `i`, if any.
pub open spec fn next_token(s: Seq<char>, i: int) -> Option<(int, int)> {
    let a = skip_ws(s, i);
    if a >= s.len() {
        None
    } else {
        Some((a, token_end(s, a)))
    }
}

/// The text of the first token at or after index `i`, if any.
pub open spec fn token_text(s: Seq<char>, i: int) -> Option<Seq<char>> {
    match next_token(s, i) {
        Some((a, b)) => Some(s.subrange(a, b)),
        None => None,
    }
}

/// Where the first token at or after index `i` ends (the end if none).
pub open spec fn after_token(s: Seq<char>, i: int) -> int {
    match next_token(s, i) {
        Some((a, b)) => b,
        None => s.len() as int,
    }
}

proof fn lemma_skip_ws_bounds(s: Seq<char>, i: int)
    requires
        0 <= i <= s.len(),
    ensures
        i <= skip_ws(s, i) <= s.len(),
    decreases s.len() - i,
{
    if i < s.len() && is_ws(s[i]) {
        lemma_skip_ws_bounds(s, i + 1);
    }
}

proof fn lemma_token_end_bounds(s: Seq<char>, i: int)
    requires
        0 <= i <= s.len(),
    ensures
        i <= token_end(s, i) <= s.len(),
    decreases s.len() - i,
{
    if i < s.len() && !is_ws(s[i]) {
        lemma_token_end_bounds(s, i + 1);
    }
}

/// Finds the first token at or after index `i` of `s`, whose length in
/// characters is `len`.
pub fn find_token(s: &str, len: usize, i: usize) -> (r: Option<(usize, usize)>)
    requires
        len == s@.len(),
        i <= len,
    ensures
        r matches Some((a, b)) ==> next_token(s@, i as int) == Some((a as int, b as int)),
        r is None ==> next_token(s@, i as int) is None,
        r matches Some((a, b)) ==> i <= a < b <= len,
{
    let mut a: usize = i;
    while a < len && char_is_ws(s.get_char(a))
        invariant
            i <= a <= len,
            len == s@.len(),
            skip_ws(s@, i as int) == skip_ws(s@, a as int),
        decreases len - a,
    {
        a = a + 1;
    }
    if a >= len {
        return None;
    }
    let mut b: usize = a;
    while b < len && !char_is_ws(s.get_char(b))
        invariant
            a <= b <= len,
            a < len,
            len == s@.len(),
            token_end(s@, a as int) == token_end(s@, b as int),
            !is_ws(s@[a as int]),
        decreases len - b,
    {
        b = b + 1;
    }
    proof {
        assert(a < b) by {
            if b == a {
                assert(!is_ws(s@[a as int]));
            }
        }
    }
    Some((a, b))
}

/// Why text is not an unsigned number.
#[derive(Clone, Copy, Debug, PartialEq, Eq, Structural)]
pub enum ParseError {
    Empty,
    InvalidDigit,
    PosOverflow,
}

pub open spec fn is_digit(c: char) -> bool {
    '0' <= c && c <= '9'
}

pub open spec fn digit_of(c: char) -> nat {
    (c as nat - '0' as nat) as nat
}

/// Reading the digits of `t` from index `i` on, with `acc` read so far:
/// the first character that is not a digit, or the first digit that makes
/// the value exceed `max`, decides the error.
pub open spec fn scan_digits(t: Seq<char>, i: int, acc: nat, max: nat) -> Result<nat, ParseError>
    decreases t.len() - i,
{
    if i < 0 || i >= t.len() {
        Ok(acc)
    } else if !is_digit(t[i]) {
        Err(ParseError::InvalidDigit)
    } else if acc * 10 + digit_of(t[i]) > max {
        Err(ParseError::PosOverflow)
    } else {
        scan_digits(t, i + 1, acc * 10 + digit_of(t[i]), max)
    }
}

/// An unsigned number no larger than `max` written in decimal, with an
/// optional leading `+`, as `str::parse` reads it.
pub open spec fn parse_unsigned(t: Seq<char>, max: nat) -> Result<nat, ParseError> {
    if t.len() == 0 {
        Err(ParseError::Empty)
    } else if t[0] == '+' {
        if t.len() == 1 {
            Err(ParseError::InvalidDigit)
        } else {
            scan_digits(t, 1, 0, max)
        }
    } else {
        scan_digits(t, 0, 0, max)
    }
}

proof fn lemma_scan_bound(t: Seq<char>, i: int, acc: nat, max: nat)
    requires
        acc <= max,
    ensures
        scan_digits(t, i, acc, max) matches Ok(v) ==> v <= max,
    decreases t.len() - i,
{
    if 0 <= i < t.len() && is_digit(t[i]) && acc * 10 + digit_of(t[i]) <= max {
        lemma_scan_bound(t, i + 1, acc * 10 + digit_of(t[i]), max);
    }
}

/// Reads characters `a..b` of `s` as a `u16`.
pub fn parse_u16(s: &str, a: usize, b: usize) -> (r: Result<u16, ParseError>)
    requires
        a <= b <= s@.len(),
    ensures
        r matches Ok(v) ==> parse_unsigned(s@.subrange(a as int, b as int), 0xFFFF) == Ok::<
            nat,
            ParseError,
        >(v as nat),
        r matches Err(e) ==> parse_unsigned(s@.subrange(a as int, b as int), 0xFFFF) == Err::<
            nat,
            ParseError,
        >(e),
{
    let ghost t = s@.subrange(a as int, b as int);
    if a == b {
        return Err(ParseError::Empty);
    }
    let mut i: usize = a;
    if s.get_char(a) == '+' {
        if b - a == 1 {
            return Err(ParseError::InvalidDigit);
        }
        i = a + 1;
    }
    let ghost start = i - a;
    let mut acc: u32 = 0;
    proof {
        assert(parse_unsigned(t, 0xFFFF) == scan_digits(t, start as int, 0, 0xFFFF));
    }
    while i < b
        invariant
            a <= i <= b,
            b <= s@.len(),
            t == s@.subrange(a as int, b as int),
            acc <= 0xFFFF,
            parse_unsigned(t, 0xFFFF) == scan_digits(t, i - a, acc as nat, 0xFFFF),
        decreases b - i,
    {
        let c = s.get_char(i);
        assert(t[i - a] == c);
        if !('0' <= c && c <= '9') {
            return Err(ParseError::InvalidDigit);
        }
        let d = (c as u32) - ('0' as u32);
        let next = acc * 10 + d;
        if next > 0xFFFF {
            return Err(ParseError::PosOverflow);
        }
        acc = next;
        i = i + 1;
    }
    Ok(acc as u16)
}

pub open spec fn digit_char(d: nat) -> char {
    if d == 0 { '0' }
    else if d == 1 { '1' }
    else if d == 2 { '2' }
    else if d == 3 { '3' }
    else if d == 4 { '4' }
    else if d == 5 { '5' }
    else if d == 6 { '6' }
    else if d == 7 { '7' }
    else if d == 8 { '8' }
    else { '9' }
}

/// The decimal text of `n`, without leading zeros.
pub open spec fn decimal(n: nat) -> Seq<char>
    decreases n,
{
    if n < 10 {
        seq![digit_char(n)]
    } else {
        decimal(n / 10).push(digit_char(n % 10))
    }
}

fn digit_str(d: u64) -> (r: &'static str)
    requires
        d < 10,
    ensures
        r@ == seq![digit_char(d as nat)],
{
    if d == 0 {
        proof { reveal_strlit("0"); }
        "0"
    } else if d == 1 {
        proof { reveal_strlit("1"); }
        "1"
    } else if d == 2 {
        proof { reveal_strlit("2"); }
        "2"
    } else if d == 3 {
        proof { reveal_strlit("3"); }
        "3"
    } else if d == 4 {
        proof { reveal_strlit("4"); }
        "4"
    } else if d == 5 {
        proof { reveal_strlit("5"); }
        "5"
    } else if d == 6 {
        proof { reveal_strlit("6"); }
        "6"
    } else if d == 7 {
        proof { reveal_strlit("7"); }
        "7"
    } else if d == 8 {
        proof { reveal_strlit("8"); }
        "8"
    } else {
        proof { reveal_strlit("9"); }
        "9"
    }
}

/// Appends the decimal text of `n` to `out`.
pub fn write_decimal(out: &mut String, n: u64)
    ensures
        final(out)@ == old(out)@ + decimal(n as nat),
    decreases n,
{
    if n < 10 {
        out.append(digit_str(n));
    } else {
        write_decimal(out, n / 10);
        out.append(digit_str(n % 10));
        assert(final(out)@ =~= old(out)@ + decimal(n as nat));
    }
}

} // verus!
