//! Verified number formatting and the string helpers that the messages of the
//! library are built from.
use vstd::prelude::*;

verus! {

/// The ASCII digit for `d` in base 16 (lower or upper case letters above 9).
pub open spec fn hex_digit_char(d: nat, upper: bool) -> char {
    if d < 10 {
        (48 + d) as char
    } else if upper {
        (55 + d) as char
    } else {
        (87 + d) as char
    }
}

/// The base-16 digits of `n`, most significant first, without leading zeros
/// (zero is the single digit `0`).
pub open spec fn hex_digits(n: nat, upper: bool) -> Seq<char>
    decreases n,
{
    if n < 16 {
        seq![hex_digit_char(n, upper)]
    } else {
        hex_digits(n / 16, upper).push(hex_digit_char(n % 16, upper))
    }
}

/// The base-10 digits of `n`, most significant first, without leading zeros.
pub open spec fn dec_digits(n: nat) -> Seq<char>
    decreases n,
{
    if n < 10 {
        seq![(48 + n) as char]
    } else {
        dec_digits(n / 10).push((48 + n % 10) as char)
    }
}

/// `s` left-padded with `'0'` up to `width` characters.
pub open spec fn zero_padded(s: Seq<char>, width: nat) -> Seq<char> {
    if s.len() >= width {
        s
    } else {
        Seq::new((width - s.len()) as nat, |i: int| '0') + s
    }
}

/// Builds a `String` from a sequence of characters.
#[verifier::external_body]
pub(crate) fn chars_to_string(chars: &[char]) -> (s: String)
    ensures
        s@ == chars@,
{
    String::from_iter(chars.iter())
}

/// The characters of a string, in order.
pub fn str_to_chars(s: &str) -> (chars: Vec<char>)
    ensures
        chars@ == s@,
{
    broadcast use vstd::string::axiom_spec_iter;
    let mut v: Vec<char> = Vec::new();
    for c in it: s.chars()
        invariant
            v@ == it.seq().take(it.index() as int),
    {
        v.push(c);
    }
    v
}

/// The hexadecimal digit for a value below 16.
pub fn hex_digit(d: u64, upper: bool) -> (c: char)
    requires
        d < 16,
    ensures
        c == hex_digit_char(d as nat, upper),
{
    let d8 = d as u8;
    if d8 < 10 {
        (48u8 + d8) as char
    } else if upper {
        (55u8 + d8) as char
    } else {
        (87u8 + d8) as char
    }
}

/// The base-16 digits of `n`.
pub fn hex_chars(n: u64, upper: bool) -> (v: Vec<char>)
    ensures
        v@ == hex_digits(n as nat, upper),
    decreases n,
{
    if n < 16 {
        let mut v: Vec<char> = Vec::new();
        v.push(hex_digit(n, upper));
        v
    } else {
        let mut v = hex_chars(n / 16, upper);
        v.push(hex_digit(n % 16, upper));
        v
    }
}

/// The base-10 digits of `n`.
pub fn dec_chars(n: u64) -> (v: Vec<char>)
    ensures
        v@ == dec_digits(n as nat),
    decreases n,
{
    let d = (n % 10) as u8;
    if n < 10 {
        let mut v: Vec<char> = Vec::new();
        v.push((48u8 + d) as char);
        v
    } else {
        let mut v = dec_chars(n / 10);
        v.push((48u8 + d) as char);
        v
    }
}

/// Left-pads `v` with `'0'` up to `width` characters.
pub fn pad_zeros(v: Vec<char>, width: usize) -> (r: Vec<char>)
    ensures
        r@ == zero_padded(v@, width as nat),
{
    if v.len() >= width {
        return v;
    }
    let fill = width - v.len();
    let mut r: Vec<char> = Vec::new();
    let mut i: usize = 0;
    while i < fill
        invariant
            i <= fill,
            r@ == Seq::new(i as nat, |k: int| '0'),
        decreases fill - i,
    {
        r.push('0');
        i = i + 1;
    }
    let mut j: usize = 0;
    while j < v.len()
        invariant
            j <= v.len(),
            r@ == Seq::new(fill as nat, |k: int| '0') + v@.take(j as int),
        decreases v.len() - j,
    {
        r.push(v[j]);
        assert(v@.take(j + 1) == v@.take(j as int).push(v@[j as int]));
        j = j + 1;
    }
    assert(v@.take(v.len() as int) == v@);
    r
}

/// `n` written in decimal.
pub fn decimal_string(n: u64) -> (s: String)
    ensures
        s@ == dec_digits(n as nat),
{
    let v = dec_chars(n);
    chars_to_string(v.as_slice())
}

/// `n` written as `0x` followed by its lower-case hexadecimal digits.
pub fn hex_string_prefixed(n: u64) -> (s: String)
    ensures
        s@ == "0x"@ + hex_digits(n as nat, false),
{
    let v = hex_chars(n, false);
    let digits = chars_to_string(v.as_slice());
    let mut s = String::from_str("0x");
    s.append(digits.as_str());
    s
}

} // verus!
