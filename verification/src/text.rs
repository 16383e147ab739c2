//! Small verified helpers on strings and byte strings.

use vstd::prelude::*;
use vstd::string::*;
use vstd::utf8::*;

verus! {

/// `String::push` appends one character to the string.
pub assume_specification[ String::push ](s: &mut String, c: char)
    ensures
        final(s)@ == old(s)@.push(c),
;

/// Whether `a` and `b` hold the same bytes.
pub fn bytes_eq(a: &[u8], b: &[u8]) -> (same: bool)
    ensures
        same == (a@ == b@),
{
    if a.len() != b.len() {
        return false;
    }
    let mut i: usize = 0;
    while i < a.len()
        invariant
            a@.len() == b@.len(),
            i <= a@.len(),
            a@.subrange(0, i as int) == b@.subrange(0, i as int),
        decreases a@.len() - i,
    {
        if a[i] != b[i] {
            return false;
        }
        i += 1;
    }
    assert(a@ =~= a@.subrange(0, a@.len() as int));
    assert(b@ =~= b@.subrange(0, b@.len() as int));
    true
}

/// Whether `a` and `b` hold the same characters.
pub fn str_eq(a: &str, b: &str) -> (same: bool)
    ensures
        same == (a@ == b@),
{
    let same = bytes_eq(a.as_bytes(), b.as_bytes());
    proof {
        encode_utf8_decode_utf8(a@);
        encode_utf8_decode_utf8(b@);
    }
    same
}

/// Whether `b` is a white-space character of one byte: U+0009 to U+000D,
/// or a space.
pub open spec fn is_narrow_space(b: u8) -> bool {
    0x09 <= b <= 0x0d || b == 0x20
}

/// Whether `a, b` encode a white-space character of two bytes: U+0085 or
/// U+00A0.
pub open spec fn is_medium_space(a: u8, b: u8) -> bool {
    a == 0xc2 && (b == 0x85 || b == 0xa0)
}

/// Whether `a, b, c` encode a white-space character of three bytes:
/// U+1680, U+2000 to U+200A, U+2028, U+2029, U+202F, U+205F or U+3000.
pub open spec fn is_wide_space(a: u8, b: u8, c: u8) -> bool {
    ||| a == 0xe1 && b == 0x9a && c == 0x80
    ||| a == 0xe2 && b == 0x80 && (0x80 <= c <= 0x8a || c == 0xa8 || c == 0xa9 || c == 0xaf)
    ||| a == 0xe2 && b == 0x81 && c == 0x9f
    ||| a == 0xe3 && b == 0x80 && c == 0x80
}

/// The number of bytes of the white-space character that `s` begins with,
/// 0 where it begins with none.
pub open spec fn leading_space(s: Seq<u8>) -> int {
    if s.len() >= 1 && is_narrow_space(s[0]) {
        1
    } else if s.len() >= 2 && is_medium_space(s[0], s[1]) {
        2
    } else if s.len() >= 3 && is_wide_space(s[0], s[1], s[2]) {
        3
    } else {
        0
    }
}

/// The number of bytes of the white-space character that `s` ends with, 0
/// where it ends with none.
pub open spec fn trailing_space(s: Seq<u8>) -> int {
    let n = s.len() as int;
    if n >= 1 && is_narrow_space(s[n - 1]) {
        1
    } else if n >= 2 && is_medium_space(s[n - 2], s[n - 1]) {
        2
    } else if n >= 3 && is_wide_space(s[n - 3], s[n - 2], s[n - 1]) {
        3
    } else {
        0
    }
}

/// `s` without the white space that it begins with.
pub open spec fn trim_start(s: Seq<u8>) -> Seq<u8>
    decreases s.len(),
{
    let width = leading_space(s);
    if width > 0 {
        trim_start(s.skip(width))
    } else {
        s
    }
}

/// `s` without the white space that it ends with.
pub open spec fn trim_end(s: Seq<u8>) -> Seq<u8>
    decreases s.len(),
{
    let width = trailing_space(s);
    if width > 0 {
        trim_end(s.take(s.len() - width))
    } else {
        s
    }
}

/// `s` without the white space at either end, as UTF-8 text is trimmed.
pub open spec fn trim(s: Seq<u8>) -> Seq<u8> {
    trim_end(trim_start(s))
}

/// The width of the white-space character at the start of `s[from..to]`.
fn leading_space_in(s: &[u8], from: usize, to: usize) -> (width: usize)
    requires
        from <= to <= s@.len(),
    ensures
        width == leading_space(s@.subrange(from as int, to as int)),
        from + width <= to,
{
    let n = to - from;
    if n >= 1 && ((0x09 <= s[from] && s[from] <= 0x0d) || s[from] == 0x20) {
        1
    } else if n >= 2 && s[from] == 0xc2 && (s[from + 1] == 0x85 || s[from + 1] == 0xa0) {
        2
    } else if n >= 3 && wide_space(s[from], s[from + 1], s[from + 2]) {
        3
    } else {
        0
    }
}

/// The width of the white-space character at the end of `s[from..to]`.
fn trailing_space_in(s: &[u8], from: usize, to: usize) -> (width: usize)
    requires
        from <= to <= s@.len(),
    ensures
        width == trailing_space(s@.subrange(from as int, to as int)),
        from + width <= to,
{
    let n = to - from;
    if n >= 1 && ((0x09 <= s[to - 1] && s[to - 1] <= 0x0d) || s[to - 1] == 0x20) {
        1
    } else if n >= 2 && s[to - 2] == 0xc2 && (s[to - 1] == 0x85 || s[to - 1] == 0xa0) {
        2
    } else if n >= 3 && wide_space(s[to - 3], s[to - 2], s[to - 1]) {
        3
    } else {
        0
    }
}

fn wide_space(a: u8, b: u8, c: u8) -> (wide: bool)
    ensures
        wide == is_wide_space(a, b, c),
{
    (a == 0xe1 && b == 0x9a && c == 0x80) || (a == 0xe2 && b == 0x80 && ((0x80 <= c && c <= 0x8a)
        || c == 0xa8 || c == 0xa9 || c == 0xaf)) || (a == 0xe2 && b == 0x81 && c == 0x9f) || (a
        == 0xe3 && b == 0x80 && c == 0x80)
}

/// The bounds of `s` trimmed: `s[from..to]` is `s` without the white space
/// at either end.
pub fn trim_bounds(s: &[u8]) -> (bounds: (usize, usize))
    ensures
        bounds.0 <= bounds.1 <= s@.len(),
        s@.subrange(bounds.0 as int, bounds.1 as int) == trim(s@),
{
    let mut from: usize = 0;
    let to: usize = s.len();
    assert(s@.subrange(0, to as int) =~= s@);
    loop
        invariant
            from <= to == s@.len(),
            trim_start(s@) == trim_start(s@.subrange(from as int, to as int)),
        ensures
            trim_start(s@) == s@.subrange(from as int, to as int),
        decreases to - from,
    {
        let width = leading_space_in(s, from, to);
        if width == 0 {
            break;
        }
        assert(s@.subrange(from as int, to as int).skip(width as int) =~= s@.subrange(
            from + width,
            to as int,
        ));
        from += width;
    }
    let mut to: usize = to;
    loop
        invariant
            from <= to <= s@.len(),
            trim(s@) == trim_end(s@.subrange(from as int, to as int)),
        ensures
            trim(s@) == s@.subrange(from as int, to as int),
        decreases to - from,
    {
        let width = trailing_space_in(s, from, to);
        if width == 0 {
            break;
        }
        assert(s@.subrange(from as int, to as int).take(to - from - width) =~= s@.subrange(
            from as int,
            to - width,
        ));
        to -= width;
    }
    (from, to)
}

/// Whether `s[from..to]` begins with the bytes of `prefix`.
pub fn window_starts_with(s: &[u8], from: usize, to: usize, prefix: &[u8]) -> (starts: bool)
    requires
        from <= to <= s@.len(),
    ensures
        starts == prefix@.is_prefix_of(s@.subrange(from as int, to as int)),
{
    let ghost window = s@.subrange(from as int, to as int);
    if prefix.len() > to - from {
        return false;
    }
    let mut i: usize = 0;
    while i < prefix.len()
        invariant
            from <= to <= s@.len(),
            prefix@.len() <= to - from,
            i <= prefix@.len(),
            window == s@.subrange(from as int, to as int),
            forall|k: int| 0 <= k < i ==> prefix@[k] == window[k],
        decreases prefix@.len() - i,
    {
        if s[from + i] != prefix[i] {
            return false;
        }
        i += 1;
    }
    true
}

/// Whether `s[from..to]` is the bytes of `other`.
pub fn window_eq(s: &[u8], from: usize, to: usize, other: &[u8]) -> (same: bool)
    requires
        from <= to <= s@.len(),
    ensures
        same == (s@.subrange(from as int, to as int) == other@),
{
    if other.len() != to - from {
        return false;
    }
    let starts = window_starts_with(s, from, to, other);
    assert(starts ==> s@.subrange(from as int, to as int) =~= other@);
    starts
}

/// The characters of an optional string.
pub open spec fn optional_text(s: Option<String>) -> Option<Seq<char>> {
    match s {
        Some(text) => Some(text@),
        None => None,
    }
}

/// The character that writes the digit `d`.
pub open spec fn digit_char(d: int) -> char {
    (0x30 + d) as char
}

/// The decimal numeral of `n`, without sign or leading zeros.
pub open spec fn decimal(n: nat) -> Seq<char>
    decreases n,
{
    if n < 10 {
        seq![digit_char(n as int)]
    } else {
        decimal(n / 10).push(digit_char((n % 10) as int))
    }
}

/// The decimal numeral of an integer: a minus sign before the numeral of
/// the magnitude where the integer is negative.
pub open spec fn signed_decimal(n: int) -> Seq<char> {
    if n < 0 {
        seq!['-'] + decimal((-n) as nat)
    } else {
        decimal(n as nat)
    }
}

/// Appends the decimal numeral of `n` to `out`.
pub fn push_decimal(out: &mut String, n: u64)
    ensures
        final(out)@ == old(out)@ + decimal(n as nat),
    decreases n,
{
    if n >= 10 {
        push_decimal(out, n / 10);
    }
    let d: u8 = (n % 10) as u8;
    let c: char = (0x30u8 + d) as char;
    out.push(c);
}

/// `a` followed by `b`.
pub fn concat(a: &str, b: &str) -> (joined: String)
    ensures
        joined@ == a@ + b@,
{
    let mut joined = String::from_str(a);
    joined.append(b);
    joined
}

/// Whether `c` is a white-space character: U+0009 to U+000D, U+0020,
/// U+0085, U+00A0, U+1680, U+2000 to U+200A, U+2028, U+2029, U+202F,
/// U+205F or U+3000.
pub open spec fn is_white_space(c: char) -> bool {
    let v = c as u32;
    ||| 0x09 <= v <= 0x0d
    ||| v == 0x20
    ||| v == 0x85
    ||| v == 0xa0
    ||| v == 0x1680
    ||| 0x2000 <= v <= 0x200a
    ||| v == 0x2028
    ||| v == 0x2029
    ||| v == 0x202f
    ||| v == 0x205f
    ||| v == 0x3000
}

/// Whether `c` is a white-space character.
pub fn white_space(c: char) -> (white: bool)
    ensures
        white == is_white_space(c),
{
    let v: u32 = c as u32;
    (0x09 <= v && v <= 0x0d) || v == 0x20 || v == 0x85 || v == 0xa0 || v == 0x1680 || (0x2000 <= v
        && v <= 0x200a) || v == 0x2028 || v == 0x2029 || v == 0x202f || v == 0x205f || v
        == 0x3000
}

} // verus!
