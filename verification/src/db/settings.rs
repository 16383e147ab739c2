//! Application settings as the store keeps them: texts under keys. This
//! module reads the texts, the whole numbers and the marks among them.

use crate::json::{Json, JsonModel, JsonNumber, NumberModel};
use crate::text::{push_decimal, signed_decimal, str_eq};
use vstd::prelude::*;
use vstd::string::*;

verus! {

/// The value of a run of decimal digits, and nothing for a run that is
/// empty or holds another byte.
pub open spec fn digits_value(digits: Seq<u8>) -> Option<int>
    decreases digits.len(),
{
    if digits.len() == 0 {
        None
    } else if !(0x30 <= digits.last() <= 0x39) {
        None
    } else if digits.len() == 1 {
        Some(digits.last() - 0x30)
    } else {
        match digits_value(digits.drop_last()) {
            Some(value) => Some(value * 10 + (digits.last() - 0x30)),
            None => None,
        }
    }
}

/// The whole number that a text writes, in 32 bits: decimal digits after
/// an optional sign, and nothing else. A text that writes no such number,
/// or one out of range, gives nothing.
pub open spec fn parsed_number(text: Seq<u8>) -> Option<i32> {
    if text.len() > 0 && text[0] == 0x2d {
        match digits_value(text.skip(1)) {
            Some(value) => if value <= 0x8000_0000 {
                Some((-value) as i32)
            } else {
                None
            },
            None => None,
        }
    } else {
        match digits_value(
            if text.len() > 0 && text[0] == 0x2b {
                text.skip(1)
            } else {
                text
            },
        ) {
            Some(value) => if value <= 0x7fff_ffff {
                Some(value as i32)
            } else {
                None
            },
            None => None,
        }
    }
}

/// The value of the digits `s[from..]`, counted no further than one past
/// `2^31`: nothing for an empty run or another byte.
fn read_digits(s: &[u8], from: usize) -> (value: Option<u64>)
    requires
        from <= s@.len(),
    ensures
        match value {
            Some(v) => digits_value(s@.skip(from as int)) is Some && v == (
            if digits_value(s@.skip(from as int))->0 > 0x8000_0000 {
                0x8000_0001
            } else {
                digits_value(s@.skip(from as int))->0
            }),
            None => digits_value(s@.skip(from as int)) is None,
        },
{
    let ghost run = s@.skip(from as int);
    if from == s.len() {
        return None;
    }
    let mut acc: u64 = 0;
    let mut i: usize = from;
    while i < s.len()
        invariant
            from <= i <= s@.len(),
            run == s@.skip(from as int),
            acc <= 0x8000_0001,
            i > from ==> digits_value(run.take(i - from)) is Some && acc == (if digits_value(
                run.take(i - from),
            )->0 > 0x8000_0000 {
                0x8000_0001
            } else {
                digits_value(run.take(i - from))->0
            }),
            i == from ==> acc == 0,
        decreases s@.len() - i,
    {
        let b = s[i];
        let ghost next = run.take(i - from + 1);
        proof {
            assert(next.drop_last() =~= run.take(i - from));
        }
        if !(0x30 <= b && b <= 0x39) {
            proof {
                lemma_bad_digit(run, i - from);
            }
            return None;
        }
        let d: u64 = (b - 0x30) as u64;
        acc = acc * 10 + d;
        if acc > 0x8000_0000 {
            acc = 0x8000_0001;
        }
        i += 1;
    }
    assert(run.take(run.len() as int) =~= run);
    Some(acc)
}

/// The value of a run of digits is not negative.
proof fn lemma_digits_nonnegative(digits: Seq<u8>)
    ensures
        digits_value(digits) is Some ==> digits_value(digits)->0 >= 0,
    decreases digits.len(),
{
    if digits.len() > 1 {
        lemma_digits_nonnegative(digits.drop_last());
    }
}

/// A run with a byte that is no digit has no value.
proof fn lemma_bad_digit(digits: Seq<u8>, at: int)
    requires
        0 <= at < digits.len(),
        !(0x30 <= digits[at] <= 0x39),
    ensures
        digits_value(digits) is None,
    decreases digits.len(),
{
    if at < digits.len() - 1 {
        lemma_bad_digit(digits.drop_last(), at);
    }
}

/// Reads the whole number that a text writes.
pub fn parse_number(text: &str) -> (number: Option<i32>)
    ensures
        number == parsed_number(text.spec_bytes()),
{
    let s = text.as_bytes();
    if s.len() > 0 && s[0] == 0x2d {
        match read_digits(s, 1) {
            Some(value) => if value <= 0x8000_0000 {
                let wide: i64 = -(value as i64);
                Some(wide as i32)
            } else {
                None
            },
            None => None,
        }
    } else {
        let from: usize = if s.len() > 0 && s[0] == 0x2b {
            1
        } else {
            0
        };
        assert(s@.skip(0) =~= s@);
        match read_digits(s, from) {
            Some(value) => if value <= 0x7fff_ffff {
                Some(value as i32)
            } else {
                None
            },
            None => None,
        }
    }
}

/// The text of a setting: the stored text, or the default where nothing
/// is stored.
pub fn text_setting(stored: Option<&str>, fallback: &str) -> (value: String)
    ensures
        value@ == (match stored {
            Some(text) => text@,
            None => fallback@,
        }),
{
    match stored {
        Some(text) => String::from_str(text),
        None => String::from_str(fallback),
    }
}

/// The whole number of a setting: the number that the stored text writes,
/// or the default where nothing is stored or the text writes none.
pub fn number_setting(stored: Option<&str>, fallback: i32) -> (value: i32)
    ensures
        value == (match stored {
            Some(text) => match parsed_number(text.spec_bytes()) {
                Some(n) => n,
                None => fallback,
            },
            None => fallback,
        }),
{
    match stored {
        Some(text) => match parse_number(text) {
            Some(n) => n,
            None => fallback,
        },
        None => fallback,
    }
}

/// The mark of a setting: set where the stored text is `true`, not set
/// for any other text, and the default where nothing is stored.
pub fn flag_setting(stored: Option<&str>, fallback: bool) -> (value: bool)
    ensures
        value == (match stored {
            Some(text) => text@ == "true"@,
            None => fallback,
        }),
{
    match stored {
        Some(text) => str_eq(text, "true"),
        None => fallback,
    }
}

/// The text under which a value is stored: a string as it is, a mark as
/// `true` or `false`, a number as its numeral. A null, an array and an
/// object have no such text here.
pub open spec fn stored_text(value: JsonModel) -> Option<Seq<char>> {
    match value {
        JsonModel::Text(s) => Some(s),
        JsonModel::Bool(b) => Some(
            if b {
                "true"@
            } else {
                "false"@
            },
        ),
        JsonModel::Number(NumberModel::Integer(n)) => Some(signed_decimal(n as int)),
        JsonModel::Number(NumberModel::Literal(s)) => Some(s),
        _ => None,
    }
}

/// The text under which a value is stored.
pub fn setting_text(value: &Json) -> (text: Option<String>)
    ensures
        crate::text::optional_text(text) == stored_text(value@),
{
    match value {
        Json::Text(s) => Some(s.clone()),
        Json::Bool(b) => Some(
            if *b {
                String::from_str("true")
            } else {
                String::from_str("false")
            },
        ),
        Json::Number(JsonNumber::Integer(n)) => {
            let mut out = String::new();
            if *n < 0 {
                out.push('-');
                let magnitude: u64 = if *n == i64::MIN {
                    0x8000_0000_0000_0000
                } else {
                    (-*n) as u64
                };
                push_decimal(&mut out, magnitude);
            } else {
                push_decimal(&mut out, *n as u64);
            }
            Some(out)
        },
        Json::Number(JsonNumber::Literal(s)) => Some(s.clone()),
        _ => None,
    }
}

} // verus!
