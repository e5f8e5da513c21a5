//! What kind of number, if any, a text writes down.

use vstd::prelude::*;
use vstd::string::StrSliceExecFns;

verus! {

/// The kinds of text that a value may hold.
#[derive(Clone, Copy, Debug, PartialEq, Eq, Structural)]
pub enum StringType {
    /// Text that starts with `0x`.
    Hex,
    /// Text that writes a number below two to the power 64 in decimal digits.
    Decimal,
    /// Any other text.
    String,
}

/// The reason why a value has no kind of text.
#[derive(Debug)]
pub struct TypeError(pub String);

/// Whether `c` is one of the digits `0` to `9`.
pub open spec fn is_digit(c: char) -> bool {
    '0' <= c <= '9'
}

/// The number that a string of decimal digits writes.
pub open spec fn decimal_value(digits: Seq<char>) -> nat
    decreases digits.len(),
{
    if digits.len() == 0 {
        0
    } else {
        decimal_value(digits.drop_last()) * 10 + (digits.last() as nat - '0' as nat) as nat
    }
}

/// Whether the text is a sequence of one or more decimal digits, with or
/// without a `+` before them, that writes a number below two to the power 64.
pub open spec fn is_decimal_u64(s: Seq<char>) -> bool {
    &&& unsigned_part(s).len() > 0
    &&& all_digits(unsigned_part(s))
    &&& decimal_value(unsigned_part(s)) <= u64::MAX
}

/// The text without the `+` that it may start with.
pub open spec fn unsigned_part(s: Seq<char>) -> Seq<char> {
    if s.len() > 0 && s[0] == '+' {
        s.subrange(1, s.len() as int)
    } else {
        s
    }
}

/// Whether every character is a decimal digit.
pub open spec fn all_digits(s: Seq<char>) -> bool {
    forall|i: int| 0 <= i < s.len() ==> is_digit(#[trigger] s[i])
}

/// Whether the text starts with `0x`.
pub open spec fn is_hex_text(s: Seq<char>) -> bool {
    s.len() >= 2 && s[0] == '0' && s[1] == 'x'
}

/// More digits never write a smaller number.
proof fn lemma_decimal_value_grows(digits: Seq<char>, k: int)
    requires
        0 <= k <= digits.len(),
    ensures
        decimal_value(digits.subrange(0, k)) <= decimal_value(digits),
    decreases digits.len() - k,
{
    if k < digits.len() {
        let longer = digits.subrange(0, k + 1);
        assert(longer.drop_last() =~= digits.subrange(0, k));
        lemma_decimal_value_grows(digits, k + 1);
    } else {
        assert(digits.subrange(0, k) =~= digits);
    }
}

/// The kind of a text: `Hex` where it starts with `0x`, else `Decimal` where
/// it writes a number below two to the power 64, else `String`; an error for a
/// value that is no text, which is given as `None`.
pub fn check_type(value: Option<&str>) -> (r: Result<StringType, TypeError>)
    ensures
        value.is_none() ==> r.is_err() && r.unwrap_err().0@
            == "Type of given value is not `String`"@,
        value.is_some() ==> r.is_ok() && (match r.unwrap() {
            StringType::Hex => is_hex_text(value.unwrap()@),
            StringType::Decimal => !is_hex_text(value.unwrap()@) && is_decimal_u64(
                value.unwrap()@,
            ),
            StringType::String => !is_hex_text(value.unwrap()@) && !is_decimal_u64(value.unwrap()@),
        }),
{
    match value {
        None => Err(TypeError("Type of given value is not `String`".to_owned())),
        Some(v) => {
            let n = v.unicode_len();
            if n >= 2 && v.get_char(0) == '0' && v.get_char(1) == 'x' {
                return Ok(StringType::Hex);
            }
            if writes_u64(v, n) {
                Ok(StringType::Decimal)
            } else {
                Ok(StringType::String)
            }
        },
    }
}

/// Whether the text, which has `n` characters, writes a number below two to
/// the power 64.
fn writes_u64(v: &str, n: usize) -> (r: bool)
    requires
        n == v@.len(),
    ensures
        r == is_decimal_u64(v@),
{
    let start: usize = if n > 0 && v.get_char(0) == '+' {
        1
    } else {
        0
    };
    if start == n {
        return false;
    }
    let ghost digits = unsigned_part(v@);
    let mut total: u64 = 0;
    let mut i: usize = start;
    while i < n
        invariant
            start <= i <= n,
            n == v@.len(),
            start == (if v@.len() > 0 && v@[0] == '+' {
                1int
            } else {
                0int
            }),
            digits == unsigned_part(v@),
            forall|j: int| 0 <= j < i - start ==> is_digit(#[trigger] digits[j]),
            total == decimal_value(digits.subrange(0, i - start)),
        decreases n - i,
    {
        let c = v.get_char(i);
        assert(c == digits[i - start]);
        if c < '0' || c > '9' {
            assert(0 <= i - start < digits.len());
            assert(!is_digit(digits[i - start]));
            return false;
        }
        let d: u64 = (c as u32 - '0' as u32) as u64;
        proof {
            let longer = digits.subrange(0, i - start + 1);
            assert(longer.drop_last() =~= digits.subrange(0, i - start));
            assert(decimal_value(longer) == total * 10 + d);
            lemma_decimal_value_grows(digits, i - start + 1);
        }
        if total > (u64::MAX - d) / 10 {
            assert(total * 10 + d > u64::MAX);
            return false;
        }
        total = total * 10 + d;
        i += 1;
    }
    assert(digits.subrange(0, n - start) =~= digits);
    true
}

} // verus!
