//! Decimal text of an integer, written for the memory flag and read from the
//! memory field.

use vstd::prelude::*;

verus! {

/// The character of one decimal digit; `'9'` for anything above eight.
pub open spec fn digit_char(d: int) -> char {
    if d <= 0 {
        '0'
    } else if d == 1 {
        '1'
    } else if d == 2 {
        '2'
    } else if d == 3 {
        '3'
    } else if d == 4 {
        '4'
    } else if d == 5 {
        '5'
    } else if d == 6 {
        '6'
    } else if d == 7 {
        '7'
    } else if d == 8 {
        '8'
    } else {
        '9'
    }
}

/// The digits of a natural number, most significant first, without padding.
pub open spec fn digits(n: nat) -> Seq<char>
    decreases n,
{
    if n < 10 {
        seq![digit_char(n as int)]
    } else {
        digits(n / 10).push(digit_char((n % 10) as int))
    }
}

/// The decimal text of an integer: a minus sign for a negative one, then the
/// digits of its magnitude.
pub open spec fn decimal(n: int) -> Seq<char> {
    if n < 0 {
        seq!['-'] + digits((-n) as nat)
    } else {
        digits(n as nat)
    }
}

/// The one-character text of a digit.
fn digit_str(d: u32) -> (s: &'static str)
    requires
        d < 10,
    ensures
        s@ == seq![digit_char(d as int)],
{
    proof {
        reveal_strlit("0");
        reveal_strlit("1");
        reveal_strlit("2");
        reveal_strlit("3");
        reveal_strlit("4");
        reveal_strlit("5");
        reveal_strlit("6");
        reveal_strlit("7");
        reveal_strlit("8");
        reveal_strlit("9");
    }
    let s: &'static str = if d == 0 {
        "0"
    } else if d == 1 {
        "1"
    } else if d == 2 {
        "2"
    } else if d == 3 {
        "3"
    } else if d == 4 {
        "4"
    } else if d == 5 {
        "5"
    } else if d == 6 {
        "6"
    } else if d == 7 {
        "7"
    } else if d == 8 {
        "8"
    } else {
        "9"
    };
    s
}

/// Appends the digits of `n` to `out`.
fn append_digits(out: &mut String, n: u32)
    ensures
        final(out)@ == old(out)@ + digits(n as nat),
    decreases n,
{
    if n >= 10 {
        append_digits(out, n / 10);
    }
    out.append(digit_str(n % 10));
}

/// Writes an integer in decimal.
pub fn decimal_string(n: i32) -> (s: String)
    ensures
        s@ == decimal(n as int),
{
    let mut s = String::new();
    if n < 0 {
        proof {
            reveal_strlit("-");
        }
        s.append("-");
        let magnitude: u32 = (0 - (n as i64)) as u32;
        append_digits(&mut s, magnitude);
    } else {
        append_digits(&mut s, n as u32);
    }
    s
}

/// Whether a character is one of the ten ASCII digits.
pub open spec fn is_digit(c: char) -> bool {
    48 <= c as u32 <= 57
}

/// Whether a text holds ASCII digits only.
pub open spec fn all_digits(s: Seq<char>) -> bool {
    forall|k: int| 0 <= k < s.len() ==> is_digit(#[trigger] s[k])
}

/// The number that a text of digits writes, most significant digit first.
pub open spec fn digits_value(s: Seq<char>) -> nat
    decreases s.len(),
{
    if s.len() == 0 {
        0
    } else {
        (digits_value(s.drop_last()) * 10 + (s.last() as u32 - 48)) as nat
    }
}

/// The number of a sign and a magnitude, where a 32-bit integer holds it.
pub open spec fn signed_value(negative: bool, magnitude: nat) -> Option<i32> {
    let v: int = if negative {
        -(magnitude as int)
    } else {
        magnitude as int
    };
    if i32::MIN <= v <= i32::MAX {
        Some(v as i32)
    } else {
        None
    }
}

/// The number of a sign and the text after it: the text must be one digit at
/// least, and digits only.
pub open spec fn number_of(negative: bool, body: Seq<char>) -> Option<i32> {
    if body.len() == 0 || !all_digits(body) {
        None
    } else {
        signed_value(negative, digits_value(body))
    }
}

/// The 32-bit integer that a text writes in decimal: an optional `+` or `-`,
/// then digits, and nothing else. No number where the text is empty, holds
/// anything else, or writes a number out of range.
pub open spec fn parsed(s: Seq<char>) -> Option<i32> {
    if s.len() == 0 {
        None
    } else if s[0] == '-' {
        number_of(true, s.drop_first())
    } else if s[0] == '+' {
        number_of(false, s.drop_first())
    } else {
        number_of(false, s)
    }
}

/// The magnitude from which on no sign gives a 32-bit integer.
pub open spec fn magnitude_cap() -> int {
    2147483649
}

/// Reads a 32-bit integer from its decimal text.
pub fn parse_decimal(text: &str) -> (value: Option<i32>)
    ensures
        value == parsed(text@),
{
    let n: usize = text.unicode_len();
    if n == 0 {
        return None;
    }
    let first = text.get_char(0);
    let negative = first == '-';
    let start: usize = if first == '-' || first == '+' {
        1
    } else {
        0
    };
    let ghost body = text@.subrange(start as int, n as int);
    proof {
        if start == 0 {
            assert(body =~= text@);
        }
    }
    if start == n {
        return None;
    }
    let mut acc: i64 = 0;
    let mut i: usize = start;
    while i < n
        invariant
            start <= i <= n,
            n == text@.len(),
            body == text@.subrange(start as int, n as int),
            parsed(text@) == number_of(negative, body),
            all_digits(text@.subrange(start as int, i as int)),
            0 <= acc <= magnitude_cap(),
            digits_value(text@.subrange(start as int, i as int)) >= magnitude_cap() ==> acc
                == magnitude_cap(),
            digits_value(text@.subrange(start as int, i as int)) < magnitude_cap() ==> acc
                == digits_value(text@.subrange(start as int, i as int)),
        decreases n - i,
    {
        let c = text.get_char(i);
        let code: u32 = c as u32;
        if code < 48 || code > 57 {
            proof {
                assert(body[i - start] == c);
            }
            return None;
        }
        let d: i64 = (code - 48) as i64;
        proof {
            let before = text@.subrange(start as int, i as int);
            let after = text@.subrange(start as int, i + 1);
            assert(after.drop_last() =~= before);
            assert forall|k: int| 0 <= k < after.len() implies is_digit(#[trigger] after[k]) by {}
        }
        let grown: i64 = acc * 10 + d;
        acc = if grown > 2147483649 {
            2147483649
        } else {
            grown
        };
        i += 1;
    }
    let v: i64 = if negative {
        0 - acc
    } else {
        acc
    };
    if v < -2147483648 || v > 2147483647 {
        None
    } else {
        Some(v as i32)
    }
}

/// The digits of a number are one digit at least and digits only, and they
/// write that number.
pub proof fn lemma_digits_write_the_number(m: nat)
    ensures
        digits(m).len() >= 1,
        all_digits(digits(m)),
        digits_value(digits(m)) == m,
    decreases m,
{
    let text = digits(m);
    if m < 10 {
        assert(digits_value(text.drop_last()) == 0);
    } else {
        lemma_digits_write_the_number(m / 10);
        assert(text.drop_last() =~= digits(m / 10));
        assert forall|k: int| 0 <= k < text.len() implies is_digit(#[trigger] text[k]) by {}
    }
}

/// Reading the decimal text of a 32-bit integer gives that integer back.
pub proof fn lemma_parse_reads_decimal(n: i32)
    ensures
        parsed(decimal(n as int)) == Some(n),
{
    let text = decimal(n as int);
    if n < 0 {
        let magnitude = (-(n as int)) as nat;
        lemma_digits_write_the_number(magnitude);
        assert(text.drop_first() =~= digits(magnitude));
    } else {
        lemma_digits_write_the_number(n as nat);
    }
}

} // verus!
