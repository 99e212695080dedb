//! Numbers as text and text as numbers: decimal writing, surrounding white
//! space, and the reading of a whole number.

use vstd::prelude::*;
use vstd::string::*;

verus! {

/// The character that writes the decimal digit `digit`.
pub open spec fn digit_char(digit: int) -> char {
    if digit == 0 {
        '0'
    } else if digit == 1 {
        '1'
    } else if digit == 2 {
        '2'
    } else if digit == 3 {
        '3'
    } else if digit == 4 {
        '4'
    } else if digit == 5 {
        '5'
    } else if digit == 6 {
        '6'
    } else if digit == 7 {
        '7'
    } else if digit == 8 {
        '8'
    } else {
        '9'
    }
}

/// A number in decimal, without sign, padding or leading zeros.
pub open spec fn decimal_text(number: nat) -> Seq<char>
    decreases number,
{
    if number < 10 {
        seq![digit_char(number as int)]
    } else {
        decimal_text(number / 10).push(digit_char((number % 10) as int))
    }
}

/// One decimal digit as text.
pub fn digit_str(digit: u64) -> (text: &'static str)
    requires
        digit <= 9,
    ensures
        text@ == seq![digit_char(digit as int)],
{
    proof {
        reveal_strlit("0");
        reveal_strlit("1");
        reveal_strlit("2");
        reveal_strlit("3");
        reveal_strlit("4");
        reveal_strlit("5");
        reveal_strlit("6");
        reveal_strlit("7");
        reveal_strlit("8");
        reveal_strlit("9");
    }
    let text = match digit {
        0 => "0",
        1 => "1",
        2 => "2",
        3 => "3",
        4 => "4",
        5 => "5",
        6 => "6",
        7 => "7",
        8 => "8",
        _ => "9",
    };
    assert(text@ =~= seq![digit_char(digit as int)]);
    text
}

/// Writes a number in decimal.
pub fn decimal_string(number: u64) -> (text: String)
    ensures
        text@ == decimal_text(number as nat),
    decreases number,
{
    if number < 10 {
        String::from_str(digit_str(number))
    } else {
        let mut text = decimal_string(number / 10);
        text.append(digit_str(number % 10));
        assert(text@ =~= decimal_text((number / 10) as nat).push(
            digit_char((number % 10) as int),
        ));
        text
    }
}

/// The number that a decimal digit character writes.
pub open spec fn digit_value(c: char) -> int {
    c as int - 48
}

/// Whether `c` is one of the characters `0` to `9`.
pub open spec fn is_digit_char(c: char) -> bool {
    0 <= digit_value(c) <= 9
}

/// Whether `c` is white space: one of the characters that Unicode classes
/// as White_Space.
pub open spec fn is_whitespace(c: char) -> bool {
    let code = c as int;
    ||| 0x09 <= code <= 0x0D
    ||| code == 0x20
    ||| code == 0x85
    ||| code == 0xA0
    ||| code == 0x1680
    ||| 0x2000 <= code <= 0x200A
    ||| code == 0x2028
    ||| code == 0x2029
    ||| code == 0x202F
    ||| code == 0x205F
    ||| code == 0x3000
}

/// A text without the white space that it begins with.
pub open spec fn trim_start(text: Seq<char>) -> Seq<char>
    decreases text.len(),
{
    if text.len() > 0 && is_whitespace(text[0]) {
        trim_start(text.drop_first())
    } else {
        text
    }
}

/// A text without the white space that it ends with.
pub open spec fn trim_end(text: Seq<char>) -> Seq<char>
    decreases text.len(),
{
    if text.len() > 0 && is_whitespace(text.last()) {
        trim_end(text.drop_last())
    } else {
        text
    }
}

/// A text without the white space around it.
pub open spec fn trimmed(text: Seq<char>) -> Seq<char> {
    trim_end(trim_start(text))
}

/// A text without the sign that it may begin with.
pub open spec fn unsigned_part(text: Seq<char>) -> Seq<char> {
    if text.len() > 0 && (text[0] == '+' || text[0] == '-') {
        text.drop_first()
    } else {
        text
    }
}

/// Whether a text begins with a minus sign.
pub open spec fn is_negative(text: Seq<char>) -> bool {
    text.len() > 0 && text[0] == '-'
}

/// Why a text was not read as a whole number of 64 bits.
#[derive(Clone, Copy, Debug, PartialEq, Eq, Structural)]
pub enum IntegerError {
    /// The text is empty.
    Empty,
    /// A character is no digit, or a sign stands alone.
    InvalidDigit,
    /// The number is larger than the largest of 64 bits.
    PosOverflow,
    /// The number is smaller than the smallest of 64 bits.
    NegOverflow,
}

/// The largest magnitude that a number of 64 bits with the given sign can
/// have.
pub open spec fn magnitude_limit(negative: bool) -> nat {
    if negative {
        0x8000_0000_0000_0000
    } else {
        0x7fff_ffff_ffff_ffff
    }
}

/// The fault of a number that is beyond 64 bits on the given side.
pub open spec fn overflow_of(negative: bool) -> IntegerError {
    if negative {
        IntegerError::NegOverflow
    } else {
        IntegerError::PosOverflow
    }
}

/// The number that a text of decimal digits writes, read from the left, or
/// the first fault met on the way: a character that is no digit, or a digit
/// with which the number goes beyond 64 bits on the side of its sign.
pub open spec fn magnitude_of(digits: Seq<char>, negative: bool) -> Result<nat, IntegerError>
    decreases digits.len(),
{
    if digits.len() == 0 {
        Ok(0)
    } else {
        match magnitude_of(digits.drop_last(), negative) {
            Err(fault) => Err(fault),
            Ok(before) => {
                let with_last = (10 * before + digit_value(digits.last())) as nat;
                if !is_digit_char(digits.last()) {
                    Err(IntegerError::InvalidDigit)
                } else if with_last > magnitude_limit(negative) {
                    Err(overflow_of(negative))
                } else {
                    Ok(with_last)
                }
            },
        }
    }
}

/// What reading a text as a whole number of 64 bits comes to. The text is a
/// plus or minus sign or none, then one decimal digit or more, and nothing
/// else; where it is not, or the number does not fit, the first fault from
/// the left decides.
pub open spec fn parsed_integer(text: Seq<char>) -> Result<i64, IntegerError> {
    if text.len() == 0 {
        Err(IntegerError::Empty)
    } else if unsigned_part(text).len() == 0 {
        Err(IntegerError::InvalidDigit)
    } else {
        match magnitude_of(unsigned_part(text), is_negative(text)) {
            Err(fault) => Err(fault),
            Ok(magnitude) => Ok(
                if is_negative(text) {
                    (-(magnitude as int)) as i64
                } else {
                    magnitude as i64
                },
            ),
        }
    }
}

/// Whether every character of a text is a decimal digit.
pub open spec fn all_digits(text: Seq<char>) -> bool {
    forall|i: int| 0 <= i < text.len() ==> is_digit_char(#[trigger] text[i])
}

/// The number that a text of decimal digits writes.
pub open spec fn digits_value(digits: Seq<char>) -> nat
    decreases digits.len(),
{
    if digits.len() == 0 {
        0
    } else {
        (10 * digits_value(digits.drop_last()) + digit_value(digits.last())) as nat
    }
}

/// A fault met in the first characters of a text of digits is the fault of
/// the whole text.
proof fn lemma_fault_persists(digits: Seq<char>, negative: bool, upto: int)
    requires
        0 <= upto <= digits.len(),
        magnitude_of(digits.subrange(0, upto), negative) is Err,
    ensures
        magnitude_of(digits, negative) == magnitude_of(digits.subrange(0, upto), negative),
    decreases digits.len() - upto,
{
    if upto < digits.len() {
        let shorter = digits.drop_last();
        assert(shorter.subrange(0, upto) =~= digits.subrange(0, upto));
        lemma_fault_persists(shorter, negative, upto);
    } else {
        assert(digits.subrange(0, upto) =~= digits);
    }
}

/// Reading succeeds exactly on a text of digits whose number fits, and then
/// gives that number.
pub proof fn lemma_magnitude_of_digits(digits: Seq<char>, negative: bool)
    ensures
        magnitude_of(digits, negative) is Ok <==> all_digits(digits) && digits_value(digits)
            <= magnitude_limit(negative),
        magnitude_of(digits, negative) matches Ok(m) ==> m == digits_value(digits),
    decreases digits.len(),
{
    if digits.len() > 0 {
        let shorter = digits.drop_last();
        lemma_magnitude_of_digits(shorter, negative);
        assert forall|i: int| 0 <= i < shorter.len() implies shorter[i] == digits[i] by {}
        if all_digits(digits) {
            assert(is_digit_char(digits[digits.len() - 1]));
            assert forall|i: int| 0 <= i < shorter.len() implies is_digit_char(
                #[trigger] shorter[i],
            ) by {
                assert(shorter[i] == digits[i]);
            }
        }
        if all_digits(shorter) && is_digit_char(digits.last()) {
            assert forall|i: int| 0 <= i < digits.len() implies is_digit_char(
                #[trigger] digits[i],
            ) by {
                if i < shorter.len() {
                    assert(shorter[i] == digits[i]);
                }
            }
        }
    }
}

/// White space at the start of a text can be skipped before trimming it.
proof fn lemma_trim_start_skips(text: Seq<char>, from: int)
    requires
        0 <= from <= text.len(),
        forall|k: int| 0 <= k < from ==> is_whitespace(#[trigger] text[k]),
    ensures
        trim_start(text) == trim_start(text.subrange(from, text.len() as int)),
    decreases from,
{
    if from > 0 {
        let rest = text.drop_first();
        assert forall|k: int| 0 <= k < from - 1 implies is_whitespace(#[trigger] rest[k]) by {
            assert(rest[k] == text[k + 1]);
        }
        lemma_trim_start_skips(rest, from - 1);
        assert(rest.subrange(from - 1, rest.len() as int) =~= text.subrange(
            from,
            text.len() as int,
        ));
    } else {
        assert(text.subrange(0, text.len() as int) =~= text);
    }
}

/// White space at the end of a text can be dropped before trimming it.
proof fn lemma_trim_end_skips(text: Seq<char>, to: int)
    requires
        0 <= to <= text.len(),
        forall|k: int| to <= k < text.len() ==> is_whitespace(#[trigger] text[k]),
    ensures
        trim_end(text) == trim_end(text.subrange(0, to)),
    decreases text.len() - to,
{
    if to < text.len() {
        let rest = text.drop_last();
        lemma_trim_end_skips(rest, to);
        assert(rest.subrange(0, to) =~= text.subrange(0, to));
    } else {
        assert(text.subrange(0, to) =~= text);
    }
}

/// Whether a character is white space.
pub fn char_is_whitespace(c: char) -> (yes: bool)
    ensures
        yes == is_whitespace(c),
{
    let code = c as u32;
    (0x09 <= code && code <= 0x0D) || code == 0x20 || code == 0x85 || code == 0xA0 || code
        == 0x1680 || (0x2000 <= code && code <= 0x200A) || code == 0x2028 || code == 0x2029
        || code == 0x202F || code == 0x205F || code == 0x3000
}

/// A text without the white space around it.
pub fn trim(text: &str) -> (inner: &str)
    ensures
        inner@ == trimmed(text@),
{
    let n = text.unicode_len();
    let mut start: usize = 0;
    while start < n && char_is_whitespace(text.get_char(start))
        invariant
            start <= n,
            n == text@.len(),
            forall|k: int| 0 <= k < start ==> is_whitespace(#[trigger] text@[k]),
        decreases n - start,
    {
        start += 1;
    }
    let ghost tail = text@.subrange(start as int, n as int);
    proof {
        lemma_trim_start_skips(text@, start as int);
        if start < n {
            assert(tail[0] == text@[start as int]);
        }
        assert(trim_start(text@) == tail);
    }
    let mut end: usize = n;
    while end > start && char_is_whitespace(text.get_char(end - 1))
        invariant
            start <= end <= n,
            n == text@.len(),
            forall|k: int| end <= k < n ==> is_whitespace(#[trigger] text@[k]),
        decreases end,
    {
        end -= 1;
    }
    proof {
        let kept = text@.subrange(start as int, end as int);
        assert forall|k: int| end - start <= k < tail.len() implies is_whitespace(
            #[trigger] tail[k],
        ) by {
            assert(tail[k] == text@[start + k]);
        }
        lemma_trim_end_skips(tail, end - start);
        assert(tail.subrange(0, end - start) =~= kept);
        if end > start {
            assert(kept.last() == text@[end - 1]);
        }
        assert(trim_end(tail) == kept);
    }
    text.substring_char(start, end)
}

/// Reads a text as a whole number of 64 bits: a sign or none, then digits.
/// The first fault from the left decides what is reported.
pub fn parse_integer(text: &str) -> (number: Result<i64, IntegerError>)
    ensures
        number == parsed_integer(text@),
{
    let n = text.unicode_len();
    if n == 0 {
        return Err(IntegerError::Empty);
    }
    let first = text.get_char(0);
    let negative = first == '-';
    let from: usize = if first == '+' || first == '-' {
        1
    } else {
        0
    };
    let ghost digits = unsigned_part(text@);
    assert(digits =~= text@.subrange(from as int, n as int));
    if from == n {
        return Err(IntegerError::InvalidDigit);
    }
    let limit: u64 = if negative {
        0x8000_0000_0000_0000
    } else {
        0x7fff_ffff_ffff_ffff
    };
    let mut magnitude: u64 = 0;
    let mut i: usize = from;
    while i < n
        invariant
            from <= i <= n,
            0 < n == text@.len(),
            negative == is_negative(text@),
            limit == magnitude_limit(negative),
            digits == unsigned_part(text@),
            digits == text@.subrange(from as int, n as int),
            magnitude_of(digits.subrange(0, i - from), negative) == Ok::<nat, IntegerError>(
                magnitude as nat,
            ),
            magnitude <= limit,
        decreases n - i,
    {
        let code = text.get_char(i) as u32;
        proof {
            let longer = digits.subrange(0, i - from + 1);
            assert(longer.drop_last() =~= digits.subrange(0, i - from));
            assert(longer.last() == digits[i - from]);
            assert(digits[i - from] == text@[i as int]);
        }
        if code < 48 || code > 57 {
            proof {
                lemma_fault_persists(digits, negative, i - from + 1);
            }
            return Err(IntegerError::InvalidDigit);
        }
        let digit = (code - 48) as u64;
        if magnitude > (limit - digit) / 10 {
            proof {
                lemma_fault_persists(digits, negative, i - from + 1);
            }
            return Err(
                if negative {
                    IntegerError::NegOverflow
                } else {
                    IntegerError::PosOverflow
                },
            );
        }
        magnitude = magnitude * 10 + digit;
        i += 1;
    }
    assert(digits.subrange(0, n - from) =~= digits);
    if negative {
        if magnitude == limit {
            Ok(i64::MIN)
        } else {
            Ok(-(magnitude as i64))
        }
    } else {
        Ok(magnitude as i64)
    }
}

} // verus!
