//! Unsigned decimal numerals: the text of a number and the number of a text.

use vstd::prelude::*;
use vstd::std_specs::iter::IteratorSpec;

verus! {

/// Why a text is not the decimal numeral of a `u64`.
#[derive(Clone, Copy, Debug, PartialEq, Eq, Structural)]
pub enum NumeralError {
    /// The text is empty.
    Empty,
    /// A character is not one of `0` to `9`, or a sign stands alone.
    InvalidDigit,
    /// The digits denote a number above `u64::MAX`.
    PosOverflow,
}

/// The character that writes the digit `d`.
pub open spec fn digit_char(d: int) -> char {
    if d == 0 {
        '0'
    } else if d == 1 {
        '1'
    } else if d == 2 {
        '2'
    } else if d == 3 {
        '3'
    } else if d == 4 {
        '4'
    } else if d == 5 {
        '5'
    } else if d == 6 {
        '6'
    } else if d == 7 {
        '7'
    } else if d == 8 {
        '8'
    } else {
        '9'
    }
}

/// The digit that `c` writes, if it writes one.
pub open spec fn digit_value(c: char) -> Option<int> {
    if c == '0' {
        Some(0)
    } else if c == '1' {
        Some(1)
    } else if c == '2' {
        Some(2)
    } else if c == '3' {
        Some(3)
    } else if c == '4' {
        Some(4)
    } else if c == '5' {
        Some(5)
    } else if c == '6' {
        Some(6)
    } else if c == '7' {
        Some(7)
    } else if c == '8' {
        Some(8)
    } else if c == '9' {
        Some(9)
    } else {
        None
    }
}

/// The decimal numeral of `n`: no sign, no leading zero, `"0"` for zero.
pub open spec fn decimal_text(n: nat) -> Seq<char>
    decreases n,
{
    if n < 10 {
        seq![digit_char(n as int)]
    } else {
        decimal_text(n / 10).push(digit_char((n % 10) as int))
    }
}

/// Reads `digits` from left to right as a decimal number and stops at the
/// first character that is no digit, or at the first digit with which the
/// number read so far leaves the range of `u64`.
pub open spec fn read_digits(digits: Seq<char>) -> Result<int, NumeralError>
    decreases digits.len(),
{
    if digits.len() == 0 {
        Ok(0)
    } else {
        match read_digits(digits.drop_last()) {
            Err(e) => Err(e),
            Ok(v) => match digit_value(digits.last()) {
                None => Err(NumeralError::InvalidDigit),
                Some(d) => if v * 10 + d > u64::MAX {
                    Err(NumeralError::PosOverflow)
                } else {
                    Ok(v * 10 + d)
                },
            },
        }
    }
}

/// The digits of a numeral: the text without one leading `+`, if it has one.
pub open spec fn unsigned_part(text: Seq<char>) -> Seq<char> {
    if text.len() > 0 && text[0] == '+' {
        text.subrange(1, text.len() as int)
    } else {
        text
    }
}

/// The number that `text` denotes: an optional `+`, then at least one digit,
/// nothing before, between or after, and a value that fits in a `u64`.
pub open spec fn parse_decimal(text: Seq<char>) -> Result<int, NumeralError> {
    if text.len() == 0 {
        Err(NumeralError::Empty)
    } else if unsigned_part(text).len() == 0 {
        Err(NumeralError::InvalidDigit)
    } else {
        read_digits(unsigned_part(text))
    }
}

/// The one-character text of a digit.
fn digit_str(d: u64) -> (text: &'static str)
    requires
        d < 10,
    ensures
        text@ == seq![digit_char(d as int)],
{
    proof {
        reveal_strlit("0");
        reveal_strlit("1");
        reveal_strlit("2");
        reveal_strlit("3");
        reveal_strlit("4");
        reveal_strlit("5");
        reveal_strlit("6");
        reveal_strlit("7");
        reveal_strlit("8");
        reveal_strlit("9");
    }
    let text: &'static str = if d == 0 {
        "0"
    } else if d == 1 {
        "1"
    } else if d == 2 {
        "2"
    } else if d == 3 {
        "3"
    } else if d == 4 {
        "4"
    } else if d == 5 {
        "5"
    } else if d == 6 {
        "6"
    } else if d == 7 {
        "7"
    } else if d == 8 {
        "8"
    } else {
        "9"
    };
    assert(text@ =~= seq![digit_char(d as int)]);
    text
}

/// Writes `n` as a decimal numeral.
pub fn to_decimal(n: u64) -> (text: String)
    ensures
        text@ == decimal_text(n as nat),
    decreases n,
{
    if n < 10 {
        String::from_str(digit_str(n))
    } else {
        let mut text = to_decimal(n / 10);
        text.append(digit_str(n % 10));
        text
    }
}

/// What `parse_u64` returns, with the number widened to `int`.
pub open spec fn widen(r: Result<u64, NumeralError>) -> Result<int, NumeralError> {
    match r {
        Ok(v) => Ok(v as int),
        Err(e) => Err(e),
    }
}

/// A failure while reading digits is final: more characters do not mend it.
proof fn lemma_read_digits_failure_is_final(head: Seq<char>, tail: Seq<char>)
    requires
        read_digits(head) is Err,
    ensures
        read_digits(head + tail) == read_digits(head),
    decreases tail.len(),
{
    if tail.len() == 0 {
        assert(head + tail =~= head);
    } else {
        lemma_read_digits_failure_is_final(head, tail.drop_last());
        assert((head + tail).drop_last() =~= head + tail.drop_last());
    }
}

/// The digit that `c` writes, if it writes one.
fn digit_of(c: char) -> (d: Option<u64>)
    ensures
        match d {
            Some(v) => digit_value(c) == Some(v as int) && v < 10,
            None => digit_value(c) is None,
        },
{
    if c == '0' {
        Some(0)
    } else if c == '1' {
        Some(1)
    } else if c == '2' {
        Some(2)
    } else if c == '3' {
        Some(3)
    } else if c == '4' {
        Some(4)
    } else if c == '5' {
        Some(5)
    } else if c == '6' {
        Some(6)
    } else if c == '7' {
        Some(7)
    } else if c == '8' {
        Some(8)
    } else if c == '9' {
        Some(9)
    } else {
        None
    }
}

/// Reads a decimal numeral: an optional `+`, then digits, with a value that
/// fits in a `u64`. Anything else is refused, and the error says why.
pub fn parse_u64(text: &str) -> (r: Result<u64, NumeralError>)
    ensures
        widen(r) == parse_decimal(text@),
{
    let mut chars = text.chars();
    let mut value: u64 = 0;
    let mut first: bool = true;
    let mut any_digit: bool = false;
    let ghost mut sign: Seq<char> = Seq::empty();
    let ghost mut read: Seq<char> = Seq::empty();
    proof {
        assert(sign + read + chars.remaining() =~= text@);
    }
    loop
        invariant
            chars.obeys_prophetic_iter_laws(),
            chars.decrease() is Some,
            text@ == sign + read + chars.remaining(),
            sign.len() == 0 || sign == seq!['+'],
            first ==> sign.len() == 0 && read.len() == 0,
            !first ==> sign.len() > 0 || read.len() > 0,
            read.len() > 0 ==> read[0] != '+' || sign.len() > 0,
            read_digits(read) == Ok::<int, NumeralError>(value as int),
            any_digit == (read.len() > 0),
        ensures
            chars.remaining().len() == 0,
            text@ == sign + read,
        decreases chars.decrease()->0,
    {
        let ghost before = chars.remaining();
        match chars.next() {
            None => {
                break ;
            },
            Some(c) => {
                let ghost rest = chars.remaining();
                assert(before =~= seq![c] + rest);
                if first && c == '+' {
                    first = false;
                    proof {
                        sign = seq!['+'];
                        assert(text@ =~= sign + read + rest);
                    }
                } else {
                    first = false;
                    proof {
                        assert(text@ =~= sign + read.push(c) + rest);
                        assert(unsigned_part(text@) =~= read.push(c) + rest);
                        assert(read.push(c).drop_last() =~= read);
                    }
                    match digit_of(c) {
                        None => {
                            proof {
                                lemma_read_digits_failure_is_final(read.push(c), rest);
                            }
                            return Err(NumeralError::InvalidDigit);
                        },
                        Some(d) => {
                            let next = match value.checked_mul(10) {
                                Some(tens) => tens.checked_add(d),
                                None => None,
                            };
                            match next {
                                None => {
                                    proof {
                                        lemma_read_digits_failure_is_final(read.push(c), rest);
                                    }
                                    return Err(NumeralError::PosOverflow);
                                },
                                Some(v) => {
                                    value = v;
                                    any_digit = true;
                                    proof {
                                        read = read.push(c);
                                    }
                                },
                            }
                        },
                    }
                }
            },
        }
    }
    proof {
        assert(text@ =~= sign + read);
        if sign.len() > 0 {
            assert(unsigned_part(text@) =~= read);
        } else {
            assert(text@ =~= read);
            assert(unsigned_part(text@) =~= read);
        }
    }
    if first {
        Err(NumeralError::Empty)
    } else if !any_digit {
        Err(NumeralError::InvalidDigit)
    } else {
        Ok(value)
    }
}

/// Whether every character of `digits` is a digit.
pub open spec fn all_digits(digits: Seq<char>) -> bool {
    forall|i: int| 0 <= i < digits.len() ==> digit_value(#[trigger] digits[i]) is Some
}

/// The number that a run of digits writes, most significant digit first.
pub open spec fn number_of(digits: Seq<char>) -> int
    decreases digits.len(),
{
    if digits.len() == 0 {
        0
    } else {
        number_of(digits.drop_last()) * 10 + match digit_value(digits.last()) {
            Some(d) => d,
            None => 0,
        }
    }
}

/// Reading succeeds on exactly the runs of digits whose number fits in a
/// `u64`, and gives that number.
pub proof fn lemma_read_digits_accepts_numerals(digits: Seq<char>)
    ensures
        number_of(digits) >= 0,
        read_digits(digits) is Ok <==> all_digits(digits) && number_of(digits) <= u64::MAX,
        read_digits(digits) is Ok ==> read_digits(digits) == Ok::<int, NumeralError>(
            number_of(digits),
        ),
    decreases digits.len(),
{
    if digits.len() > 0 {
        let front = digits.drop_last();
        lemma_read_digits_accepts_numerals(front);
        assert forall|i: int| 0 <= i < front.len() implies front[i] == digits[i] by {}
        if all_digits(digits) {
            assert(digit_value(digits[digits.len() - 1]) is Some);
            assert forall|i: int| 0 <= i < front.len() implies digit_value(
                #[trigger] front[i],
            ) is Some by {
                assert(front[i] == digits[i]);
            }
        }
        if all_digits(front) && digit_value(digits.last()) is Some {
            assert forall|i: int| 0 <= i < digits.len() implies digit_value(
                #[trigger] digits[i],
            ) is Some by {
                if i < front.len() {
                    assert(front[i] == digits[i]);
                }
            }
        }
    }
}

/// A text is read as a number exactly when it is an optional `+` followed by
/// at least one digit and nothing else, and the number fits in a `u64`.
pub proof fn lemma_parse_accepts_numerals(text: Seq<char>)
    ensures
        parse_decimal(text) is Ok <==> unsigned_part(text).len() > 0 && all_digits(
            unsigned_part(text),
        ) && number_of(unsigned_part(text)) <= u64::MAX,
        parse_decimal(text) is Ok ==> parse_decimal(text) == Ok::<int, NumeralError>(
            number_of(unsigned_part(text)),
        ),
        parse_decimal(text) == Err::<int, NumeralError>(NumeralError::Empty) <==> text.len() == 0,
        parse_decimal(text) matches Ok(n) ==> 0 <= n <= u64::MAX,
{
    lemma_read_digits_accepts_numerals(unsigned_part(text));
    if text.len() > 0 && unsigned_part(text).len() > 0 {
        lemma_read_digits_never_empty(unsigned_part(text));
    }
}

/// Reading digits never fails for want of text.
proof fn lemma_read_digits_never_empty(digits: Seq<char>)
    ensures
        read_digits(digits) != Err::<int, NumeralError>(NumeralError::Empty),
    decreases digits.len(),
{
    if digits.len() > 0 {
        lemma_read_digits_never_empty(digits.drop_last());
    }
}

/// Every character of a decimal numeral is a digit, and reading the numeral
/// of a `u64` gives the number back.
pub proof fn lemma_read_decimal_text(n: nat)
    requires
        n <= u64::MAX,
    ensures
        decimal_text(n).len() > 0,
        forall|i: int| 0 <= i < decimal_text(n).len() ==> digit_value(decimal_text(n)[i]) is Some,
        read_digits(decimal_text(n)) == Ok::<int, NumeralError>(n as int),
    decreases n,
{
    let text = decimal_text(n);
    if n < 10 {
        assert(text.drop_last() =~= Seq::<char>::empty());
        assert(read_digits(text.drop_last()) == Ok::<int, NumeralError>(0));
        assert(digit_value(text.last()) == Some(n as int));
    } else {
        lemma_read_decimal_text(n / 10);
        assert(text.drop_last() =~= decimal_text(n / 10));
        assert(digit_value(text.last()) == Some((n % 10) as int));
        assert((n / 10) * 10 + n % 10 == n);
    }
}

/// Writing a number and reading the text again gives the number: the two
/// directions agree on every `u64`.
pub proof fn lemma_parse_of_decimal_text(n: nat)
    requires
        n <= u64::MAX,
    ensures
        parse_decimal(decimal_text(n)) == Ok::<int, NumeralError>(n as int),
{
    lemma_read_decimal_text(n);
    assert(digit_value(decimal_text(n)[0]) is Some);
}

/// Different numbers have different numerals.
pub proof fn lemma_decimal_text_injective(a: nat, b: nat)
    requires
        a <= u64::MAX,
        b <= u64::MAX,
        decimal_text(a) == decimal_text(b),
    ensures
        a == b,
{
    lemma_read_decimal_text(a);
    lemma_read_decimal_text(b);
}

} // verus!
