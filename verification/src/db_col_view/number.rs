//! Whole numbers as the user types them into a search field.
//!
//! A number is an optional sign, `+` or `-`, and one or more of the
//! digits `0` to `9`; nothing is trimmed. The text is read from the left,
//! and the first thing that is wrong with it decides the fault.

use vstd::prelude::*;
use vstd::string::StringExecFns;

verus! {

/// What is wrong with a text that should be a whole number.
#[derive(Debug, Clone, Copy, PartialEq, Eq)]
pub enum NumberFault {
    /// The text is empty.
    Empty,
    /// A character is no digit, or a sign stands alone.
    InvalidDigit,
    /// The number is above the largest value of the type.
    TooLarge,
    /// The number is below the smallest value of the type.
    TooSmall,
}

/// The value of a digit, and nothing for any other character.
pub open spec fn digit_value(c: char) -> Option<int> {
    if '0' <= c && c <= '9' {
        Some(c as int - '0' as int)
    } else {
        None
    }
}

/// Reads digits from the left onto the value read so far. A negative
/// number grows downwards, so that the smallest value can be read.
pub open spec fn read_digits(digits: Seq<char>, negative: bool, value: int) -> Result<
    int,
    NumberFault,
>
    decreases digits.len(),
{
    if digits.len() == 0 {
        Ok(value)
    } else {
        match digit_value(digits[0]) {
            None => Err(NumberFault::InvalidDigit),
            Some(digit) => {
                let next = if negative {
                    value * 10 - digit
                } else {
                    value * 10 + digit
                };
                if next > i32::MAX {
                    Err(NumberFault::TooLarge)
                } else if next < i32::MIN {
                    Err(NumberFault::TooSmall)
                } else {
                    read_digits(digits.drop_first(), negative, next)
                }
            },
        }
    }
}

/// The number that a text stands for, or what is wrong with the text.
pub open spec fn read_number(text: Seq<char>) -> Result<i32, NumberFault> {
    if text.len() == 0 {
        Err(NumberFault::Empty)
    } else {
        let signed = text[0] == '-' || text[0] == '+';
        let digits = if signed {
            text.drop_first()
        } else {
            text
        };
        if digits.len() == 0 {
            Err(NumberFault::InvalidDigit)
        } else {
            match read_digits(digits, text[0] == '-', 0) {
                Ok(value) => Ok(value as i32),
                Err(fault) => Err(fault),
            }
        }
    }
}

impl NumberFault {
    /// The words that describe the fault.
    pub open spec fn text(self) -> Seq<char> {
        match self {
            NumberFault::Empty => "cannot parse integer from empty string"@,
            NumberFault::InvalidDigit => "invalid digit found in string"@,
            NumberFault::TooLarge => "number too large to fit in target type"@,
            NumberFault::TooSmall => "number too small to fit in target type"@,
        }
    }

    /// The words that describe the fault, for an error message.
    pub fn message(&self) -> (message: String)
        ensures
            message@ == self.text(),
    {
        match self {
            NumberFault::Empty => "cannot parse integer from empty string".to_owned(),
            NumberFault::InvalidDigit => "invalid digit found in string".to_owned(),
            NumberFault::TooLarge => "number too large to fit in target type".to_owned(),
            NumberFault::TooSmall => "number too small to fit in target type".to_owned(),
        }
    }
}

/// The value of a digit.
fn digit_of(c: char) -> (digit: Option<i64>)
    ensures
        digit is Some <==> digit_value(c) is Some,
        digit is Some ==> digit->0 == digit_value(c)->0,
{
    match c {
        '0' => Some(0),
        '1' => Some(1),
        '2' => Some(2),
        '3' => Some(3),
        '4' => Some(4),
        '5' => Some(5),
        '6' => Some(6),
        '7' => Some(7),
        '8' => Some(8),
        '9' => Some(9),
        _ => None,
    }
}

/// Reads a whole number of 32 bits from a text.
pub fn parse_number(text: &str) -> (result: Result<i32, NumberFault>)
    ensures
        result == read_number(text@),
{
    let len = text.unicode_len();
    if len == 0 {
        return Err(NumberFault::Empty);
    }
    let first = text.get_char(0);
    let negative = first == '-';
    let start: usize = if first == '-' || first == '+' {
        1
    } else {
        0
    };
    if start == len {
        return Err(NumberFault::InvalidDigit);
    }
    let ghost digits = if start == 1 {
        text@.drop_first()
    } else {
        text@
    };
    assert(digits =~= text@.skip(start as int));
    let ghost expected = read_digits(digits, negative, 0);
    let mut value: i64 = 0;
    let mut i: usize = start;
    while i < len
        invariant
            start <= i <= len,
            len == text@.len(),
            i32::MIN <= value <= i32::MAX,
            read_number(text@) == (match expected {
                Ok(number) => Ok(number as i32),
                Err(fault) => Err(fault),
            }),
            expected == read_digits(text@.skip(i as int), negative, value as int),
        decreases len - i,
    {
        let c = text.get_char(i);
        assert(text@.skip(i as int)[0] == c);
        assert(text@.skip(i as int).drop_first() =~= text@.skip(i + 1));
        match digit_of(c) {
            None => {
                return Err(NumberFault::InvalidDigit);
            },
            Some(digit) => {
                let next: i64 = if negative {
                    value * 10 - digit
                } else {
                    value * 10 + digit
                };
                if next > 2147483647 {
                    return Err(NumberFault::TooLarge);
                }
                if next < -2147483648 {
                    return Err(NumberFault::TooSmall);
                }
                value = next;
            },
        }
        i += 1;
    }
    assert(text@.skip(len as int).len() == 0);
    Ok(value as i32)
}

/// The character of a digit.
pub open spec fn digit_char(digit: int) -> char {
    if digit == 0 {
        '0'
    } else if digit == 1 {
        '1'
    } else if digit == 2 {
        '2'
    } else if digit == 3 {
        '3'
    } else if digit == 4 {
        '4'
    } else if digit == 5 {
        '5'
    } else if digit == 6 {
        '6'
    } else if digit == 7 {
        '7'
    } else if digit == 8 {
        '8'
    } else {
        '9'
    }
}

/// The digits of a number that is not negative, the highest first,
/// without leading zeros.
pub open spec fn digits_of(number: nat) -> Seq<char>
    decreases number,
{
    if number < 10 {
        seq![digit_char(number as int)]
    } else {
        digits_of(number / 10).push(digit_char((number % 10) as int))
    }
}

/// A whole number as the user reads it: its digits, with `-` in front
/// where it is negative.
pub open spec fn decimal(number: int) -> Seq<char> {
    if number < 0 {
        seq!['-'] + digits_of((-number) as nat)
    } else {
        digits_of(number as nat)
    }
}

/// Reading a text and one more digit is reading the text and then the digit.
proof fn one_more_digit_is_read_last(digits: Seq<char>, last: char, negative: bool, value: int)
    ensures
        read_digits(digits.push(last), negative, value) == (match read_digits(
            digits,
            negative,
            value,
        ) {
            Ok(read) => read_digits(seq![last], negative, read),
            Err(fault) => Err(fault),
        }),
    decreases digits.len(),
{
    if digits.len() == 0 {
        assert(digits.push(last) =~= seq![last]);
    } else {
        assert(digits.push(last).drop_first() =~= digits.drop_first().push(last));
        assert(digits.push(last)[0] == digits[0]);
        match digit_value(digits[0]) {
            None => {},
            Some(digit) => {
                let next = if negative {
                    value * 10 - digit
                } else {
                    value * 10 + digit
                };
                if i32::MIN <= next <= i32::MAX {
                    one_more_digit_is_read_last(digits.drop_first(), last, negative, next);
                }
            },
        }
    }
}

/// Reading one digit onto a value shifts the value by a place and adds
/// the digit, or takes it off where the number is negative.
proof fn one_digit_is_read(digit: int, negative: bool, value: int)
    requires
        0 <= digit <= 9,
        i32::MIN <= (if negative {
            value * 10 - digit
        } else {
            value * 10 + digit
        }) <= i32::MAX,
    ensures
        read_digits(seq![digit_char(digit)], negative, value) == Ok::<int, NumberFault>(
            if negative {
                value * 10 - digit
            } else {
                value * 10 + digit
            },
        ),
{
    reveal_with_fuel(read_digits, 2);
    assert(digit_value(digit_char(digit)) == Some(digit));
    assert(seq![digit_char(digit)].drop_first() =~= Seq::<char>::empty());
}

/// The digits of a number are read as the number, or as its negative
/// where a `-` stood in front, as long as the result is within the type.
proof fn digits_are_read_back(number: nat, negative: bool)
    requires
        negative ==> number <= 2147483648,
        !negative ==> number <= 2147483647,
    ensures
        digits_of(number).len() > 0,
        digit_value(digits_of(number)[0]) is Some,
        read_digits(digits_of(number), negative, 0) == Ok::<int, NumberFault>(
            if negative {
                -(number as int)
            } else {
                number as int
            },
        ),
    decreases number,
{
    let last = digit_char((number % 10) as int);
    assert(digit_value(last) == Some((number % 10) as int));
    if number >= 10 {
        digits_are_read_back(number / 10, negative);
        one_more_digit_is_read_last(digits_of(number / 10), last, negative, 0);
        let read = if negative {
            -((number / 10) as int)
        } else {
            (number / 10) as int
        };
        one_digit_is_read((number % 10) as int, negative, read);
    } else {
        one_digit_is_read(number as int, negative, 0);
    }
}

/// What is written is read back: the text of a number of 32 bits is read
/// as that number.
pub proof fn written_number_is_read_back(number: i32)
    ensures
        read_number(decimal(number as int)) == Ok::<i32, NumberFault>(number),
{
    if number < 0 {
        let magnitude = (-(number as int)) as nat;
        digits_are_read_back(magnitude, true);
        let text = decimal(number as int);
        assert(text[0] == '-');
        assert(text.drop_first() =~= digits_of(magnitude));
    } else {
        digits_are_read_back(number as nat, false);
    }
}

/// The text of a digit.
fn digit_text(digit: u64) -> (text: &'static str)
    requires
        digit < 10,
    ensures
        text@ == seq![digit_char(digit as int)],
{
    proof {
        reveal_strlit("0");
        reveal_strlit("1");
        reveal_strlit("2");
        reveal_strlit("3");
        reveal_strlit("4");
        reveal_strlit("5");
        reveal_strlit("6");
        reveal_strlit("7");
        reveal_strlit("8");
        reveal_strlit("9");
    }
    let text = if digit == 0 {
        "0"
    } else if digit == 1 {
        "1"
    } else if digit == 2 {
        "2"
    } else if digit == 3 {
        "3"
    } else if digit == 4 {
        "4"
    } else if digit == 5 {
        "5"
    } else if digit == 6 {
        "6"
    } else if digit == 7 {
        "7"
    } else if digit == 8 {
        "8"
    } else {
        "9"
    };
    assert(text@ =~= seq![digit_char(digit as int)]);
    text
}

/// Writes the digits of a number behind a text.
fn append_digits(text: &mut String, number: u64)
    ensures
        final(text)@ == old(text)@ + digits_of(number as nat),
    decreases number,
{
    if number >= 10 {
        append_digits(text, number / 10);
    }
    text.append(digit_text(number % 10));
    assert(final(text)@ =~= old(text)@ + digits_of(number as nat)) by {
        if number >= 10 {
            assert((old(text)@ + digits_of((number / 10) as nat)) + seq![
                digit_char((number % 10) as int),
            ] =~= old(text)@ + digits_of((number / 10) as nat).push(
                digit_char((number % 10) as int),
            ));
        }
    }
}

/// Writes a whole number behind a text.
pub fn append_number(text: &mut String, number: i64)
    ensures
        final(text)@ == old(text)@ + decimal(number as int),
{
    if number < 0 {
        text.append("-");
        proof {
            reveal_strlit("-");
        }
        let magnitude: u64 = if number == i64::MIN {
            9223372036854775808
        } else {
            (-number) as u64
        };
        append_digits(text, magnitude);
        assert(final(text)@ =~= old(text)@ + decimal(number as int));
    } else {
        append_digits(text, number as u64);
    }
}

/// A whole number as a text.
pub fn number_text(number: i64) -> (text: String)
    ensures
        text@ == decimal(number as int),
{
    let mut text = String::new();
    append_number(&mut text, number);
    assert(Seq::<char>::empty() + decimal(number as int) =~= decimal(number as int));
    text
}

} // verus!
