//! The command line: numbers among its arguments, and what a run is to do.

use vstd::prelude::*;
use vstd::string::is_ascii_spec_bytes;
use vstd::utf8::is_ascii_chars;

verus! {

/// The number of levels that is taken where the command line gives none.
pub const DEFAULT_STEPS: u32 = 6;

/// The colour scheme that is taken where the command line gives none.
pub const DEFAULT_COLOR_OPTION: u32 = 1;

/// The byte of the plus sign in ASCII.
const ASCII_PLUS: u8 = 43;

/// The byte of the digit zero in ASCII.
const ASCII_ZERO: u8 = 48;

/// The byte of the digit nine in ASCII.
const ASCII_NINE: u8 = 57;

/// What a program run is asked to do.
#[derive(Clone, Copy, Debug, PartialEq, Eq, Structural)]
pub struct Config {
    pub steps: u32,
    pub benchmark: bool,
    pub color_option: u32,
}

/// What the command line holds in the place of one number.
#[derive(Clone, Copy, Debug, PartialEq, Eq, Structural)]
pub enum Argument {
    /// A number.
    Value(u32),
    /// Text that is not the numeral of a `u32`.
    Unparsable,
    /// Nothing: the command line is too short.
    Missing,
}

/// The value of a decimal digit, `None` for any other character.
pub open spec fn digit_value(c: char) -> Option<nat> {
    if c == '0' {
        Some(0)
    } else if c == '1' {
        Some(1)
    } else if c == '2' {
        Some(2)
    } else if c == '3' {
        Some(3)
    } else if c == '4' {
        Some(4)
    } else if c == '5' {
        Some(5)
    } else if c == '6' {
        Some(6)
    } else if c == '7' {
        Some(7)
    } else if c == '8' {
        Some(8)
    } else if c == '9' {
        Some(9)
    } else {
        None
    }
}

/// Every character of `text` is a decimal digit.
pub open spec fn all_digits(text: Seq<char>) -> bool {
    forall|i: int| 0 <= i < text.len() ==> digit_value(#[trigger] text[i]) is Some
}

/// The number that the digits of `text` spell, a character that is no digit
/// counting as zero.
pub open spec fn decimal_value(text: Seq<char>) -> nat
    decreases text.len(),
{
    if text.len() == 0 {
        0
    } else {
        10 * decimal_value(text.drop_last()) + (match digit_value(text.last()) {
            Some(digit) => digit,
            None => 0,
        })
    }
}

/// `text` without the plus sign that may stand before a number.
pub open spec fn unsigned_part(text: Seq<char>) -> Seq<char> {
    if text.len() > 0 && text[0] == '+' {
        text.skip(1)
    } else {
        text
    }
}

/// The number that `text` is the numeral of: one or more decimal digits,
/// after at most one plus sign, that spell no more than a `u32` holds.
pub open spec fn parsed_number(text: Seq<char>) -> Option<u32> {
    let digits = unsigned_part(text);
    if digits.len() > 0 && all_digits(digits) && decimal_value(digits) <= u32::MAX {
        Some(decimal_value(digits) as u32)
    } else {
        None
    }
}

/// What `args` holds at `index`.
pub open spec fn argument_at(args: Seq<String>, index: int) -> Argument {
    if 0 <= index < args.len() {
        match parsed_number(args[index]@) {
            Some(value) => Argument::Value(value),
            None => Argument::Unparsable,
        }
    } else {
        Argument::Missing
    }
}

/// A longer numeral spells no less than its beginning.
proof fn lemma_decimal_value_grows(text: Seq<char>, len: int)
    requires
        0 <= len <= text.len(),
    ensures
        decimal_value(text.take(len)) <= decimal_value(text),
    decreases text.len(),
{
    if len == text.len() {
        assert(text.take(len) =~= text);
    } else {
        assert(text.drop_last().take(len) =~= text.take(len));
        lemma_decimal_value_grows(text.drop_last(), len);
    }
}

/// A numeral holds no character outside ASCII.
proof fn lemma_numeral_is_ascii(text: Seq<char>)
    requires
        parsed_number(text) is Some,
    ensures
        is_ascii_chars(text),
{
    let digits = unsigned_part(text);
    assert forall|i: int| 0 <= i < text.len() implies '\0' <= #[trigger] text[i] <= '\u{7f}' by {
        if digits.len() == text.len() {
        } else if i > 0 {
            assert(digit_value(digits[i - 1]) is Some);
        }
    }
}

/// Reads `text` as the numeral of a `u32`.
pub fn parse_number(text: &str) -> (number: Option<u32>)
    ensures
        number == parsed_number(text@),
{
    if !text.is_ascii() {
        proof {
            if parsed_number(text@) is Some {
                lemma_numeral_is_ascii(text@);
            }
        }
        return None;
    }
    let bytes = text.as_bytes();
    proof {
        is_ascii_spec_bytes(text);
    }
    let len = bytes.len();
    let start: usize = if len > 0 && bytes[0] == ASCII_PLUS {
        1
    } else {
        0
    };
    let ghost digits = unsigned_part(text@);
    if start == len {
        return None;
    }
    let mut value: u32 = 0;
    let mut i: usize = start;
    while i < len
        invariant
            start <= i <= len,
            len == text@.len(),
            is_ascii_chars(text@),
            bytes@ == Seq::new(text@.len(), |k: int| text@[k] as u8),
            digits == text@.skip(start as int),
            digits == unsigned_part(text@),
            all_digits(digits.take(i - start)),
            value == decimal_value(digits.take(i - start)),
        decreases len - i,
    {
        let byte = bytes[i];
        let ghost seen = digits.take(i - start);
        let ghost next = digits.take(i - start + 1);
        proof {
            assert(next.drop_last() =~= seen);
            lemma_decimal_value_grows(digits, i - start + 1);
        }
        if byte < ASCII_ZERO || byte > ASCII_NINE {
            return None;
        }
        let digit = (byte - ASCII_ZERO) as u32;
        let tens = match value.checked_mul(10) {
            Some(tens) => tens,
            None => {
                return None;
            },
        };
        value = match tens.checked_add(digit) {
            Some(sum) => sum,
            None => {
                return None;
            },
        };
        i = i + 1;
    }
    assert(digits.take(i - start) =~= digits);
    Some(value)
}

/// Reads the entry of `args` at `index` as a number.
pub fn read_argument(args: &Vec<String>, index: usize) -> (argument: Argument)
    ensures
        argument == argument_at(args@, index as int),
{
    if index < args.len() {
        match parse_number(args[index].as_str()) {
            Some(value) => Argument::Value(value),
            None => Argument::Unparsable,
        }
    } else {
        Argument::Missing
    }
}

impl Argument {
    /// The number, or `default` where there is none.
    pub open spec fn value_or(self, default: u32) -> u32 {
        match self {
            Argument::Value(value) => value,
            _ => default,
        }
    }

    /// The number, or `default` where there is none.
    pub fn or_default(self, default: u32) -> (value: u32)
        ensures
            value == self.value_or(default),
    {
        match self {
            Argument::Value(value) => value,
            _ => default,
        }
    }
}

impl Config {
    /// What the command line `args` asks for. A benchmark run reads no
    /// arguments. Otherwise the entry after the program's name is the
    /// number of levels and the one after it selects the colour scheme; an
    /// entry that is missing or no number gives way to the default.
    pub open spec fn built(benchmark: bool, args: Seq<String>) -> Config {
        if benchmark {
            Config { steps: 0, benchmark: true, color_option: 0 }
        } else {
            Config {
                steps: argument_at(args, 1).value_or(DEFAULT_STEPS),
                benchmark: false,
                color_option: argument_at(args, 2).value_or(DEFAULT_COLOR_OPTION),
            }
        }
    }

    /// Settles what a run is to do, from whether a benchmark is asked for
    /// and from the command line, the program's name first.
    pub fn build(benchmark: bool, args: &Vec<String>) -> (config: Config)
        ensures
            config == Config::built(benchmark, args@),
    {
        if benchmark {
            return Config { benchmark: true, steps: 0, color_option: 0 };
        }
        let steps = read_argument(args, 1).or_default(DEFAULT_STEPS);
        let color_option = read_argument(args, 2).or_default(DEFAULT_COLOR_OPTION);
        Config { steps, benchmark: false, color_option }
    }
}

} // verus!
