//! The name of the file that an image is written to.

use vstd::prelude::*;
use vstd::string::StringExecFns;

verus! {

/// The character for a decimal digit.
pub open spec fn digit_char(digit: nat) -> char
    recommends
        digit < 10,
{
    if digit == 0 {
        '0'
    } else if digit == 1 {
        '1'
    } else if digit == 2 {
        '2'
    } else if digit == 3 {
        '3'
    } else if digit == 4 {
        '4'
    } else if digit == 5 {
        '5'
    } else if digit == 6 {
        '6'
    } else if digit == 7 {
        '7'
    } else if digit == 8 {
        '8'
    } else {
        '9'
    }
}

/// The decimal numeral for `n`, without leading zeros.
pub open spec fn decimal(n: nat) -> Seq<char>
    decreases n,
{
    if n < 10 {
        seq![digit_char(n)]
    } else {
        decimal(n / 10).push(digit_char(n % 10))
    }
}

/// The path of the file for the carpet of `steps` levels in the colour
/// scheme called `color_name`.
pub open spec fn image_path(steps: nat, color_name: Seq<char>) -> Seq<char> {
    "./"@ + "sierpinski_carpet"@ + "-"@ + decimal(steps) + "-"@ + color_name + ".png"@
}

/// The numeral for one digit.
fn digit_str(digit: u32) -> (numeral: &'static str)
    requires
        digit < 10,
    ensures
        numeral@ == seq![digit_char(digit as nat)],
{
    proof {
        reveal_strlit("0");
        reveal_strlit("1");
        reveal_strlit("2");
        reveal_strlit("3");
        reveal_strlit("4");
        reveal_strlit("5");
        reveal_strlit("6");
        reveal_strlit("7");
        reveal_strlit("8");
        reveal_strlit("9");
    }
    let numeral = match digit {
        0 => "0",
        1 => "1",
        2 => "2",
        3 => "3",
        4 => "4",
        5 => "5",
        6 => "6",
        7 => "7",
        8 => "8",
        _ => "9",
    };
    numeral
}

/// Appends the decimal numeral for `n` to `text`.
pub fn push_decimal(text: &mut String, n: u32)
    ensures
        final(text)@ == old(text)@ + decimal(n as nat),
    decreases n,
{
    if n >= 10 {
        push_decimal(text, n / 10);
    }
    text.append(digit_str(n % 10));
}

/// The path of the file for the carpet of `steps` levels in the colour
/// scheme called `color_name`: in the working directory, named after both.
pub fn get_image_path(steps: u32, color_name: &str) -> (path: String)
    ensures
        path@ == image_path(steps as nat, color_name@),
{
    let base_dir = "./";
    let base_file_name = "sierpinski_carpet";
    let file_ext = ".png";
    let mut path = String::from_str(base_dir);
    path.append(base_file_name);
    path.append("-");
    push_decimal(&mut path, steps);
    path.append("-");
    path.append(color_name);
    path.append(file_ext);
    path
}

} // verus!
