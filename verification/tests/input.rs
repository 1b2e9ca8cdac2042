use sierpinski_carpet::input::{
    parse_number, read_argument, Argument, Config, DEFAULT_COLOR_OPTION, DEFAULT_STEPS,
};

fn args(words: &[&str]) -> Vec<String> {
    words.iter().map(|word| word.to_string()).collect()
}

#[test]
fn numerals_are_read() {
    assert_eq!(parse_number("0"), Some(0));
    assert_eq!(parse_number("6"), Some(6));
    assert_eq!(parse_number("42"), Some(42));
    assert_eq!(parse_number("007"), Some(7));
    assert_eq!(parse_number("+13"), Some(13));
    assert_eq!(parse_number("4294967295"), Some(u32::MAX));
    assert_eq!(parse_number("00000000000000000000000000012"), Some(12));
}

#[test]
fn what_is_no_numeral_is_refused() {
    assert_eq!(parse_number(""), None);
    assert_eq!(parse_number("+"), None);
    assert_eq!(parse_number("-1"), None);
    assert_eq!(parse_number("-0"), None);
    assert_eq!(parse_number("++1"), None);
    assert_eq!(parse_number("1+"), None);
    assert_eq!(parse_number(" 1"), None);
    assert_eq!(parse_number("1 "), None);
    assert_eq!(parse_number("1.5"), None);
    assert_eq!(parse_number("1_000"), None);
    assert_eq!(parse_number("0x10"), None);
    assert_eq!(parse_number("six"), None);
    assert_eq!(parse_number("\u{ff17}"), None);
    assert_eq!(parse_number("\u{0663}"), None);
}

#[test]
fn numerals_beyond_a_u32_are_refused() {
    assert_eq!(parse_number("4294967296"), None);
    assert_eq!(parse_number("4294967300"), None);
    assert_eq!(parse_number("42949672950"), None);
    assert_eq!(parse_number("99999999999999999999999999"), None);
    assert_eq!(parse_number("+4294967296"), None);
    assert_eq!(parse_number("4294967296x"), None);
}

#[test]
fn parsing_agrees_with_the_standard_library() {
    let samples = [
        "", "0", "1", "9", "10", "+0", "+", "-", "-5", "+5", "+-5", "12a", "a12", "4294967295",
        "4294967296", "04294967295", "429496729", "42949672955", " ", "\t7", "7\n", "1e3",
        "\u{0661}\u{0662}",
        "3", "6", "18446744073709551616", "+007", "0000", "\u{ff15}",
    ];
    for sample in samples {
        assert_eq!(parse_number(sample), sample.parse::<u32>().ok(), "{:?}", sample);
    }
    for value in [0u32, 5, 10, 99, 100, 12345, 1 << 31, u32::MAX - 1, u32::MAX] {
        assert_eq!(parse_number(&value.to_string()), Some(value));
    }
}

#[test]
fn an_argument_is_a_value_or_unparsable_or_missing() {
    let line = args(&["carpet", "4", "two"]);
    assert_eq!(read_argument(&line, 1), Argument::Value(4));
    assert_eq!(read_argument(&line, 2), Argument::Unparsable);
    assert_eq!(read_argument(&line, 3), Argument::Missing);
    assert_eq!(read_argument(&line, 0), Argument::Unparsable);
    assert_eq!(read_argument(&Vec::new(), 0), Argument::Missing);
}

#[test]
fn only_a_value_stands_against_the_default() {
    assert_eq!(Argument::Value(4).or_default(6), 4);
    assert_eq!(Argument::Value(0).or_default(6), 0);
    assert_eq!(Argument::Unparsable.or_default(6), 6);
    assert_eq!(Argument::Missing.or_default(3), 3);
}

#[test]
fn the_defaults() {
    assert_eq!(DEFAULT_STEPS, 6);
    assert_eq!(DEFAULT_COLOR_OPTION, 1);
}

#[test]
fn a_benchmark_run_reads_no_arguments() {
    let expected = Config { steps: 0, benchmark: true, color_option: 0 };
    assert_eq!(Config::build(true, &args(&["carpet", "4", "2"])), expected);
    assert_eq!(Config::build(true, &args(&[])), expected);
}

#[test]
fn arguments_give_steps_and_scheme() {
    assert_eq!(
        Config::build(false, &args(&["carpet", "4", "2"])),
        Config { steps: 4, benchmark: false, color_option: 2 }
    );
    assert_eq!(
        Config::build(false, &args(&["carpet", "0", "99", "more"])),
        Config { steps: 0, benchmark: false, color_option: 99 }
    );
}

#[test]
fn missing_arguments_give_the_defaults() {
    assert_eq!(
        Config::build(false, &args(&["carpet"])),
        Config { steps: 6, benchmark: false, color_option: 1 }
    );
    assert_eq!(
        Config::build(false, &args(&[])),
        Config { steps: 6, benchmark: false, color_option: 1 }
    );
    assert_eq!(
        Config::build(false, &args(&["carpet", "3"])),
        Config { steps: 3, benchmark: false, color_option: 1 }
    );
}

#[test]
fn unparsable_arguments_give_the_defaults() {
    assert_eq!(
        Config::build(false, &args(&["carpet", "many", "5"])),
        Config { steps: 6, benchmark: false, color_option: 5 }
    );
    assert_eq!(
        Config::build(false, &args(&["carpet", "2", "blue"])),
        Config { steps: 2, benchmark: false, color_option: 1 }
    );
    assert_eq!(
        Config::build(false, &args(&["carpet", "-2", "4294967296"])),
        Config { steps: 6, benchmark: false, color_option: 1 }
    );
}
