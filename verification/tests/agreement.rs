use logterm::terminal::is_session_start;
use logterm::text::{
    contains_text, format_decimal, pad_end, pad_start, repeat, strip_vowels, take_chars,
};
use regex::Regex;

const SAMPLES: [&str; 16] = [
    "",
    "a",
    "aeiou",
    "AEIOU",
    "ActivityManager",
    "audioflinger",
    "--------- beginning of main",
    "--------- beginning of",
    "-------- beginning of main",
    "x--------- beginning of system\nsecond line",
    "--------- beginning\nof main",
    "connected to 10.0.0.1",
    "héllo wörld",
    "日本語のテキスト",
    "tab\tand\nnewline",
    "          ",
];

#[test]
fn session_start_agrees_with_the_regular_expression() {
    let expression = Regex::new(r"--------- beginning of.*").unwrap();
    for sample in SAMPLES.iter() {
        assert_eq!(is_session_start(sample), expression.is_match(sample));
    }
}

#[test]
fn strip_vowels_agrees_with_the_regular_expression() {
    let expression = Regex::new(r"a|e|i|o|u").unwrap();
    for sample in SAMPLES.iter() {
        assert_eq!(strip_vowels(sample), expression.replace_all(sample, ""));
    }
}

#[test]
fn contains_text_agrees_with_std() {
    for text in SAMPLES.iter() {
        for needle in SAMPLES.iter() {
            assert_eq!(contains_text(text, needle), text.contains(needle));
        }
    }
}

#[test]
fn padding_agrees_with_std_formatting() {
    for sample in SAMPLES.iter() {
        for width in 0..30 {
            assert_eq!(pad_start(sample, width), format!("{:>width$}", sample, width = width));
            assert_eq!(pad_end(sample, width), format!("{:<width$}", sample, width = width));
        }
    }
}

#[test]
fn take_chars_agrees_with_std() {
    for sample in SAMPLES.iter() {
        for n in 0..30 {
            let expected: String = sample.chars().take(n).collect();
            assert_eq!(take_chars(sample, n), expected);
        }
    }
}

#[test]
fn repeat_agrees_with_std() {
    for n in 0..30 {
        assert_eq!(repeat(' ', n), " ".repeat(n));
        assert_eq!(repeat('─', n), "─".repeat(n));
    }
}

#[test]
fn format_decimal_agrees_with_std() {
    let numbers = [0, 1, 9, 10, 11, 99, 100, 999, 1000, 65_535, 4_294_967_296, u64::MAX];
    for number in numbers.iter() {
        assert_eq!(format_decimal(*number), format!("{}", number));
    }
}
