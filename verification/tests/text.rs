//! Tests for the line-breaking helper used when rendering table cells.

use moyaposylka::text::break_line_every_n_chars;

fn break_str(s: &str, n: usize) -> String {
    let chars: Vec<char> = s.chars().collect();
    break_line_every_n_chars(&chars, n).into_iter().collect()
}

#[test]
fn breaks_after_every_n_chars() {
    assert_eq!(break_str("abcde", 2), "ab\ncd\ne");
}

#[test]
fn trailing_break_on_exact_multiple() {
    assert_eq!(break_str("abcdef", 2), "ab\ncd\nef\n");
}

#[test]
fn empty_input_stays_empty() {
    assert_eq!(break_str("", 3), "");
}

#[test]
fn short_input_gets_no_break() {
    assert_eq!(break_str("ab", 20), "ab");
}

#[test]
fn multibyte_characters_count_as_one() {
    assert_eq!(break_str("Иван Иванович", 4), "Иван\n Ива\nнови\nч");
}
