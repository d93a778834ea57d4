use rustfix::msg_parse::{ErrorKind, ParsingInfo, ParsingState};
use std::collections::BTreeMap;

fn add_chars(pi: &mut ParsingInfo, s: &str) {
    for ch in s.chars() {
        pi.add_char(if ch == '^' { 1u8 as char } else { ch });
    }
}

fn assert_nothing_committed(pi: &ParsingInfo) {
    assert!(pi.msg_map().is_empty());
    assert!(pi.errors().is_empty());
    assert_eq!(pi.body_length(), 0);
    assert_eq!(pi.check_sum(), 0);
    assert_eq!(pi.num_tags(), 0);
}

#[test]
fn init_add_char() {
    let mut parsing = ParsingInfo::new();
    parsing.add_char('1');

    assert_eq!(parsing.orig_msg(), "1");
    assert_eq!(parsing.msg_length(), 1);
    assert_eq!(parsing.reading_tag(), 1);
    assert_eq!(parsing.state(), ParsingState::StReadingTag);
    assert_eq!(parsing.reading_val(), "");
    assert_eq!(parsing.current_field_error(), None);
    assert_nothing_committed(&parsing);
}

#[test]
fn init_add_chars() {
    let mut parsing = ParsingInfo::new();
    parsing.add_char('1');
    parsing.add_char('2');
    parsing.add_char('3');
    parsing.add_char('4');
    parsing.add_char('5');

    assert_eq!(parsing.orig_msg(), "12345");
    assert_eq!(parsing.msg_length(), 5);
    assert_eq!(parsing.reading_tag(), 12345);
    assert_eq!(parsing.state(), ParsingState::StReadingTag);
    assert_eq!(parsing.reading_val(), "");
    assert_eq!(parsing.current_field_error(), None);
    assert_nothing_committed(&parsing);
}

#[test]
fn invalid_first_char() {
    let mut parsing = ParsingInfo::new();
    parsing.add_char('a');

    assert_eq!(parsing.orig_msg(), "a");
    assert_eq!(parsing.msg_length(), 1);
    assert_eq!(parsing.reading_tag(), 0);
    assert_eq!(parsing.current_field_error(), Some((1, ErrorKind::TagInvalidChar)));
    assert_eq!(parsing.state(), ParsingState::StReadingTag);
    assert_nothing_committed(&parsing);
}

#[test]
fn invalid_second_char() {
    let mut parsing = ParsingInfo::new();
    parsing.add_char('1');
    parsing.add_char('a');

    assert_eq!(parsing.orig_msg(), "1a");
    assert_eq!(parsing.msg_length(), 2);
    assert_eq!(parsing.reading_tag(), 1);
    assert_eq!(parsing.current_field_error(), Some((2, ErrorKind::TagInvalidChar)));
    assert_eq!(parsing.state(), ParsingState::StReadingTag);
    assert_nothing_committed(&parsing);
}

#[test]
fn invalid_chars_2errors() {
    let mut parsing = ParsingInfo::new();
    parsing.add_char('1');
    parsing.add_char('a');
    parsing.add_char('b');

    assert_eq!(parsing.orig_msg(), "1ab");
    assert_eq!(parsing.msg_length(), 3);
    assert_eq!(parsing.reading_tag(), 1);
    assert_eq!(parsing.current_field_error(), Some((2, ErrorKind::TagInvalidChar)));
    assert_eq!(parsing.state(), ParsingState::StReadingTag);
    assert_nothing_committed(&parsing);
}

#[test]
fn invalid_chars_2errors_andvalids() {
    let mut parsing = ParsingInfo::new();
    add_chars(&mut parsing, "12ab34");

    assert_eq!(parsing.orig_msg(), "12ab34");
    assert_eq!(parsing.msg_length(), 6);
    assert_eq!(parsing.reading_tag(), 12);
    assert_eq!(parsing.current_field_error(), Some((3, ErrorKind::TagInvalidChar)));
    assert_eq!(parsing.state(), ParsingState::StReadingTag);
    assert_nothing_committed(&parsing);
}

#[test]
fn invalid_chars_2errors_and_valids_non_consecutives() {
    let mut parsing = ParsingInfo::new();
    add_chars(&mut parsing, "12a3b45");

    assert_eq!(parsing.orig_msg(), "12a3b45");
    assert_eq!(parsing.msg_length(), 7);
    assert_eq!(parsing.reading_tag(), 12);
    assert_eq!(parsing.current_field_error(), Some((3, ErrorKind::TagInvalidChar)));
    assert_eq!(parsing.state(), ParsingState::StReadingTag);
    assert_nothing_committed(&parsing);
}

#[test]
fn too_long_tag() {
    let mut parsing = ParsingInfo::new();
    add_chars(&mut parsing, "1234567890");

    assert_eq!(parsing.orig_msg(), "1234567890");
    assert_eq!(parsing.msg_length(), 10);
    assert_eq!(parsing.reading_tag(), 123_456_7);
    assert_eq!(parsing.current_field_error(), Some((7, ErrorKind::TagTooLong)));
    assert_eq!(parsing.state(), ParsingState::StReadingTag);
    assert_nothing_committed(&parsing);
}

#[test]
fn too_long_tag_ignore_excess() {
    let mut parsing = ParsingInfo::new();
    add_chars(&mut parsing, "123456789012345");

    assert_eq!(parsing.orig_msg(), "123456789012345");
    assert_eq!(parsing.msg_length(), 15);
    assert_eq!(parsing.reading_tag(), 123_456_7);
    assert_eq!(parsing.current_field_error(), Some((7, ErrorKind::TagTooLong)));
    assert_eq!(parsing.state(), ParsingState::StReadingTag);
    assert_nothing_committed(&parsing);
}

#[test]
fn finish_tag() {
    let mut parsing = ParsingInfo::new();
    add_chars(&mut parsing, "123456=");

    assert_eq!(parsing.orig_msg(), "123456=");
    assert_eq!(parsing.msg_length(), 7);
    assert_eq!(parsing.reading_tag(), 123_456);
    assert_eq!(parsing.state(), ParsingState::StReadingValue);
    assert_eq!(parsing.reading_val(), "");
    assert_eq!(parsing.current_field_error(), None);
    assert_nothing_committed(&parsing);
}

#[test]
fn reading_val() {
    let mut parsing = ParsingInfo::new();
    add_chars(&mut parsing, "123456=a");

    assert_eq!(parsing.orig_msg(), "123456=a");
    assert_eq!(parsing.msg_length(), 8);
    assert_eq!(parsing.reading_tag(), 123_456);
    assert_eq!(parsing.reading_val(), "a");
    assert_eq!(parsing.state(), ParsingState::StReadingValue);
    assert_eq!(parsing.current_field_error(), None);
    assert_nothing_committed(&parsing);
}

#[test]
fn reading_val2() {
    let mut parsing = ParsingInfo::new();
    add_chars(&mut parsing, "123456=abcdefg");

    assert_eq!(parsing.orig_msg(), "123456=abcdefg");
    assert_eq!(parsing.msg_length(), 14);
    assert_eq!(parsing.reading_tag(), 123_456);
    assert_eq!(parsing.reading_val(), "abcdefg");
    assert_eq!(parsing.state(), ParsingState::StReadingValue);
    assert_eq!(parsing.current_field_error(), None);
    assert_nothing_committed(&parsing);
}

#[test]
fn too_long_val() {
    let mut parsing = ParsingInfo::new();
    add_chars(
        &mut parsing,
        "123456=abcdefgabcdefgabcdefgabcdefgabcdefgabcdefgabcdefgabcdefgabcdefgabcdefg",
    );

    assert_eq!(
        parsing.orig_msg(),
        "123456=abcdefgabcdefgabcdefgabcdefgabcdefgabcdefgabcdefgabcdefgabcdefgabcdefg"
    );
    assert_eq!(parsing.msg_length(), 77);
    assert_eq!(parsing.reading_tag(), 123_456);
    assert_eq!(parsing.reading_val(), "abcdefgabcdefgabcdefgabcdefgabcdefgabcdefgabcdefgab");
    assert_eq!(parsing.reading_val().chars().count(), 51);
    assert_eq!(parsing.state(), ParsingState::StReadingValue);
    assert_eq!(parsing.current_field_error(), Some((58, ErrorKind::ValueTooLong)));
    assert_nothing_committed(&parsing);
}

#[test]
fn complete_field() {
    let mut parsing = ParsingInfo::new();
    add_chars(&mut parsing, "123456=abcdefg\u{01}");

    let mut expected = BTreeMap::new();
    expected.insert(123456, "abcdefg".to_string());

    assert_eq!(parsing.msg_map(), &expected);
    assert_eq!(parsing.orig_msg(), "123456=abcdefg^");
    assert_eq!(parsing.msg_length(), 15);
    assert_eq!(parsing.reading_tag(), 0);
    assert_eq!(parsing.reading_val(), "");
    assert_eq!(parsing.state(), ParsingState::StReadingValue);
    assert_eq!(parsing.current_field_error(), None);
    assert!(parsing.errors().is_empty());
}
