//! The field automaton as mathematics: its state, one step, and a run of steps.

use vstd::prelude::*;

verus! {

/// A tag is in range while its value does not exceed this ceiling.
pub const TAG_MAX_VALUE: u32 = 1_000_000;

/// A value is in range while it holds no more characters than this.
pub const VAL_LONG_LIMIT: usize = 50;

/// The control character that ends a field (SOH).
pub const FIELD_END: char = '\u{1}';

/// What the diagnostic text shows in place of [`FIELD_END`].
pub const FIELD_END_SHOWN: char = '^';

/// Which part of a field the automaton is reading.
#[derive(Debug, Clone, Copy, PartialEq, Eq, Structural)]
pub enum ParsingState {
    /// Digits of a tag are being collected. This is where a parser starts.
    StReadingTag,
    /// Characters of a value are being collected.
    StReadingValue,
    /// The message is over; every further character is only counted.
    StFinished,
}

/// Why a field was rejected.
#[derive(Debug, Clone, Copy, PartialEq, Eq, Structural)]
pub enum ErrorKind {
    /// The tag holds a character that is neither a decimal digit nor `=`.
    TagInvalidChar,
    /// The tag's value went above [`TAG_MAX_VALUE`].
    TagTooLong,
    /// The value grew beyond [`VAL_LONG_LIMIT`] characters.
    ValueTooLong,
}

/// The whole state of a parser, as plain mathematical values.
///
/// Positions count characters from 1: the position of a character is the
/// value of `msg_length` right after it was fed.
pub ghost struct ParsingView {
    /// Committed fields, by tag. A later commit of a tag replaces the earlier one.
    pub msg_map: Map<nat, Seq<char>>,
    /// Reserved for a body-length check; the automaton never changes it.
    pub body_length: nat,
    /// Reserved for a checksum; the automaton never changes it.
    pub check_sum: nat,
    /// Reserved for a field count; the automaton never changes it.
    pub num_tags: nat,
    /// Every character fed so far, field ends shown as [`FIELD_END_SHOWN`].
    pub orig_msg: Seq<char>,
    /// The errors of rejected fields, in the order in which the fields ended.
    pub errors: Seq<(nat, ErrorKind)>,
    /// How many characters were fed so far.
    pub msg_length: nat,
    /// Which part of a field is being read.
    pub state: ParsingState,
    /// The tag collected so far for the field in progress.
    pub reading_tag: nat,
    /// The value collected so far for the field in progress.
    pub reading_val: Seq<char>,
    /// The first error found in the field in progress, with its position.
    pub current_field_error: Option<(nat, ErrorKind)>,
}

/// The state of a parser that has not been fed anything.
pub open spec fn initial() -> ParsingView {
    ParsingView {
        msg_map: Map::empty(),
        body_length: 0,
        check_sum: 0,
        num_tags: 0,
        orig_msg: Seq::empty(),
        errors: Seq::empty(),
        msg_length: 0,
        state: ParsingState::StReadingTag,
        reading_tag: 0,
        reading_val: Seq::empty(),
        current_field_error: None,
    }
}

/// Whether `ch` is one of the decimal digits `0` to `9`.
pub open spec fn is_digit(ch: char) -> bool {
    '0' <= ch && ch <= '9'
}

/// The number that a decimal digit stands for.
pub open spec fn digit_value(ch: char) -> nat
    recommends
        is_digit(ch),
{
    (ch as int - '0' as int) as nat
}

/// The character under which `ch` enters the diagnostic text.
pub open spec fn shown(ch: char) -> char {
    if ch == FIELD_END {
        FIELD_END_SHOWN
    } else {
        ch
    }
}

/// Counting a character: the length grows by one and the diagnostic text by
/// the character as it is shown. Nothing else changes.
pub open spec fn count_char(v: ParsingView, ch: char) -> ParsingView {
    ParsingView { msg_length: v.msg_length + 1, orig_msg: v.orig_msg.push(shown(ch)), ..v }
}

/// What a character does to a tag in progress, once it has been counted.
///
/// After an error nothing more happens in this field. Otherwise a digit is
/// appended to the tag, and the tag is marked too long when that takes it above
/// the ceiling; `=` starts the value; anything else is an invalid character.
pub open spec fn read_tag(v: ParsingView, ch: char) -> ParsingView {
    if v.current_field_error is Some {
        v
    } else if is_digit(ch) {
        let tag = v.reading_tag * 10 + digit_value(ch);
        ParsingView {
            reading_tag: tag,
            current_field_error: if tag > TAG_MAX_VALUE {
                Some((v.msg_length, ErrorKind::TagTooLong))
            } else {
                None
            },
            ..v
        }
    } else if ch == '=' {
        ParsingView { state: ParsingState::StReadingValue, ..v }
    } else {
        ParsingView { current_field_error: Some((v.msg_length, ErrorKind::TagInvalidChar)), ..v }
    }
}

/// Ending a field: a field with an error leaves only its error behind, a field
/// without one enters the map under its tag. Either way the next field starts
/// from nothing.
pub open spec fn commit_field(v: ParsingView) -> ParsingView {
    ParsingView {
        msg_map: match v.current_field_error {
            Some(_) => v.msg_map,
            None => v.msg_map.insert(v.reading_tag, v.reading_val),
        },
        errors: match v.current_field_error {
            Some(e) => v.errors.push(e),
            None => v.errors,
        },
        reading_tag: 0,
        reading_val: Seq::empty(),
        current_field_error: None,
        ..v
    }
}

/// What a character does to a value in progress, once it has been counted.
///
/// The field end commits the field, with or without an error. Any other
/// character is dropped after an error; before one it is appended, and the
/// value is marked too long when that takes it beyond the limit.
pub open spec fn read_value(v: ParsingView, ch: char) -> ParsingView {
    if ch == FIELD_END {
        commit_field(v)
    } else if v.current_field_error is Some {
        v
    } else {
        let val = v.reading_val.push(ch);
        ParsingView {
            reading_val: val,
            current_field_error: if val.len() > VAL_LONG_LIMIT {
                Some((v.msg_length, ErrorKind::ValueTooLong))
            } else {
                None
            },
            ..v
        }
    }
}

/// One step of the automaton: the character is counted, then handled
/// according to the part of the field that is being read.
///
/// A committed field leaves the automaton reading a value: it does not go
/// back to reading a tag by itself.
pub open spec fn step(v: ParsingView, ch: char) -> ParsingView {
    let counted = count_char(v, ch);
    match v.state {
        ParsingState::StReadingTag => read_tag(counted, ch),
        ParsingState::StReadingValue => read_value(counted, ch),
        ParsingState::StFinished => counted,
    }
}

/// The state after feeding the characters of `text`, first to last.
pub open spec fn feed(v: ParsingView, text: Seq<char>) -> ParsingView
    decreases text.len(),
{
    if text.len() == 0 {
        v
    } else {
        step(feed(v, text.drop_last()), text.last())
    }
}

/// The number that a run of decimal digits spells.
pub open spec fn decimal_value(digits: Seq<char>) -> nat
    decreases digits.len(),
{
    if digits.len() == 0 {
        0
    } else {
        decimal_value(digits.drop_last()) * 10 + digit_value(digits.last())
    }
}

/// What holds of every state that a parser can be in.
///
/// The diagnostic text has one character per character fed; every recorded
/// position lies within the text; a pending error agrees with what was
/// collected; and whatever was committed is within the limits.
pub open spec fn valid(v: ParsingView) -> bool {
    &&& v.orig_msg.len() == v.msg_length
    &&& forall|i: int| 0 <= i < v.errors.len() ==> 1 <= (#[trigger] v.errors[i]).0 <= v.msg_length
    &&& forall|t: nat| #[trigger]
        v.msg_map.contains_key(t) ==> t <= TAG_MAX_VALUE && v.msg_map[t].len() <= VAL_LONG_LIMIT
    &&& v.state == ParsingState::StReadingTag ==> v.reading_val.len() == 0
    &&& match v.current_field_error {
        None => v.reading_tag <= TAG_MAX_VALUE && v.reading_val.len() <= VAL_LONG_LIMIT,
        Some((at, kind)) => {
            &&& 1 <= at <= v.msg_length
            &&& match kind {
                ErrorKind::TagInvalidChar => {
                    &&& v.state == ParsingState::StReadingTag
                    &&& v.reading_tag <= TAG_MAX_VALUE
                },
                ErrorKind::TagTooLong => {
                    &&& v.state == ParsingState::StReadingTag
                    &&& TAG_MAX_VALUE < v.reading_tag <= 10 * TAG_MAX_VALUE + 9
                },
                ErrorKind::ValueTooLong => {
                    &&& v.state == ParsingState::StReadingValue
                    &&& v.reading_tag <= TAG_MAX_VALUE
                    &&& v.reading_val.len() == VAL_LONG_LIMIT + 1
                },
            }
        },
    }
}

} // verus!
