//! The executable parser: a field accumulator that is fed one character at a
//! time and follows the automaton of [`crate::model`].

pub use crate::model::{ErrorKind, ParsingState};
use crate::model::{
    commit_field, initial, read_tag, read_value, shown, step, valid, ParsingView, FIELD_END,
    FIELD_END_SHOWN, TAG_MAX_VALUE, VAL_LONG_LIMIT,
};
use std::collections::BTreeMap;
use vstd::prelude::*;

verus! {

/// The committed fields as the model sees them: tags as numbers, values as
/// sequences of characters.
pub open spec fn fields_view(m: Map<u32, String>) -> Map<nat, Seq<char>> {
    Map::new(|t: nat| t <= u32::MAX && m.contains_key(t as u32), |t: nat| m[t as u32]@)
}

/// One error as the model sees it.
pub open spec fn error_view(e: (u32, ErrorKind)) -> (nat, ErrorKind) {
    (e.0 as nat, e.1)
}

/// The recorded errors as the model sees them.
pub open spec fn errors_view(s: Seq<(u32, ErrorKind)>) -> Seq<(nat, ErrorKind)> {
    Seq::new(s.len(), |i: int| error_view(s[i]))
}

/// The pending error as the model sees it.
pub open spec fn pending_view(e: Option<(u32, ErrorKind)>) -> Option<(nat, ErrorKind)> {
    match e {
        Some(e) => Some(error_view(e)),
        None => None,
    }
}

/// `String::push` of the standard library, which appends the given character
/// to the end of the string: afterwards the string holds the characters that
/// it held before, in their order, and then `ch`. This is taken on trust from
/// the standard library's documentation. As with vstd's own account of
/// `Vec::push`, running out of memory is left aside.
pub assume_specification[ String::push ](s: &mut String, ch: char)
    ensures
        final(s)@ == old(s)@.push(ch),
;

/// The state of one message's parse: the fields committed so far, the errors
/// of the rejected ones, and the field in progress.
///
/// A parser serves one message. It is made empty, fed the message's
/// characters in order, and read out afterwards.
///
/// The field end commits a field only while a value is being read, and the
/// parser goes on reading a value afterwards: to it, whatever follows the
/// first field end is the value of a field with tag 0. A caller that parses
/// messages of several fields has to account for that. In the same way an
/// error in a tag is never recorded among the errors, since nothing that
/// follows it in the tag ends the field; it stays readable as the pending
/// error.
#[derive(Debug, PartialEq, Eq)]
pub struct ParsingInfo {
    msg_map: BTreeMap<u32, String>,
    body_length: u32,
    check_sum: u32,
    num_tags: u32,
    orig_msg: String,
    errors: Vec<(u32, ErrorKind)>,
    msg_length: u32,
    state: ParsingState,
    reading_tag: u32,
    reading_val: String,
    current_field_error: Option<(u32, ErrorKind)>,
}

impl Default for ParsingState {
    fn default() -> (r: ParsingState)
        ensures
            r == ParsingState::StReadingTag,
    {
        ParsingState::StReadingTag
    }
}

impl Default for ParsingInfo {
    fn default() -> (r: ParsingInfo)
        ensures
            r.wf(),
            r@ == initial(),
    {
        ParsingInfo::new()
    }
}

impl ParsingInfo {
    /// The parser's state as mathematical values.
    pub closed spec fn view(&self) -> ParsingView {
        ParsingView {
            msg_map: fields_view(self.msg_map@),
            body_length: self.body_length as nat,
            check_sum: self.check_sum as nat,
            num_tags: self.num_tags as nat,
            orig_msg: self.orig_msg@,
            errors: errors_view(self.errors@),
            msg_length: self.msg_length as nat,
            state: self.state,
            reading_tag: self.reading_tag as nat,
            reading_val: self.reading_val@,
            current_field_error: pending_view(self.current_field_error),
        }
    }

    /// Whether the parser is in a state that feeding can have led to.
    pub open spec fn wf(&self) -> bool {
        valid(self@)
    }

    /// An empty parser, about to read the tag of a first field.
    pub fn new() -> (r: ParsingInfo)
        ensures
            r.wf(),
            r@ == initial(),
    {
        let r = ParsingInfo {
            msg_map: BTreeMap::new(),
            body_length: 0,
            check_sum: 0,
            num_tags: 0,
            orig_msg: String::new(),
            errors: Vec::new(),
            msg_length: 0,
            state: ParsingState::StReadingTag,
            reading_tag: 0,
            reading_val: String::new(),
            current_field_error: None,
        };
        proof {
            assert(r@.msg_map =~= initial().msg_map);
            assert(r@.errors =~= initial().errors);
        }
        r
    }

    /// Feeds one character to the parser.
    ///
    /// The character is counted and enters the diagnostic text; then it is
    /// handled as the part of the field that is being read asks for. The new
    /// state is exactly one step of the automaton away from the old one.
    ///
    /// The length is kept in 32 bits, so a parser takes at most `u32::MAX`
    /// characters.
    pub fn add_char(&mut self, ch: char)
        requires
            old(self).wf(),
            old(self)@.msg_length < u32::MAX,
        ensures
            final(self).wf(),
            final(self)@ == step(old(self)@, ch),
    {
        self.msg_length += 1;
        self.orig_msg.push(transform_ch(ch));
        match self.state {
            ParsingState::StReadingTag => self.add_char_reading_tag(ch),
            ParsingState::StReadingValue => self.add_char_reading_val(ch),
            ParsingState::StFinished => (),
        }
    }

    /// The committed fields, by tag.
    pub fn msg_map(&self) -> (r: &BTreeMap<u32, String>)
        ensures
            fields_view(r@) == self@.msg_map,
    {
        &self.msg_map
    }

    /// The reserved body length, which feeding never changes.
    pub fn body_length(&self) -> (r: u32)
        ensures
            r == self@.body_length,
    {
        self.body_length
    }

    /// The reserved checksum, which feeding never changes.
    pub fn check_sum(&self) -> (r: u32)
        ensures
            r == self@.check_sum,
    {
        self.check_sum
    }

    /// The reserved field count, which feeding never changes.
    pub fn num_tags(&self) -> (r: u32)
        ensures
            r == self@.num_tags,
    {
        self.num_tags
    }

    /// Every character fed so far, field ends shown as a visible placeholder.
    pub fn orig_msg(&self) -> (r: &String)
        ensures
            r@ == self@.orig_msg,
    {
        &self.orig_msg
    }

    /// The errors of the rejected fields, in the order in which the fields
    /// ended, each with the position at which it was found.
    pub fn errors(&self) -> (r: &Vec<(u32, ErrorKind)>)
        ensures
            errors_view(r@) == self@.errors,
    {
        &self.errors
    }

    /// How many characters were fed so far.
    pub fn msg_length(&self) -> (r: u32)
        ensures
            r == self@.msg_length,
    {
        self.msg_length
    }

    /// Which part of a field is being read.
    pub fn state(&self) -> (r: ParsingState)
        ensures
            r == self@.state,
    {
        self.state
    }

    /// The tag collected so far for the field in progress.
    pub fn reading_tag(&self) -> (r: u32)
        ensures
            r == self@.reading_tag,
    {
        self.reading_tag
    }

    /// The value collected so far for the field in progress.
    pub fn reading_val(&self) -> (r: &String)
        ensures
            r@ == self@.reading_val,
    {
        &self.reading_val
    }

    /// The first error found in the field in progress, with its position.
    pub fn current_field_error(&self) -> (r: Option<(u32, ErrorKind)>)
        ensures
            pending_view(r) == self@.current_field_error,
    {
        self.current_field_error
    }

    /// Handles a counted character while a tag is being read.
    fn add_char_reading_tag(&mut self, ch: char)
        requires
            old(self).wf(),
            old(self)@.state == ParsingState::StReadingTag,
            old(self)@.msg_length >= 1,
        ensures
            final(self).wf(),
            final(self)@ == read_tag(old(self)@, ch),
    {
        match self.current_field_error {
            Some(_) => (),
            None => {
                if ch >= '0' && ch <= '9' {
                    self.reading_tag = self.reading_tag * 10 + (ch as u32 - '0' as u32);
                    if self.reading_tag > TAG_MAX_VALUE {
                        self.current_field_error = Some((self.msg_length, ErrorKind::TagTooLong));
                    }
                } else if ch == '=' {
                    self.state = ParsingState::StReadingValue;
                } else {
                    self.current_field_error = Some((self.msg_length, ErrorKind::TagInvalidChar));
                }
            },
        }
    }

    /// Handles a counted character while a value is being read.
    fn add_char_reading_val(&mut self, ch: char)
        requires
            old(self).wf(),
            old(self)@.state == ParsingState::StReadingValue,
            old(self)@.msg_length >= 1,
        ensures
            final(self).wf(),
            final(self)@ == read_value(old(self)@, ch),
    {
        if ch == FIELD_END {
            self.process_tag_val();
        } else {
            match self.current_field_error {
                Some(_) => (),
                None => {
                    self.reading_val.push(ch);
                    if self.reading_val.as_str().unicode_len() > VAL_LONG_LIMIT {
                        self.current_field_error = Some((self.msg_length, ErrorKind::ValueTooLong));
                    }
                },
            }
        }
    }

    /// Ends the field in progress: its error is recorded if it has one, else
    /// the field enters the map; the next field starts from nothing.
    fn process_tag_val(&mut self)
        requires
            old(self).wf(),
            old(self)@.state == ParsingState::StReadingValue,
        ensures
            final(self).wf(),
            final(self)@ == commit_field(old(self)@),
    {
        match self.current_field_error {
            Some(error) => {
                self.errors.push(error);
                assert(errors_view(self.errors@) =~= errors_view(old(self).errors@).push(
                    error_view(error),
                ));
            },
            None => {
                let value = self.reading_val.clone();
                self.msg_map.insert(self.reading_tag, value);
                assert(fields_view(self.msg_map@) =~= fields_view(old(self).msg_map@).insert(
                    old(self).reading_tag as nat,
                    old(self).reading_val@,
                ));
            },
        }
        self.reading_tag = 0;
        self.reading_val = String::new();
        self.current_field_error = None;
    }
}

/// The character under which `ch` enters the diagnostic text: the field end
/// becomes a visible placeholder, every other character stands for itself.
pub fn transform_ch(ch: char) -> (r: char)
    ensures
        r == shown(ch),
{
    if ch == FIELD_END {
        FIELD_END_SHOWN
    } else {
        ch
    }
}

} // verus!
