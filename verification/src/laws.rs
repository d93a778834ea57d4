//! What the automaton does to whole runs of characters.
//!
//! Every statement here is about [`feed`], the automaton run over a text, and
//! so about any parser that was fed that text one character at a time.

use crate::model::{
    commit_field, count_char, decimal_value, feed, initial, is_digit, shown, step, valid,
    ErrorKind, ParsingState, ParsingView, FIELD_END, TAG_MAX_VALUE, VAL_LONG_LIMIT,
};
use vstd::prelude::*;

verus! {

/// Whether every character of `text` is a decimal digit.
pub open spec fn all_digits(text: Seq<char>) -> bool {
    forall|i: int| 0 <= i < text.len() ==> is_digit(#[trigger] text[i])
}

/// Whether `text` is free of the character that ends a field.
pub open spec fn no_field_end(text: Seq<char>) -> bool {
    forall|i: int| 0 <= i < text.len() ==> #[trigger] text[i] != FIELD_END
}

/// The state in which `text` was counted and did nothing else: the length has
/// grown by the length of `text` and the diagnostic text by its characters as
/// they are shown.
pub open spec fn counted(v: ParsingView, text: Seq<char>) -> ParsingView {
    ParsingView {
        msg_length: v.msg_length + text.len(),
        orig_msg: v.orig_msg + text.map_values(|ch: char| shown(ch)),
        ..v
    }
}

/// Whether the automaton is about to read the first character of a tag.
pub open spec fn at_tag_start(v: ParsingView) -> bool {
    &&& v.state == ParsingState::StReadingTag
    &&& v.current_field_error is None
    &&& v.reading_tag == 0
    &&& v.reading_val.len() == 0
}

/// Whether the automaton is reading a value and has no error in this field.
pub open spec fn in_clean_value(v: ParsingView) -> bool {
    &&& v.state == ParsingState::StReadingValue
    &&& v.current_field_error is None
}

/// A parser that has not been fed anything is in a valid state.
pub proof fn lemma_initial_valid()
    ensures
        valid(initial()),
        at_tag_start(initial()),
{
}

/// A step from a valid state ends in a valid state.
pub proof fn lemma_step_valid(v: ParsingView, ch: char)
    requires
        valid(v),
    ensures
        valid(step(v, ch)),
{
}

/// Whatever is fed to a parser in a valid state, it stays in a valid state.
pub proof fn lemma_feed_valid(v: ParsingView, text: Seq<char>)
    requires
        valid(v),
    ensures
        valid(feed(v, text)),
    decreases text.len(),
{
    if text.len() > 0 {
        lemma_feed_valid(v, text.drop_last());
        lemma_step_valid(feed(v, text.drop_last()), text.last());
    }
}

/// Feeding one more character is one more step.
pub proof fn lemma_feed_push(v: ParsingView, text: Seq<char>, ch: char)
    ensures
        feed(v, text.push(ch)) == step(feed(v, text), ch),
{
    assert(text.push(ch).drop_last() =~= text);
}

/// Feeding two texts one after the other is feeding them joined.
pub proof fn lemma_feed_concat(v: ParsingView, first: Seq<char>, second: Seq<char>)
    ensures
        feed(v, first + second) == feed(feed(v, first), second),
    decreases second.len(),
{
    if second.len() > 0 {
        lemma_feed_concat(v, first, second.drop_last());
        assert((first + second).drop_last() =~= first + second.drop_last());
    }
}

/// `counted` of a text with one more character counts that character too.
proof fn lemma_counted_push(v: ParsingView, text: Seq<char>, ch: char)
    ensures
        count_char(counted(v, text), ch) == counted(v, text.push(ch)),
{
    assert(count_char(counted(v, text), ch).orig_msg =~= counted(v, text.push(ch)).orig_msg);
}

/// Every character fed is counted once and enters the diagnostic text as it
/// is shown, whatever else it does: the length never goes back.
pub proof fn lemma_feed_counts(v: ParsingView, text: Seq<char>)
    ensures
        feed(v, text).msg_length == v.msg_length + text.len(),
        feed(v, text).orig_msg == v.orig_msg + text.map_values(|ch: char| shown(ch)),
        feed(v, text).body_length == v.body_length,
        feed(v, text).check_sum == v.check_sum,
        feed(v, text).num_tags == v.num_tags,
    decreases text.len(),
{
    if text.len() > 0 {
        lemma_feed_counts(v, text.drop_last());
    }
}

/// Once the message is finished, characters are counted and do nothing else.
pub proof fn lemma_finished_absorbs(v: ParsingView, text: Seq<char>)
    requires
        v.state == ParsingState::StFinished,
    ensures
        feed(v, text) == counted(v, text),
    decreases text.len(),
{
    if text.len() > 0 {
        let before = text.drop_last();
        lemma_finished_absorbs(v, before);
        lemma_counted_push(v, before, text.last());
        assert(text =~= before.push(text.last()));
    }
}

/// A run of digits at the start of a tag, as long as the number they spell
/// stays within the ceiling, leaves that number as the tag and changes nothing
/// else.
pub proof fn lemma_feed_digits(v: ParsingView, digits: Seq<char>)
    requires
        at_tag_start(v),
        all_digits(digits),
        decimal_value(digits) <= TAG_MAX_VALUE,
    ensures
        feed(v, digits) == (ParsingView {
            reading_tag: decimal_value(digits),
            ..counted(v, digits)
        }),
    decreases digits.len(),
{
    if digits.len() > 0 {
        let before = digits.drop_last();
        lemma_feed_digits(v, before);
        lemma_counted_push(v, before, digits.last());
        assert(digits =~= before.push(digits.last()));
    }
}

/// A tag within the ceiling, followed by `=`: the tag is the number that the
/// digits spell, and the automaton goes on to read the value.
pub proof fn lemma_tag_then_equals(v: ParsingView, digits: Seq<char>)
    requires
        at_tag_start(v),
        all_digits(digits),
        decimal_value(digits) <= TAG_MAX_VALUE,
    ensures
        feed(v, digits.push('=')) == (ParsingView {
            reading_tag: decimal_value(digits),
            state: ParsingState::StReadingValue,
            ..counted(v, digits.push('='))
        }),
        in_clean_value(feed(v, digits.push('='))),
{
    lemma_feed_digits(v, digits);
    lemma_feed_push(v, digits, '=');
    lemma_counted_push(v, digits, '=');
}

/// After an error in a tag, every character is counted and does nothing
/// else, be it a digit, `=` or the field end: the tag and the error stay as
/// they are, and nothing is committed.
pub proof fn lemma_tag_error_swallows(v: ParsingView, rest: Seq<char>)
    requires
        v.state == ParsingState::StReadingTag,
        v.current_field_error is Some,
    ensures
        feed(v, rest) == counted(v, rest),
    decreases rest.len(),
{
    if rest.len() > 0 {
        let before = rest.drop_last();
        lemma_tag_error_swallows(v, before);
        lemma_counted_push(v, before, rest.last());
        assert(rest =~= before.push(rest.last()));
    }
}

/// A tag that goes above the ceiling: the digit that takes it there is the
/// last one to enter the tag, the error is a too-long tag at that digit's
/// position, and whatever follows is swallowed.
pub proof fn lemma_tag_too_long(v: ParsingView, digits: Seq<char>, rest: Seq<char>)
    requires
        at_tag_start(v),
        all_digits(digits),
        digits.len() > 0,
        decimal_value(digits.drop_last()) <= TAG_MAX_VALUE,
        decimal_value(digits) > TAG_MAX_VALUE,
    ensures
        feed(v, digits + rest) == (ParsingView {
            reading_tag: decimal_value(digits),
            current_field_error: Some((v.msg_length + digits.len(), ErrorKind::TagTooLong)),
            ..counted(v, digits + rest)
        }),
{
    let before = digits.drop_last();
    let over = feed(v, digits);
    lemma_feed_digits(v, before);
    lemma_counted_push(v, before, digits.last());
    lemma_feed_concat(v, digits, rest);
    lemma_tag_error_swallows(over, rest);
    lemma_feed_counts(v, digits + rest);
    lemma_feed_counts(v, digits);
    lemma_feed_counts(over, rest);
}

/// A character in a tag that is neither a digit nor `=`: the error is an
/// invalid character at that character's position, the tag keeps what the
/// digits before it spelt, and whatever follows is swallowed.
pub proof fn lemma_tag_invalid_char(
    v: ParsingView,
    digits: Seq<char>,
    ch: char,
    rest: Seq<char>,
)
    requires
        at_tag_start(v),
        all_digits(digits),
        decimal_value(digits) <= TAG_MAX_VALUE,
        !is_digit(ch),
        ch != '=',
    ensures
        feed(v, digits.push(ch) + rest) == (ParsingView {
            reading_tag: decimal_value(digits),
            current_field_error: Some(
                (v.msg_length + digits.len() + 1, ErrorKind::TagInvalidChar),
            ),
            ..counted(v, digits.push(ch) + rest)
        }),
{
    let bad = feed(v, digits.push(ch));
    lemma_feed_digits(v, digits);
    lemma_feed_push(v, digits, ch);
    lemma_counted_push(v, digits, ch);
    lemma_feed_concat(v, digits.push(ch), rest);
    lemma_tag_error_swallows(bad, rest);
    lemma_feed_counts(v, digits.push(ch) + rest);
    lemma_feed_counts(v, digits.push(ch));
    lemma_feed_counts(bad, rest);
}

/// Characters of a value, as long as the value stays within the limit, are
/// appended to it and change nothing else.
pub proof fn lemma_feed_value(v: ParsingView, text: Seq<char>)
    requires
        in_clean_value(v),
        no_field_end(text),
        v.reading_val.len() + text.len() <= VAL_LONG_LIMIT,
    ensures
        feed(v, text) == (ParsingView { reading_val: v.reading_val + text, ..counted(v, text) }),
    decreases text.len(),
{
    if text.len() > 0 {
        let before = text.drop_last();
        lemma_feed_value(v, before);
        lemma_counted_push(v, before, text.last());
        assert(text =~= before.push(text.last()));
    }
}

/// After an error in a value, every character but the field end is counted
/// and does nothing else.
pub proof fn lemma_value_error_swallows(v: ParsingView, rest: Seq<char>)
    requires
        v.state == ParsingState::StReadingValue,
        v.current_field_error is Some,
        no_field_end(rest),
    ensures
        feed(v, rest) == counted(v, rest),
    decreases rest.len(),
{
    if rest.len() > 0 {
        let before = rest.drop_last();
        lemma_value_error_swallows(v, before);
        lemma_counted_push(v, before, rest.last());
        assert(rest =~= before.push(rest.last()));
    }
}

/// A value that grows beyond the limit: the error is a too-long value at the
/// position of the first character beyond the limit, that character is the
/// last one to enter the value, and the rest up to the field end is swallowed.
pub proof fn lemma_value_too_long(v: ParsingView, text: Seq<char>)
    requires
        in_clean_value(v),
        v.reading_val.len() == 0,
        no_field_end(text),
        text.len() > VAL_LONG_LIMIT,
    ensures
        feed(v, text) == (ParsingView {
            reading_val: text.take(VAL_LONG_LIMIT + 1),
            current_field_error: Some(
                ((v.msg_length + VAL_LONG_LIMIT + 1) as nat, ErrorKind::ValueTooLong),
            ),
            ..counted(v, text)
        }),
{
    let within = text.take(VAL_LONG_LIMIT as int);
    let crossing = text[VAL_LONG_LIMIT as int];
    let rest = text.skip(VAL_LONG_LIMIT + 1);
    let head = within.push(crossing);
    assert(head =~= text.take(VAL_LONG_LIMIT + 1));
    assert(text =~= head + rest);
    lemma_feed_value(v, within);
    lemma_feed_push(v, within, crossing);
    lemma_counted_push(v, within, crossing);
    let over = feed(v, head);
    lemma_feed_concat(v, head, rest);
    lemma_value_error_swallows(over, rest);
    lemma_feed_counts(v, text);
    lemma_feed_counts(v, head);
    lemma_feed_counts(over, rest);
}

/// The field end while a value is being read ends the field, with or
/// without an error: a pending error joins the recorded errors and the map
/// stays as it is; without one the field enters the map.
pub proof fn lemma_field_end_commits(v: ParsingView)
    requires
        v.state == ParsingState::StReadingValue,
    ensures
        step(v, FIELD_END) == commit_field(count_char(v, FIELD_END)),
        v.current_field_error is Some ==> {
            &&& step(v, FIELD_END).errors == v.errors.push(v.current_field_error->0)
            &&& step(v, FIELD_END).msg_map == v.msg_map
        },
        v.current_field_error is None ==> {
            &&& step(v, FIELD_END).errors == v.errors
            &&& step(v, FIELD_END).msg_map == v.msg_map.insert(v.reading_tag, v.reading_val)
        },
        step(v, FIELD_END).current_field_error is None,
        step(v, FIELD_END).reading_tag == 0,
        step(v, FIELD_END).reading_val == Seq::<char>::empty(),
        step(v, FIELD_END).state == ParsingState::StReadingValue,
{
}

/// A whole field within the limits: a tag, `=`, a value and the field end
/// put the value into the map under the tag, record no error, and leave the
/// automaton with nothing pending.
pub proof fn lemma_field_committed(v: ParsingView, digits: Seq<char>, value: Seq<char>)
    requires
        at_tag_start(v),
        all_digits(digits),
        decimal_value(digits) <= TAG_MAX_VALUE,
        no_field_end(value),
        value.len() <= VAL_LONG_LIMIT,
    ensures
        feed(v, digits.push('=') + value.push(FIELD_END)) == (ParsingView {
            msg_map: v.msg_map.insert(decimal_value(digits), value),
            state: ParsingState::StReadingValue,
            reading_tag: 0,
            reading_val: Seq::empty(),
            current_field_error: None,
            ..counted(v, digits.push('=') + value.push(FIELD_END))
        }),
{
    let tag_text = digits.push('=');
    let whole = tag_text + value.push(FIELD_END);
    let after_tag = feed(v, tag_text);
    lemma_tag_then_equals(v, digits);
    lemma_feed_concat(v, tag_text, value.push(FIELD_END));
    lemma_feed_push(after_tag, value, FIELD_END);
    lemma_feed_value(after_tag, value);
    lemma_feed_counts(v, whole);
}

} // verus!
