//! The edit reducer: character-level editing of the widget's value.
//!
//! The reducer distinguishes three kinds of input characters: backspace
//! signals (which trim the value), other control characters (which are
//! ignored), and printable characters (which are appended). The value is
//! held as a sequence of characters, so trimming always removes one
//! whole character, never part of one. A backspace or printable
//! character produces a change notification; a notification is produced
//! for a backspace even when the value was already empty and did not
//! change.

use vstd::prelude::*;
use crate::events::ChangeEvent;

verus! {

/// A character is a backspace signal when it is ASCII BS (`0x08`) or
/// DEL (`0x7F`).
pub open spec fn is_backspace_char(c: char) -> bool {
    c == '\u{8}' || c == '\u{7f}'
}

/// A character is a control character when it lies in the Unicode
/// "control" category: `U+0000..=U+001F` or `U+007F..=U+009F`.
pub open spec fn is_control_char(c: char) -> bool {
    (c as u32) < 0x20 || (0x7f <= (c as u32) && (c as u32) <= 0x9f)
}

/// Checks whether the given character carries a backspace signal
/// (ASCII BS or DEL).
pub fn is_backspace(c: char) -> (r: bool)
    ensures
        r == is_backspace_char(c),
{
    c == '\u{8}' || c == '\u{7f}'
}

/// Checks whether the given character belongs to the Unicode control
/// category.
pub fn is_control(c: char) -> (r: bool)
    ensures
        r == is_control_char(c),
{
    let u = c as u32;
    u < 0x20 || (0x7f <= u && u <= 0x9f)
}

/// The value after one character of input while focused: a backspace
/// drops the last character (of a non-empty value), another control
/// character changes nothing, and a printable character is appended.
pub open spec fn value_after_char(v: Seq<char>, c: char) -> Seq<char> {
    if is_backspace_char(c) {
        if v.len() > 0 {
            v.drop_last()
        } else {
            v
        }
    } else if is_control_char(c) {
        v
    } else {
        v.push(c)
    }
}

/// Whether one character of input, received while focused, produces a
/// change notification: every backspace does (even on an empty value),
/// every other control character does not, every printable character
/// does.
pub open spec fn emits_change(c: char) -> bool {
    is_backspace_char(c) || !is_control_char(c)
}

/// Applies one character of input to the value, assuming the widget is
/// focused, and returns the change notification to deliver, if any.
pub fn reduce_char(value: &mut Vec<char>, c: char) -> (notify: Option<ChangeEvent>)
    ensures
        final(value)@ == value_after_char(old(value)@, c),
        notify is Some <==> emits_change(c),
        notify matches Some(ev) ==> ev.value@ == final(value)@,
{
    if is_backspace(c) {
        if value.len() > 0 {
            value.pop();
        }
    } else if is_control(c) {
        return None;
    } else {
        value.push(c);
    }
    let snapshot = clone_value(value);
    Some(ChangeEvent { value: snapshot })
}

/// Copies a character sequence, e.g. for a change-notification
/// snapshot.
pub fn clone_value(value: &Vec<char>) -> (r: Vec<char>)
    ensures
        r@ == value@,
{
    let r = value.clone();
    proof {
        assert(r@ =~= value@);
    }
    r
}

/// The value after a whole run of focused character input, applied in
/// arrival order.
pub open spec fn value_after_chars(v: Seq<char>, cs: Seq<char>) -> Seq<char>
    decreases cs.len(),
{
    if cs.len() == 0 {
        v
    } else {
        value_after_chars(value_after_char(v, cs.first()), cs.drop_first())
    }
}

/// Printable input appends in order: a focused run of characters that
/// are neither backspace nor control characters leaves the value equal
/// to the old value followed by exactly those characters, in arrival
/// order.
pub proof fn lemma_printable_run_appends(v: Seq<char>, cs: Seq<char>)
    requires
        forall|i: int|
            0 <= i < cs.len() ==> !is_backspace_char(#[trigger] cs[i]) && !is_control_char(cs[i]),
    ensures
        value_after_chars(v, cs) == v + cs,
    decreases cs.len(),
{
    if cs.len() == 0 {
        assert(v + cs =~= v);
    } else {
        assert(value_after_char(v, cs.first()) == v.push(cs.first()));
        lemma_printable_run_appends(v.push(cs.first()), cs.drop_first());
        assert(v.push(cs.first()) + cs.drop_first() =~= v + cs);
    }
}

/// Repeated backspace on an empty value never changes it: any run of
/// backspace characters applied to the empty value leaves it empty.
pub proof fn lemma_backspace_run_on_empty(cs: Seq<char>)
    requires
        forall|i: int| 0 <= i < cs.len() ==> is_backspace_char(#[trigger] cs[i]),
    ensures
        value_after_chars(Seq::<char>::empty(), cs) == Seq::<char>::empty(),
    decreases cs.len(),
{
    if cs.len() > 0 {
        assert(value_after_char(Seq::<char>::empty(), cs.first()) == Seq::<char>::empty());
        lemma_backspace_run_on_empty(cs.drop_first());
    }
}

} // verus!
