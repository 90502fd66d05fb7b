//! Parameterised statements: a fixed text with numbered placeholders and
//! the values bound to them, by position.

use vstd::prelude::*;
use vstd::string::*;
use crate::digits::{digit_value, is_digit};
use crate::value::{cells, Value, ValueView};

verus! {

/// The number that the placeholder starting at `at` carries, where
/// `text[at]` is `$`: the value of the digit behind it when that digit
/// stands alone, and 0 for anything else.
pub open spec fn ordinal_at(text: Seq<char>, at: int) -> int {
    if at + 1 < text.len() && is_digit(text[at + 1]) && !(at + 2 < text.len() && is_digit(
        text[at + 2],
    )) {
        digit_value(text[at + 1])
    } else {
        0
    }
}

/// The numbers of the placeholders of `text` from position `from` on, in
/// the order in which they occur.
pub open spec fn ordinals_from(text: Seq<char>, from: int) -> Seq<int>
    decreases text.len() - from,
{
    if from < 0 || from >= text.len() {
        Seq::empty()
    } else if text[from] == '$' {
        seq![ordinal_at(text, from)] + ordinals_from(text, from + 1)
    } else {
        ordinals_from(text, from + 1)
    }
}

/// The numbers of all placeholders of `text`, in order of occurrence.
pub open spec fn placeholders(text: Seq<char>) -> Seq<int> {
    ordinals_from(text, 0)
}

/// The numbers 1 to `count`, in rising order.
pub open spec fn first_ordinals(count: nat) -> Seq<int> {
    Seq::new(count, |k: int| k + 1)
}

/// `text` holds exactly the placeholders `$1` to `$count`, each once and in
/// rising order. Every `$` in the text counts as the start of a
/// placeholder; one that is not followed by a single digit from 1 to 9
/// makes the text ill-formed.
pub open spec fn numbered_once(text: Seq<char>, count: nat) -> bool {
    placeholders(text) =~= first_ordinals(count)
}

/// A statement ready to be sent: its text and the values for its
/// placeholders, the first value for `$1`, the second for `$2`, and so on.
#[derive(Debug, Clone, PartialEq, Eq)]
pub struct Statement {
    /// The statement text. It never holds caller-supplied data.
    pub text: &'static str,
    /// The bound values, by position.
    pub params: Vec<Value>,
}

/// Mathematical value of a [`Statement`].
pub struct StatementView {
    pub text: Seq<char>,
    pub params: Seq<ValueView>,
}

impl View for Statement {
    type V = StatementView;

    open spec fn view(&self) -> StatementView {
        StatementView { text: self.text@, params: cells(self.params@) }
    }
}

impl StatementView {
    /// Every placeholder of the text is bound exactly once: the text holds
    /// `$1` to `$n` in order, and `n` values are bound.
    pub open spec fn well_formed(self) -> bool {
        numbered_once(self.text, self.params.len())
    }
}

impl Statement {
    /// Whether every placeholder of the text is bound exactly once.
    ///
    /// The statements that this library hands out always are; this is for
    /// a statement that was put together elsewhere.
    pub fn is_well_formed(&self) -> (yes: bool)
        ensures
            yes == self@.well_formed(),
    {
        let text = self.text;
        let length: usize = text.unicode_len();
        let mut seen: usize = 0;
        let mut at: usize = 0;
        while at < length
            invariant
                at <= length,
                text == self.text,
                length == text@.len(),
                seen <= at,
                placeholders(text@) =~= first_ordinals(seen as nat) + ordinals_from(
                    text@,
                    at as int,
                ),
            decreases length - at,
        {
            if text.get_char(at) == '$' {
                let alone: bool = at + 1 < length && is_decimal_digit(text.get_char(at + 1)) && !(at
                    + 2 < length && is_decimal_digit(text.get_char(at + 2)));
                let ordinal: u32 = if alone {
                    digit_of(text.get_char(at + 1))
                } else {
                    0
                };
                if ordinal as usize != seen + 1 {
                    proof {
                        // This placeholder follows the `seen` counted so
                        // far and carries another number than the next.
                        assert(placeholders(text@)[seen as int] == ordinal);
                        if self@.well_formed() {
                            assert(first_ordinals(self@.params.len())[seen as int] == seen + 1);
                        }
                    }
                    return false;
                }
                assert(first_ordinals((seen + 1) as nat) =~= first_ordinals(seen as nat).push(
                    seen + 1,
                ));
                seen += 1;
            }
            at += 1;
        }
        seen == self.params.len()
    }
}

/// Whether `c` is a decimal digit.
fn is_decimal_digit(c: char) -> (yes: bool)
    ensures
        yes == is_digit(c),
{
    '0' <= c && c <= '9'
}

/// The value of the decimal digit `c`.
fn digit_of(c: char) -> (value: u32)
    requires
        is_digit(c),
    ensures
        value == digit_value(c),
{
    c as u32 - '0' as u32
}

} // verus!
