//! The validation unit: the one structural rule on an inbound
//! representation, checked before any statement is built.

use vstd::prelude::*;

verus! {

/// Smallest number of characters the primary name field may hold.
pub const NAME_MIN_LENGTH: u64 = 1;

/// Verdict on a candidate representation.
#[derive(Debug, Clone, PartialEq, Eq)]
pub enum Validation {
    /// The representation may be persisted.
    Accepted,
    /// The representation is refused, with the reason to show the caller.
    Rejected(String),
}

/// Whether `name` satisfies the rule on the primary name field.
pub open spec fn name_accepted(name: Seq<char>) -> bool {
    name.len() >= NAME_MIN_LENGTH
}

/// What [`validate_name`] answers for `name` when `reason` is the
/// configured rejection message.
pub open spec fn validation_of(name: Seq<char>, reason: Seq<char>) -> ValidationView {
    if name_accepted(name) {
        ValidationView::Accepted
    } else {
        ValidationView::Rejected(reason)
    }
}

/// Mathematical value of a [`Validation`].
pub enum ValidationView {
    Accepted,
    Rejected(Seq<char>),
}

impl View for Validation {
    type V = ValidationView;

    open spec fn view(&self) -> ValidationView {
        match self {
            Validation::Accepted => ValidationView::Accepted,
            Validation::Rejected(reason) => ValidationView::Rejected(reason@),
        }
    }
}

/// `validator::ValidateLength::validate_length` on a `String`, with a
/// minimum and neither a maximum nor an exact length.
///
/// Trusted: the length that `validator` measures is the number of `char`s
/// of the string, and with only a minimum set the call answers whether that
/// number reaches it.
#[verifier::external_body]
fn length_at_least(value: &String, min: u64) -> (ok: bool)
    ensures
        ok == (value@.len() >= min),
{
    validator::ValidateLength::validate_length(value, Some(min), None, None)
}

/// Checks the primary name field of a representation.
///
/// The name is accepted when it holds at least [`NAME_MIN_LENGTH`]
/// characters. Otherwise the verdict carries `reason`, unchanged.
/// Nothing else about the representation is examined.
pub fn validate_name(name: &String, reason: &str) -> (verdict: Validation)
    ensures
        verdict@ == validation_of(name@, reason@),
{
    if length_at_least(name, NAME_MIN_LENGTH) {
        Validation::Accepted
    } else {
        Validation::Rejected(String::from_str(reason))
    }
}

} // verus!
