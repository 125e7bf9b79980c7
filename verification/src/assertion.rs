//! Precondition checks shared by all entities of the model.
//!
//! Each check either returns `Ok(())` or fails with a typed, message-bearing
//! error: [`ArgumentError`] when a caller supplied invalid input,
//! [`StateError`] when a precondition on existing state was violated.
//! Checks compose by short-circuit sequencing (`?`): the first failing check
//! determines the single reported message.

use vstd::prelude::*;

use crate::text::dec_str;
use crate::text::str_eq;
use crate::text::usize_to_string;

verus! {

/// Failure of a validation on caller-supplied input.
/// Carries a single human-readable message.
#[derive(Debug)]
pub struct ArgumentError(pub String);

impl View for ArgumentError {
    type V = Seq<char>;

    open spec fn view(&self) -> Seq<char> {
        self.0@
    }
}

impl ArgumentError {
    /// The message describing which input violated which constraint.
    pub fn message(&self) -> (r: &str)
        ensures
            r@ == self@,
    {
        self.0.as_str()
    }
}

/// Failure of a precondition on existing object state.
/// Carries a single human-readable message.
#[derive(Debug)]
pub struct StateError(pub String);

impl View for StateError {
    type V = Seq<char>;

    open spec fn view(&self) -> Seq<char> {
        self.0@
    }
}

impl StateError {
    /// The message describing which invariant of current state was violated.
    pub fn message(&self) -> (r: &str)
        ensures
            r@ == self@,
    {
        self.0.as_str()
    }
}

/// Message reported when a required input is empty.
pub open spec fn required_msg(subject: Seq<char>) -> Seq<char> {
    "The "@ + subject + " is required"@
}

/// Message reported when an input exceeds a maximum length.
pub open spec fn max_length_msg(subject: Seq<char>, maximum: nat) -> Seq<char> {
    "The "@ + subject + " must be "@ + dec_str(maximum) + " characters or less"@
}

/// Message reported when an input misses a required exact length.
pub open spec fn exact_length_msg(subject: Seq<char>, length: nat) -> Seq<char> {
    "The "@ + subject + " must be "@ + dec_str(length) + " characters long"@
}

/// Message reported when an input's length falls outside a range.
pub open spec fn length_range_msg(subject: Seq<char>, minimum: nat, maximum: nat) -> Seq<char> {
    "The "@ + subject + " must be long between "@ + dec_str(minimum) + " and "@ + dec_str(maximum)
        + " characters"@
}

/// Message reported when an input differs from a required value.
pub open spec fn equals_msg(subject: Seq<char>, expected: Seq<char>) -> Seq<char> {
    "The "@ + subject + " must be equal to "@ + expected
}

/// Message reported when an input equals a forbidden value.
pub open spec fn not_equals_msg(subject: Seq<char>, forbidden: Seq<char>) -> Seq<char> {
    "The "@ + subject + " must be different from "@ + forbidden + "."@
}

/// Message reported when a flag that must be true is false.
pub open spec fn must_be_true_msg(subject: Seq<char>) -> Seq<char> {
    "The "@ + subject + " must be true"@
}

/// Message reported when a flag that must be false is true.
pub open spec fn must_be_false_msg(subject: Seq<char>) -> Seq<char> {
    "The "@ + subject + " must be false"@
}

/// Message reported when a numeric input falls outside a range.
pub open spec fn range_msg(subject: Seq<char>, minimum: nat, maximum: nat) -> Seq<char> {
    "The "@ + subject + " must be between "@ + dec_str(minimum) + " and "@ + dec_str(maximum)
        + "."@
}

/// Fails with [`ArgumentError`] when `actual` is empty.
pub fn assert_argument_not_empty(actual: &str, subject: &str) -> (r: Result<(), ArgumentError>)
    ensures
        r is Ok <==> actual@.len() != 0,
        r is Err ==> r->Err_0@ == required_msg(subject@),
{
    if actual.is_empty() {
        let mut m = String::from_str("The ");
        m.append(subject);
        m.append(" is required");
        Err(ArgumentError(m))
    } else {
        Ok(())
    }
}

/// Fails with [`ArgumentError`] when `actual` is longer than `maximum` characters.
pub fn assert_argument_max_length(actual: &str, maximum: usize, subject: &str) -> (r: Result<
    (),
    ArgumentError,
>)
    ensures
        r is Ok <==> actual@.len() <= maximum,
        r is Err ==> r->Err_0@ == max_length_msg(subject@, maximum as nat),
{
    if actual.unicode_len() > maximum {
        let num = usize_to_string(maximum);
        let mut m = String::from_str("The ");
        m.append(subject);
        m.append(" must be ");
        m.append(num.as_str());
        m.append(" characters or less");
        Err(ArgumentError(m))
    } else {
        Ok(())
    }
}

/// Fails with [`ArgumentError`] when the length of `actual` lies outside
/// `minimum..=maximum` characters. The message names the exact length when the
/// two bounds coincide, and the range otherwise.
pub fn assert_argument_length_range(
    actual: &str,
    minimum: usize,
    maximum: usize,
    subject: &str,
) -> (r: Result<(), ArgumentError>)
    ensures
        r is Ok <==> minimum <= actual@.len() && actual@.len() <= maximum,
        r is Err && minimum == maximum ==> r->Err_0@ == exact_length_msg(
            subject@,
            minimum as nat,
        ),
        r is Err && minimum != maximum ==> r->Err_0@ == length_range_msg(
            subject@,
            minimum as nat,
            maximum as nat,
        ),
{
    let len = actual.unicode_len();
    if len < minimum || len > maximum {
        if minimum == maximum {
            let num = usize_to_string(minimum);
            let mut m = String::from_str("The ");
            m.append(subject);
            m.append(" must be ");
            m.append(num.as_str());
            m.append(" characters long");
            Err(ArgumentError(m))
        } else {
            let min_num = usize_to_string(minimum);
            let max_num = usize_to_string(maximum);
            let mut m = String::from_str("The ");
            m.append(subject);
            m.append(" must be long between ");
            m.append(min_num.as_str());
            m.append(" and ");
            m.append(max_num.as_str());
            m.append(" characters");
            Err(ArgumentError(m))
        }
    } else {
        Ok(())
    }
}

/// Fails with [`ArgumentError`] when `actual` differs from `expected`.
pub fn assert_argument_equals(actual: &str, expected: &str, subject: &str) -> (r: Result<
    (),
    ArgumentError,
>)
    ensures
        r is Ok <==> actual@ == expected@,
        r is Err ==> r->Err_0@ == equals_msg(subject@, expected@),
{
    if !str_eq(actual, expected) {
        let mut m = String::from_str("The ");
        m.append(subject);
        m.append(" must be equal to ");
        m.append(expected);
        Err(ArgumentError(m))
    } else {
        Ok(())
    }
}

/// Fails with [`ArgumentError`] when `actual` equals the forbidden value.
pub fn assert_argument_not_equals(actual: &str, forbidden: &str, subject: &str) -> (r: Result<
    (),
    ArgumentError,
>)
    ensures
        r is Ok <==> actual@ != forbidden@,
        r is Err ==> r->Err_0@ == not_equals_msg(subject@, actual@),
{
    if str_eq(actual, forbidden) {
        let mut m = String::from_str("The ");
        m.append(subject);
        m.append(" must be different from ");
        m.append(actual);
        m.append(".");
        Err(ArgumentError(m))
    } else {
        Ok(())
    }
}

/// Fails with [`ArgumentError`] when `actual` is false.
pub fn assert_argument_true(actual: bool, subject: &str) -> (r: Result<(), ArgumentError>)
    ensures
        r is Ok <==> actual,
        r is Err ==> r->Err_0@ == must_be_true_msg(subject@),
{
    if !actual {
        let mut m = String::from_str("The ");
        m.append(subject);
        m.append(" must be true");
        Err(ArgumentError(m))
    } else {
        Ok(())
    }
}

/// Fails with [`ArgumentError`] when `actual` is true.
pub fn assert_argument_false(actual: bool, subject: &str) -> (r: Result<(), ArgumentError>)
    ensures
        r is Ok <==> !actual,
        r is Err ==> r->Err_0@ == must_be_false_msg(subject@),
{
    if actual {
        let mut m = String::from_str("The ");
        m.append(subject);
        m.append(" must be false");
        Err(ArgumentError(m))
    } else {
        Ok(())
    }
}

/// Fails with [`ArgumentError`] when `actual` lies outside `minimum..=maximum`.
pub fn assert_argument_range(actual: usize, minimum: usize, maximum: usize, subject: &str) -> (r:
    Result<(), ArgumentError>)
    ensures
        r is Ok <==> minimum <= actual && actual <= maximum,
        r is Err ==> r->Err_0@ == range_msg(subject@, minimum as nat, maximum as nat),
{
    if actual < minimum || actual > maximum {
        let min_num = usize_to_string(minimum);
        let max_num = usize_to_string(maximum);
        let mut m = String::from_str("The ");
        m.append(subject);
        m.append(" must be between ");
        m.append(min_num.as_str());
        m.append(" and ");
        m.append(max_num.as_str());
        m.append(".");
        Err(ArgumentError(m))
    } else {
        Ok(())
    }
}

/// Fails with [`ArgumentError`] carrying the supplied message when the
/// condition does not hold.
pub fn assert_true(condition: bool, message: &str) -> (r: Result<(), ArgumentError>)
    ensures
        r is Ok <==> condition,
        r is Err ==> r->Err_0@ == message@,
{
    if !condition {
        Err(ArgumentError(String::from_str(message)))
    } else {
        Ok(())
    }
}

/// Fails with [`StateError`] carrying the supplied message when the
/// condition on current state does not hold.
pub fn assert_state(condition: bool, message: &str) -> (r: Result<(), StateError>)
    ensures
        r is Ok <==> condition,
        r is Err ==> r->Err_0@ == message@,
{
    if !condition {
        Err(StateError(String::from_str(message)))
    } else {
        Ok(())
    }
}

/// Fails with [`StateError`] carrying the supplied message when the
/// condition on current state holds.
pub fn assert_not_state(condition: bool, message: &str) -> (r: Result<(), StateError>)
    ensures
        r is Ok <==> !condition,
        r is Err ==> r->Err_0@ == message@,
{
    if condition {
        Err(StateError(String::from_str(message)))
    } else {
        Ok(())
    }
}

} // verus!
