//! The rule on the text of a todo item. Repositories store what they are
//! given: the text is checked where a payload is built, before it reaches one.

use vstd::prelude::*;
use crate::entity::{CreateTodo, UpdateTodo};

verus! {

/// The least number of characters in a text.
pub const TEXT_MIN: u64 = 1;

/// The greatest number of characters in a text.
pub const TEXT_MAX: u64 = 100;

/// A text is valid when it has between `TEXT_MIN` and `TEXT_MAX` characters.
pub open spec fn valid_text(text: Seq<char>) -> bool {
    TEXT_MIN <= text.len() <= TEXT_MAX
}

/// Why a text was rejected.
#[derive(Debug, Clone, Copy, PartialEq, Eq, Structural)]
pub enum TextError {
    /// The text has fewer than `TEXT_MIN` characters.
    Empty,
    /// The text has more than `TEXT_MAX` characters.
    TooLong,
}

impl TextError {
    /// The rejection in words.
    pub open spec fn text(self) -> Seq<char> {
        match self {
            TextError::Empty => "Cannot be empty"@,
            TextError::TooLong => "Over text length"@,
        }
    }

    /// The rejection in words.
    pub fn message(self) -> (message: &'static str)
        ensures
            message@ == self.text(),
    {
        match self {
            TextError::Empty => "Cannot be empty",
            TextError::TooLong => "Over text length",
        }
    }
}

/// Calls `validator::validate_length` on a string, with no `equal` bound.
/// It counts the string's characters and returns whether the count is at
/// least `min`, where `min` is given, and at most `max`, where `max` is given.
#[verifier::external_body]
fn length_within(text: &String, min: Option<u64>, max: Option<u64>) -> (ok: bool)
    ensures
        ok == ((min matches Some(least) ==> text@.len() >= least) && (max matches Some(most)
            ==> text@.len() <= most)),
{
    validator::validate_length(text, min, max, None)
}

/// Checks a text against the rule, the lower bound first.
pub fn check_text(text: &String) -> (res: Result<(), TextError>)
    ensures
        match res {
            Ok(_) => valid_text(text@),
            Err(TextError::Empty) => text@.len() < TEXT_MIN,
            Err(TextError::TooLong) => text@.len() > TEXT_MAX,
        },
{
    if !length_within(text, Some(TEXT_MIN), None) {
        Err(TextError::Empty)
    } else if !length_within(text, None, Some(TEXT_MAX)) {
        Err(TextError::TooLong)
    } else {
        Ok(())
    }
}

impl CreateTodo {
    /// The payload has a valid text.
    pub open spec fn valid(self) -> bool {
        valid_text(self@.text)
    }

    /// Checks the payload's text.
    pub fn validate(&self) -> (res: Result<(), TextError>)
        ensures
            match res {
                Ok(_) => self.valid(),
                Err(TextError::Empty) => self@.text.len() < TEXT_MIN,
                Err(TextError::TooLong) => self@.text.len() > TEXT_MAX,
            },
    {
        check_text(&self.text)
    }
}

impl UpdateTodo {
    /// The payload's text, where it has one, is valid.
    pub open spec fn valid(self) -> bool {
        self@.text matches Some(text) ==> valid_text(text)
    }

    /// Checks the payload's text, where it has one.
    pub fn validate(&self) -> (res: Result<(), TextError>)
        ensures
            match res {
                Ok(_) => self.valid(),
                Err(TextError::Empty) => self@.text matches Some(text) && text.len() < TEXT_MIN,
                Err(TextError::TooLong) => self@.text matches Some(text) && text.len() > TEXT_MAX,
            },
    {
        match &self.text {
            Some(text) => check_text(text),
            None => Ok(()),
        }
    }
}

} // verus!
