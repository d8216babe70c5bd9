//! How a repository operation fails.

use vstd::prelude::*;
use vstd::string::StringExecFns;

verus! {

/// The failure of a repository operation.
#[derive(Debug)]
pub enum RepositoryError {
    /// The storage layer failed; the message describes how.
    Unexpected(String),
    /// No entity is stored under this id.
    NotFound(i32),
}

/// A `RepositoryError` with its message as a sequence of characters.
pub enum RepositoryErrorView {
    Unexpected(Seq<char>),
    NotFound(i32),
}

impl View for RepositoryError {
    type V = RepositoryErrorView;

    open spec fn view(&self) -> RepositoryErrorView {
        match self {
            RepositoryError::Unexpected(message) => RepositoryErrorView::Unexpected(message@),
            RepositoryError::NotFound(id) => RepositoryErrorView::NotFound(*id),
        }
    }
}

/// The character of a decimal digit.
pub open spec fn digit(d: int) -> char
    recommends
        0 <= d < 10,
{
    seq!['0', '1', '2', '3', '4', '5', '6', '7', '8', '9'][d]
}

/// A natural number in decimal digits, without leading zeros.
pub open spec fn decimal(n: nat) -> Seq<char>
    decreases n,
{
    if n < 10 {
        seq![digit(n as int)]
    } else {
        decimal(n / 10).push(digit((n % 10) as int))
    }
}

/// An integer in decimal digits, with `-` in front of a negative one.
pub open spec fn signed_decimal(i: int) -> Seq<char> {
    if i < 0 {
        seq!['-'] + decimal((-i) as nat)
    } else {
        decimal(i as nat)
    }
}

impl RepositoryErrorView {
    /// The error in words.
    pub open spec fn text(self) -> Seq<char> {
        match self {
            RepositoryErrorView::Unexpected(message) => "Unexpected Error: ["@ + message + "]"@,
            RepositoryErrorView::NotFound(id) => "NotFound, id is "@ + signed_decimal(id as int),
        }
    }
}

fn digit_text(d: u32) -> (text: &'static str)
    requires
        d < 10,
    ensures
        text@ == seq![digit(d as int)],
{
    proof {
        reveal_strlit("0");
        reveal_strlit("1");
        reveal_strlit("2");
        reveal_strlit("3");
        reveal_strlit("4");
        reveal_strlit("5");
        reveal_strlit("6");
        reveal_strlit("7");
        reveal_strlit("8");
        reveal_strlit("9");
    }
    let text = if d == 0 {
        "0"
    } else if d == 1 {
        "1"
    } else if d == 2 {
        "2"
    } else if d == 3 {
        "3"
    } else if d == 4 {
        "4"
    } else if d == 5 {
        "5"
    } else if d == 6 {
        "6"
    } else if d == 7 {
        "7"
    } else if d == 8 {
        "8"
    } else {
        "9"
    };
    assert(text@ =~= seq![digit(d as int)]);
    text
}

fn decimal_text(n: u32) -> (text: String)
    ensures
        text@ == decimal(n as nat),
    decreases n,
{
    if n < 10 {
        String::from_str(digit_text(n))
    } else {
        let mut text = decimal_text(n / 10);
        text.append(digit_text(n % 10));
        assert(text@ =~= decimal(n as nat));
        text
    }
}

impl RepositoryError {
    /// The error in words.
    pub fn message(&self) -> (message: String)
        ensures
            message@ == self@.text(),
    {
        match self {
            RepositoryError::Unexpected(cause) => {
                let mut message = String::from_str("Unexpected Error: [");
                message.append(cause.as_str());
                message.append("]");
                message
            },
            RepositoryError::NotFound(id) => {
                let mut message = String::from_str("NotFound, id is ");
                let wide: i64 = *id as i64;
                if wide < 0 {
                    proof {
                        reveal_strlit("-");
                    }
                    message.append("-");
                    message.append(decimal_text((-wide) as u32).as_str());
                    assert(message@ =~= "NotFound, id is "@ + signed_decimal(*id as int));
                } else {
                    message.append(decimal_text(wide as u32).as_str());
                }
                message
            },
        }
    }
}

} // verus!
