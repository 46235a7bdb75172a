//! Failed checks.

use vstd::prelude::*;
use crate::call::Slot;

verus! {

/// Why a check failed, with the counts it expected and saw.
#[derive(Debug, Clone, Copy, PartialEq, Eq, Structural)]
pub enum FailureKind {
    /// A call was expected and none was logged.
    NotCalled,
    /// One call was expected and `actual`, more than one, were logged.
    CalledMoreThanOnce { actual: usize },
    /// `expected` calls were expected and none was logged.
    NeverCalled { expected: usize },
    /// Fewer calls than `expected` were logged, but at least one.
    CalledFewer { expected: usize, actual: usize },
    /// More calls than `expected` were logged.
    CalledMore { expected: usize, actual: usize },
    /// No call was expected and `actual` were logged.
    Called { actual: usize },
    /// No call had the expected value in `slot`, and the oldest that did not
    /// hold another value of its type captured nothing there.
    MissingPayload { slot: Slot },
    /// No call had the expected value in `slot`, and the oldest that did not
    /// hold another value of its type captured a value of another type.
    TypeMismatch { slot: Slot },
    /// Every call captured in `slot` another value of the expected type.
    NoMatch { slot: Slot },
    /// A call was given the arguments that no call should have been given.
    UnwantedMatch,
}

/// A failed check: the key it was made on, and what went wrong.
#[derive(Debug, Clone, PartialEq, Eq)]
pub struct Failure {
    pub key: String,
    pub kind: FailureKind,
}

/// The decimal digit `d`, for `d` below ten.
pub open spec fn digit(d: nat) -> char {
    if d == 0 {
        '0'
    } else if d == 1 {
        '1'
    } else if d == 2 {
        '2'
    } else if d == 3 {
        '3'
    } else if d == 4 {
        '4'
    } else if d == 5 {
        '5'
    } else if d == 6 {
        '6'
    } else if d == 7 {
        '7'
    } else if d == 8 {
        '8'
    } else {
        '9'
    }
}

/// `n` written in decimal, without leading zeros.
pub open spec fn decimal(n: nat) -> Seq<char>
    decreases n,
{
    if n < 10 {
        seq![digit(n)]
    } else {
        decimal(n / 10).push(digit(n % 10))
    }
}

/// What a failure says: the key, what was expected, and what was seen.
pub open spec fn message_text(key: Seq<char>, kind: FailureKind) -> Seq<char> {
    match kind {
        FailureKind::NotCalled => key + " wasn't called."@,
        FailureKind::CalledMoreThanOnce { actual } => key
            + " was called more than once. Was called "@ + decimal(actual as nat) + " times."@,
        FailureKind::NeverCalled { expected } => key + " should've been called "@ + decimal(
            expected as nat,
        ) + " times, but wasn't called."@,
        FailureKind::CalledFewer { expected, actual } => key + " was called fewer than "@
            + decimal(expected as nat) + " times. Was called "@ + decimal(actual as nat)
            + " times."@,
        FailureKind::CalledMore { expected, actual } => key + " was called more than "@ + decimal(
            expected as nat,
        ) + " times. Was called "@ + decimal(actual as nat) + " times."@,
        FailureKind::Called { actual } => key + " should not have been called but was called "@
            + decimal(actual as nat) + " times."@,
        FailureKind::MissingPayload { slot: Slot::Arguments } =>
            "You didn't log any arguments for your calls to "@ + key + "."@,
        FailureKind::MissingPayload { slot: Slot::Returned } =>
            "You didn't log any return value for your calls to "@ + key + "."@,
        FailureKind::TypeMismatch { slot: Slot::Arguments } => "The arguments logged for "@ + key
            + " didn't have that type."@,
        FailureKind::TypeMismatch { slot: Slot::Returned } => "The return value logged for "@
            + key + " didn't have that type."@,
        FailureKind::NoMatch { slot: Slot::Arguments } => key
            + " wasn't called with the arguments specified."@,
        FailureKind::NoMatch { slot: Slot::Returned } => key
            + " didn't return the value specified."@,
        FailureKind::UnwantedMatch => key
            + " was called with the argument when it should'nt have been."@,
    }
}

/// The digit `d` as a string of one letter.
fn digit_text(d: usize) -> (text: &'static str)
    requires
        d < 10,
    ensures
        text@ == seq![digit(d as nat)],
{
    proof {
        reveal_strlit("0");
        reveal_strlit("1");
        reveal_strlit("2");
        reveal_strlit("3");
        reveal_strlit("4");
        reveal_strlit("5");
        reveal_strlit("6");
        reveal_strlit("7");
        reveal_strlit("8");
        reveal_strlit("9");
    }
    let text = if d == 0 {
        "0"
    } else if d == 1 {
        "1"
    } else if d == 2 {
        "2"
    } else if d == 3 {
        "3"
    } else if d == 4 {
        "4"
    } else if d == 5 {
        "5"
    } else if d == 6 {
        "6"
    } else if d == 7 {
        "7"
    } else if d == 8 {
        "8"
    } else {
        "9"
    };
    assert(text@ =~= seq![digit(d as nat)]);
    text
}

/// Writes `n` in decimal at the end of `text`.
fn append_decimal(text: &mut String, n: usize)
    ensures
        final(text)@ == old(text)@ + decimal(n as nat),
    decreases n,
{
    if n >= 10 {
        append_decimal(text, n / 10);
    }
    text.append(digit_text(n % 10));
    proof {
        if n >= 10 {
            assert(old(text)@ + decimal((n / 10) as nat) + seq![digit((n % 10) as nat)] =~= old(
                text,
            )@ + decimal(n as nat));
        }
    }
}

impl Failure {
    /// The failure in words.
    pub fn message(&self) -> (text: String)
        ensures
            text@ == message_text(self.key@, self.kind),
    {
        let mut text = String::new();
        match self.kind {
            FailureKind::NotCalled => {
                text.append(self.key.as_str());
                text.append(" wasn't called.");
            },
            FailureKind::CalledMoreThanOnce { actual } => {
                text.append(self.key.as_str());
                text.append(" was called more than once. Was called ");
                append_decimal(&mut text, actual);
                text.append(" times.");
            },
            FailureKind::NeverCalled { expected } => {
                text.append(self.key.as_str());
                text.append(" should've been called ");
                append_decimal(&mut text, expected);
                text.append(" times, but wasn't called.");
            },
            FailureKind::CalledFewer { expected, actual } => {
                text.append(self.key.as_str());
                text.append(" was called fewer than ");
                append_decimal(&mut text, expected);
                text.append(" times. Was called ");
                append_decimal(&mut text, actual);
                text.append(" times.");
            },
            FailureKind::CalledMore { expected, actual } => {
                text.append(self.key.as_str());
                text.append(" was called more than ");
                append_decimal(&mut text, expected);
                text.append(" times. Was called ");
                append_decimal(&mut text, actual);
                text.append(" times.");
            },
            FailureKind::Called { actual } => {
                text.append(self.key.as_str());
                text.append(" should not have been called but was called ");
                append_decimal(&mut text, actual);
                text.append(" times.");
            },
            FailureKind::MissingPayload { slot: Slot::Arguments } => {
                text.append("You didn't log any arguments for your calls to ");
                text.append(self.key.as_str());
                text.append(".");
            },
            FailureKind::MissingPayload { slot: Slot::Returned } => {
                text.append("You didn't log any return value for your calls to ");
                text.append(self.key.as_str());
                text.append(".");
            },
            FailureKind::TypeMismatch { slot: Slot::Arguments } => {
                text.append("The arguments logged for ");
                text.append(self.key.as_str());
                text.append(" didn't have that type.");
            },
            FailureKind::TypeMismatch { slot: Slot::Returned } => {
                text.append("The return value logged for ");
                text.append(self.key.as_str());
                text.append(" didn't have that type.");
            },
            FailureKind::NoMatch { slot: Slot::Arguments } => {
                text.append(self.key.as_str());
                text.append(" wasn't called with the arguments specified.");
            },
            FailureKind::NoMatch { slot: Slot::Returned } => {
                text.append(self.key.as_str());
                text.append(" didn't return the value specified.");
            },
            FailureKind::UnwantedMatch => {
                text.append(self.key.as_str());
                text.append(" was called with the argument when it should'nt have been.");
            },
        }
        assert(text@ =~= message_text(self.key@, self.kind));
        text
    }
}

} // verus!
