//! Password strength scoring.
//!
//! A password earns one point for each of three rules: it is longer than
//! [`LENGTH_THRESHOLD`] characters, it holds a digit, it holds a special
//! character. Length is counted in characters, not in bytes.
//!
//! A digit is a character that `char::is_numeric` accepts. A letter is any
//! other character that `char::is_alphabetic` accepts. Every character that
//! is neither is special, so a digit is never a special character.

use vstd::prelude::*;

verus! {

/// A password must be longer than this many characters to earn the length point.
pub const LENGTH_THRESHOLD: usize = 8;

/// What a single character counts as.
#[derive(Clone, Copy, Debug, PartialEq, Eq, Structural)]
pub enum CharKind {
    Digit,
    Letter,
    Special,
}

/// What `char::is_numeric` answers for `c`.
pub uninterp spec fn char_is_numeric(c: char) -> bool;

/// What `char::is_alphabetic` answers for `c`.
pub uninterp spec fn char_is_alphabetic(c: char) -> bool;

/// Trusted, not proved. `char::is_numeric` of the standard library tells
/// whether `c` is in one of Unicode's general categories for numbers. All that
/// is claimed here is that its answer depends on `c` alone: the answer is
/// named [`char_is_numeric`].
pub assume_specification[ char::is_numeric ](c: char) -> (numeric: bool)
    ensures
        numeric == char_is_numeric(c),
;

/// Trusted, not proved. `char::is_alphabetic` of the standard library tells
/// whether `c` has Unicode's `Alphabetic` property. All that is claimed here
/// is that its answer depends on `c` alone: the answer is named
/// [`char_is_alphabetic`].
pub assume_specification[ char::is_alphabetic ](c: char) -> (alphabetic: bool)
    ensures
        alphabetic == char_is_alphabetic(c),
;

/// The kind of a character, given whether it is numeric and whether it is
/// alphabetic. Numeric is asked first: a digit is a digit whatever else it is.
pub open spec fn kind_of(numeric: bool, alphabetic: bool) -> CharKind {
    if numeric {
        CharKind::Digit
    } else if alphabetic {
        CharKind::Letter
    } else {
        CharKind::Special
    }
}

/// The kind of the character `c`.
pub open spec fn char_kind(c: char) -> CharKind {
    kind_of(char_is_numeric(c), char_is_alphabetic(c))
}

/// Whether some character of `text` is of kind `kind`.
pub open spec fn has_kind(text: Seq<char>, kind: CharKind) -> bool {
    exists|i: int| 0 <= i < text.len() && char_kind(#[trigger] text[i]) == kind
}

/// The points earned by a text of `length` characters.
pub open spec fn strength(length: nat, has_digit: bool, has_special: bool) -> int {
    (if length > LENGTH_THRESHOLD { 1int } else { 0int })
        + (if has_digit { 1int } else { 0int })
        + (if has_special { 1int } else { 0int })
}

/// The strength score of `text`.
pub open spec fn score(text: Seq<char>) -> int {
    strength(text.len(), has_kind(text, CharKind::Digit), has_kind(text, CharKind::Special))
}

/// Every text scores 0, 1, 2 or 3.
pub proof fn score_in_range(text: Seq<char>)
    ensures
        0 <= score(text) <= 3,
{
}

/// Decides the kind of a character from the two answers about it.
pub fn classify(numeric: bool, alphabetic: bool) -> (kind: CharKind)
    ensures
        kind == kind_of(numeric, alphabetic),
{
    if numeric {
        CharKind::Digit
    } else if alphabetic {
        CharKind::Letter
    } else {
        CharKind::Special
    }
}

/// Adds up the points for a text of `length` characters.
pub fn strength_score(length: usize, has_digit: bool, has_special: bool) -> (points: i32)
    ensures
        points == strength(length as nat, has_digit, has_special),
        0 <= points <= 3,
{
    let mut points: i32 = 0;
    if length > LENGTH_THRESHOLD {
        points += 1;
    }
    if has_digit {
        points += 1;
    }
    if has_special {
        points += 1;
    }
    points
}

/// The outcome of scoring one password.
#[derive(Debug)]
pub struct PasswordChecker {
    /// The points earned, from 0 to 3.
    pub score: i32,
    /// Free text to show beside the score. No rule reads it.
    pub feedback: String,
}

impl PasswordChecker {
    /// The score is one that some password can earn.
    pub open spec fn wf(&self) -> bool {
        0 <= self.score <= 3
    }

    /// Scores `password` and records the outcome, with no feedback text yet.
    pub fn evaluate(password: &str) -> (outcome: Self)
        ensures
            outcome.wf(),
            outcome.score == score(password@),
            outcome.feedback@ == Seq::<char>::empty(),
    {
        PasswordChecker { score: password_checker(password), feedback: String::new() }
    }
}

/// Scores `password` in a single pass over its characters.
pub fn password_checker(password: &str) -> (points: i32)
    ensures
        points == score(password@),
        0 <= points <= 3,
{
    let mut seen: usize = 0;
    let mut has_numbers = false;
    let mut has_special = false;
    for c in it: password.chars()
        invariant
            it.seq() == password@,
            seen == (if it.index() <= LENGTH_THRESHOLD { it.index() } else { LENGTH_THRESHOLD + 1 }),
            has_numbers == (exists|i: int|
                0 <= i < it.index() && char_kind(#[trigger] password@[i]) == CharKind::Digit),
            has_special == (exists|i: int|
                0 <= i < it.index() && char_kind(#[trigger] password@[i]) == CharKind::Special),
    {
        if seen <= LENGTH_THRESHOLD {
            seen += 1;
        }
        match classify(c.is_numeric(), c.is_alphabetic()) {
            CharKind::Digit => {
                has_numbers = true;
            },
            CharKind::Special => {
                has_special = true;
            },
            CharKind::Letter => {},
        }
    }
    strength_score(seen, has_numbers, has_special)
}

} // verus!
