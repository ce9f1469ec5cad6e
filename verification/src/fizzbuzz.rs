//! FizzBuzz over the numbers 0 through 99.
//!
//! Each number gives one line: `FizzBuzz` for a multiple of both 3 and 5,
//! `Fizz` for another multiple of 3, `Buzz` for another multiple of 5, and
//! otherwise the number itself in decimal.

use crate::decimal::{decimal_string, decimal_text};
use vstd::prelude::*;
use vstd::string::*;

verus! {

/// How many lines the sequence has: one for each number from 0 through 99.
pub const LINES: u32 = 100;

/// The line of the number `i`. The test for a multiple of both 3 and 5 comes
/// first, so that such a number gives neither `Fizz` nor `Buzz` alone.
pub open spec fn line_text(i: nat) -> Seq<char> {
    if i % 3 == 0 && i % 5 == 0 {
        "FizzBuzz"@
    } else if i % 3 == 0 {
        "Fizz"@
    } else if i % 5 == 0 {
        "Buzz"@
    } else {
        decimal_text(i)
    }
}

/// Computes the line of the number `i`.
pub fn fizz_buzz_line(i: u32) -> (line: String)
    ensures
        line@ == line_text(i as nat),
{
    if i % 3 == 0 && i % 5 == 0 {
        String::from_str("FizzBuzz")
    } else if i % 3 == 0 {
        String::from_str("Fizz")
    } else if i % 5 == 0 {
        String::from_str("Buzz")
    } else {
        decimal_string(i as u64)
    }
}

/// A counter that hands out the lines one at a time, from the line of 0 to
/// the line of 99, and then nothing more. It cannot be wound back.
pub struct FizzBuzz {
    next: u32,
}

impl View for FizzBuzz {
    type V = nat;

    /// How many lines have been handed out.
    closed spec fn view(&self) -> nat {
        self.next as nat
    }
}

impl FizzBuzz {
    #[verifier::type_invariant]
    spec fn within_range(self) -> bool {
        self.next <= LINES
    }

    /// A counter that has handed out nothing yet.
    pub fn new() -> (counter: Self)
        ensures
            counter@ == 0,
    {
        FizzBuzz { next: 0 }
    }

    /// Hands out the next line, or `None` once all [`LINES`] lines are out.
    pub fn next_line(&mut self) -> (line: Option<String>)
        ensures
            old(self)@ < LINES ==> line is Some && line->0@ == line_text(old(self)@) && final(self)@
                == old(self)@ + 1,
            old(self)@ >= LINES ==> line is None && final(self)@ == old(self)@,
            final(self)@ <= LINES,
    {
        proof {
            use_type_invariant(&*self);
        }
        if self.next < LINES {
            let line = fizz_buzz_line(self.next);
            self.next = self.next + 1;
            Some(line)
        } else {
            None
        }
    }
}

/// Computes the whole sequence, in order: the line of `i` stands at index `i`.
pub fn fizz_buzz() -> (lines: Vec<String>)
    ensures
        lines.len() == LINES,
        forall|i: int| 0 <= i < LINES ==> (#[trigger] lines[i])@ == line_text(i as nat),
{
    let mut counter = FizzBuzz::new();
    let mut lines: Vec<String> = Vec::new();
    loop
        invariant
            counter@ == lines.len() <= LINES,
            forall|i: int| 0 <= i < lines.len() ==> (#[trigger] lines[i])@ == line_text(i as nat),
        ensures
            lines.len() == LINES,
        decreases LINES - counter@,
    {
        match counter.next_line() {
            Some(line) => {
                lines.push(line);
            },
            None => {
                break;
            },
        }
    }
    lines
}

} // verus!
