//! A sum of two numbers, handed back together with a sentence that reports it.

use crate::decimal::{signed_decimal_string, signed_decimal_text};
use vstd::prelude::*;
use vstd::string::*;

verus! {

/// The sentence that reports the sum `total`.
pub open spec fn sum_message(total: int) -> Seq<char> {
    "The sum of the two numbers is: "@ + signed_decimal_text(total)
}

/// Adds two numbers and returns the sum with the sentence that reports it.
///
/// The sum has to fit in an `i32`.
pub fn return_function(num1: i32, num2: i32) -> (result: (i32, String))
    requires
        i32::MIN <= num1 + num2 <= i32::MAX,
    ensures
        result.0 == num1 + num2,
        result.1@ == sum_message(num1 + num2),
{
    let x = num1 + num2;
    let mut y = String::from_str("The sum of the two numbers is: ");
    let digits = signed_decimal_string(x as i64);
    y.append(digits.as_str());
    (x, y)
}

} // verus!
