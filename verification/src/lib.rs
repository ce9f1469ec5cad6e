//! Small verified building blocks: a password strength scorer, the Fibonacci
//! sequence, FizzBuzz, decimal rendering of integers, and a coin table.
//!
//! Every executable function carries a contract over a mathematical model
//! (`int`, `nat`, `Seq<char>`), and the contract is proved by Verus.

pub mod coin;
pub mod decimal;
pub mod fibonacci;
pub mod fizzbuzz;
pub mod password;
pub mod sum;
