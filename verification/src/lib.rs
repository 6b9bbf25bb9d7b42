//! A small verified library: addition on `i32` that never overflows
//! unnoticed, the decimal form of numbers, a test for empty text, a `Person`
//! record with its greeting, and a record whose written form is empty.
//!
//! Every function states its result over mathematical integers and sequences
//! of characters.

pub mod arith;
pub mod my_struct;
pub mod person;
pub mod text;

pub use arith::{calculate, describe_sum, sum};
pub use my_struct::MyStruct;
pub use person::Person;
pub use text::{check_empty, decimal_string};
