//! Small verified building blocks: integer functions with early returns and
//! tuple results, and a function that takes a vector by value and hands it back.

pub mod arithmetic;
pub mod ownership;

pub use arithmetic::{early_return_example, square, sum_and_product};
pub use ownership::take_and_return;
