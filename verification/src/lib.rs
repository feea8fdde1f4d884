//! Small verified pieces of an introductory exercise set: two addition
//! helpers (one correct, one deliberately flawed), the fizz-buzz line for
//! each number with a verified decimal rendering, and a bounds-checked
//! array lookup.

pub mod adders;
pub mod fizzbuzz;
pub mod lookup;
