//! Character-level text operations with exact specifications over `Seq<char>`.
//!
//! Everything the rest of the crate needs to say about strings (trimming,
//! case folding, decimal numbers, substring search) is defined here once, as
//! a spec function, next to the executable function that computes it.

pub mod case;
pub mod decimal;
pub mod pattern;
pub mod whitespace;
