//! Sums a column of numbers taken from lines of text.
//!
//! Each non-blank line is trimmed, a field is cut out of it by a regular
//! expression (or the whole line is taken), the field is cleaned of white
//! space and commas, and it is read as an `i128` in radix 16 (with a `0x`
//! prefix, or in hex mode) or 10. What is no integer is left to a float parse
//! outside this crate; `line::contribution` decides what the line adds.
pub mod field;
pub mod line;
pub mod number;
pub mod render;
pub mod text;
