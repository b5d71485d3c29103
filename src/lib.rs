//! Exact, rounding-free parts of a two-dimensional `f32` vector type, verified over
//! the IEEE-754 binary32 encodings of its components: the zero test behind the
//! degenerate-input policy, componentwise equality, absolute value and negation.
pub mod binary32;
pub mod degenerate;
pub mod vector;
