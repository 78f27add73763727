//! Exact symbolic scalars and the small vectors, matrices and quaternions built on them.
//!
//! An `Expr` records arithmetic as a tree instead of rounding it. Its exact value
//! (`Expr::exact`) is a fraction of integers, or, as in `f64` arithmetic, an infinity or
//! not-a-number; equality and ordering go by that value.
pub mod expression;
pub mod laws;
pub mod matrix;
pub mod mixed;
pub mod quaternion;
pub mod render;
pub mod utils;
pub mod value;
pub mod vector;
