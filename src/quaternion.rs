//! Quaternions with expression components.
use vstd::prelude::*;
use crate::expression::Expr;

verus! {

/// A quaternion `w + x i + y j + z k`.
pub struct Quaternion {
    pub w: Expr,
    pub x: Expr,
    pub y: Expr,
    pub z: Expr,
}

} // verus!
