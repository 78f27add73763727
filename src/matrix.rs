//! Square matrices of expressions, held as a flat array in row-major order: entry
//! `(row, col)` of an `N x N` matrix sits at linear index `N * row + col`.
use vstd::prelude::*;
use crate::expression::Expr;

verus! {

/// A 2x2 matrix of expressions in row-major order.
#[derive(Debug)]
pub struct Matrix2 {
    pub data: [Expr; 4],
}

impl View for Matrix2 {
    type V = Seq<Expr>;

    open spec fn view(&self) -> Seq<Expr> {
        self.data@
    }
}

impl Matrix2 {
    /// The entry at linear `index`, to replace it in place.
    pub fn get_mut(&mut self, index: usize) -> (r: &mut Expr)
        requires
            index < 4,
        ensures
            *r == old(self)@[index as int],
            final(self)@ == old(self)@.update(index as int, *final(r)),
    {
        &mut self.data[index]
    }
}

impl core::ops::Index<usize> for Matrix2 {
    type Output = Expr;

    fn index(&self, index: usize) -> (r: &Expr)
        ensures
            *r == self@[index as int],
    {
        &self.data[index]
    }
}

impl vstd::std_specs::core::IndexSpecImpl<usize> for Matrix2 {
    open spec fn index_req(&self, index: &usize) -> bool {
        *index < 4
    }
}

/// A 3x3 matrix of expressions in row-major order.
#[derive(Debug)]
pub struct Matrix3 {
    pub data: [Expr; 9],
}

impl View for Matrix3 {
    type V = Seq<Expr>;

    open spec fn view(&self) -> Seq<Expr> {
        self.data@
    }
}

impl Matrix3 {
    /// The entry at linear `index`, to replace it in place.
    pub fn get_mut(&mut self, index: usize) -> (r: &mut Expr)
        requires
            index < 9,
        ensures
            *r == old(self)@[index as int],
            final(self)@ == old(self)@.update(index as int, *final(r)),
    {
        &mut self.data[index]
    }
}

impl core::ops::Index<usize> for Matrix3 {
    type Output = Expr;

    fn index(&self, index: usize) -> (r: &Expr)
        ensures
            *r == self@[index as int],
    {
        &self.data[index]
    }
}

impl vstd::std_specs::core::IndexSpecImpl<usize> for Matrix3 {
    open spec fn index_req(&self, index: &usize) -> bool {
        *index < 9
    }
}

/// A 4x4 matrix of expressions in row-major order.
#[derive(Debug)]
pub struct Matrix4 {
    pub data: [Expr; 16],
}

impl View for Matrix4 {
    type V = Seq<Expr>;

    open spec fn view(&self) -> Seq<Expr> {
        self.data@
    }
}

impl Matrix4 {
    /// The entry at linear `index`, to replace it in place.
    pub fn get_mut(&mut self, index: usize) -> (r: &mut Expr)
        requires
            index < 16,
        ensures
            *r == old(self)@[index as int],
            final(self)@ == old(self)@.update(index as int, *final(r)),
    {
        &mut self.data[index]
    }
}

impl core::ops::Index<usize> for Matrix4 {
    type Output = Expr;

    fn index(&self, index: usize) -> (r: &Expr)
        ensures
            *r == self@[index as int],
    {
        &self.data[index]
    }
}

impl vstd::std_specs::core::IndexSpecImpl<usize> for Matrix4 {
    open spec fn index_req(&self, index: &usize) -> bool {
        *index < 16
    }
}

} // verus!
