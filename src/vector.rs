//! Vectors of two, three and four expressions: componentwise arithmetic, dot product,
//! scaling, norm and normalisation, all built from the expression operators.
use vstd::prelude::*;
use crate::expression::{power, product, quotient, Expr};
use crate::value::{evaluation, same_x};

verus! {

/// Two expressions have the same exact value, not-a-number excepted (the meaning of `==`
/// on `Expr`).
pub open spec fn same_value(a: Expr, b: Expr) -> bool {
    same_x(evaluation(a), evaluation(b))
}

/// Componentwise `a[i] + b[i]` nodes.
pub open spec fn sums(a: Seq<Expr>, b: Seq<Expr>) -> Seq<Expr> {
    Seq::new(a.len(), |i: int| Expr::Add(Box::new(a[i]), Box::new(b[i])))
}

/// Componentwise `a[i] - b[i]` nodes.
pub open spec fn differences(a: Seq<Expr>, b: Seq<Expr>) -> Seq<Expr> {
    Seq::new(a.len(), |i: int| Expr::Sub(Box::new(a[i]), Box::new(b[i])))
}

/// Componentwise products, simplified as `*` does.
pub open spec fn products(a: Seq<Expr>, b: Seq<Expr>) -> Seq<Expr> {
    Seq::new(a.len(), |i: int| product(a[i], b[i]))
}

/// Every component multiplied by `s`, simplified as `*` does.
pub open spec fn scaled(a: Seq<Expr>, s: Expr) -> Seq<Expr> {
    Seq::new(a.len(), |i: int| product(a[i], s))
}

/// The dot product of the first `n >= 1` components, summed from the left:
/// `((a0 * b0 + a1 * b1) + a2 * b2) + ...`.
pub open spec fn dot(a: Seq<Expr>, b: Seq<Expr>, n: nat) -> Expr
    decreases n,
{
    if n <= 1 {
        product(a[0], b[0])
    } else {
        Expr::Add(Box::new(dot(a, b, (n - 1) as nat)), Box::new(product(a[n - 1], b[n - 1])))
    }
}

/// The sum of the squares `a[i] ^ 2` of the first `n >= 1` components, from the left.
pub open spec fn squares(a: Seq<Expr>, n: nat) -> Expr
    decreases n,
{
    if n <= 1 {
        power(a[0], Expr::Val(2))
    } else {
        Expr::Add(Box::new(squares(a, (n - 1) as nat)), Box::new(power(a[n - 1], Expr::Val(2))))
    }
}

/// The norm: the sum of squares raised to the power `1 / 2`.
pub open spec fn norm_of(a: Seq<Expr>) -> Expr {
    power(squares(a, a.len()), Expr::Div(Box::new(Expr::Val(1)), Box::new(Expr::Val(2))))
}

/// A vector of 2 expressions, components `x, y` at indices `0..2`.
#[derive(Debug)]
pub struct Vector2 {
    pub data: [Expr; 2],
}

impl View for Vector2 {
    type V = Seq<Expr>;

    open spec fn view(&self) -> Seq<Expr> {
        self.data@
    }
}

impl Vector2 {
    /// The vector with the given components.
    fn make(c0: Expr, c1: Expr) -> (r: Vector2)
        ensures
            r == (Vector2 { data: [c0, c1] }),
            r@ == seq![c0, c1],
    {
        let r = Vector2 { data: [c0, c1] };
        assert(r@ =~= seq![c0, c1]);
        r
    }

    /// The zero vector.
    pub fn new() -> (r: Vector2)
        ensures
            r@ == Seq::new(2, |i: int| Expr::Val(0)),
    {
        let r = Vector2::make(Expr::Val(0), Expr::Val(0));
        assert(r@ =~= Seq::new(2, |i: int| Expr::Val(0)));
        r
    }

    pub fn x(&self) -> (r: &Expr)
        ensures
            *r == self@[0],
    {
        &self.data[0]
    }

    pub fn x_mut(&mut self) -> (r: &mut Expr)
        ensures
            *r == old(self)@[0],
            final(self)@ == old(self)@.update(0, *final(r)),
    {
        &mut self.data[0]
    }

    pub fn y(&self) -> (r: &Expr)
        ensures
            *r == self@[1],
    {
        &self.data[1]
    }

    pub fn y_mut(&mut self) -> (r: &mut Expr)
        ensures
            *r == old(self)@[1],
            final(self)@ == old(self)@.update(1, *final(r)),
    {
        &mut self.data[1]
    }

    /// The component at `index`, to replace it in place.
    pub fn get_mut(&mut self, index: usize) -> (r: &mut Expr)
        requires
            index < 2,
        ensures
            *r == old(self)@[index as int],
            final(self)@ == old(self)@.update(index as int, *final(r)),
    {
        &mut self.data[index]
    }

    /// Componentwise product.
    pub fn component(self, rhs: Vector2) -> (r: Vector2)
        ensures
            r@ == products(self@, rhs@),
    {
        let r = Vector2::make(self.data[0].clone() * rhs.data[0].clone(), self.data[1].clone() * rhs.data[1].clone());
        assert(r@ =~= products(self@, rhs@));
        r
    }

    /// The Euclidean norm, `(x ^ 2 + y ^ 2 + ...) ^ (1 / 2)`.
    pub fn norm(&self) -> (r: Expr)
        ensures
            r == norm_of(self@),
    {
        let sum = (self.data[0].clone() ^ Expr::Val(2)) + (self.data[1].clone() ^ Expr::Val(2));
        proof {
            reveal_with_fuel(squares, 3);
        }
        sum ^ Expr::Div(Box::new(Expr::Val(1)), Box::new(Expr::Val(2)))
    }

    /// The vector scaled by the reciprocal of its norm. For a zero vector the reciprocal is
    /// `+inf`: components that are literal zeros stay `0` (the shortcut of `*`), others are
    /// worth not-a-number.
    pub fn normalize(self) -> (r: Vector2)
        ensures
            r@ == scaled(self@, quotient(Expr::Val(1), norm_of(self@))),
    {
        let inv = Expr::Val(1) / self.norm();
        self * inv
    }
}

impl Clone for Vector2 {
    fn clone(&self) -> (r: Vector2)
        ensures
            r@ == self@,
    {
        let r = Vector2::make(self.data[0].clone(), self.data[1].clone());
        assert(r@ =~= self@);
        r
    }
}

impl Default for Vector2 {
    fn default() -> (r: Vector2)
        ensures
            r@ == Seq::new(2, |i: int| Expr::Val(0)),
    {
        Vector2::new()
    }
}

impl core::ops::Index<usize> for Vector2 {
    type Output = Expr;

    fn index(&self, index: usize) -> (r: &Expr)
        ensures
            *r == self@[index as int],
    {
        &self.data[index]
    }
}

impl vstd::std_specs::core::IndexSpecImpl<usize> for Vector2 {
    open spec fn index_req(&self, index: &usize) -> bool {
        *index < 2
    }
}

/// Componentwise sum.
impl core::ops::Add for Vector2 {
    type Output = Vector2;

    fn add(self, rhs: Vector2) -> (r: Vector2)
        ensures
            r@ == sums(self@, rhs@),
    {
        let r = Vector2::make(self.data[0].clone() + rhs.data[0].clone(), self.data[1].clone() + rhs.data[1].clone());
        assert(r@ =~= sums(self@, rhs@));
        r
    }
}

/// Componentwise difference.
impl core::ops::Sub for Vector2 {
    type Output = Vector2;

    fn sub(self, rhs: Vector2) -> (r: Vector2)
        ensures
            r@ == differences(self@, rhs@),
    {
        let r = Vector2::make(self.data[0].clone() - rhs.data[0].clone(), self.data[1].clone() - rhs.data[1].clone());
        assert(r@ =~= differences(self@, rhs@));
        r
    }
}

/// Dot product.
impl core::ops::Mul for Vector2 {
    type Output = Expr;

    fn mul(self, rhs: Vector2) -> (r: Expr)
        ensures
            r == dot(self@, rhs@, 2),
    {
        proof {
            reveal_with_fuel(dot, 3);
        }
        self.data[0].clone() * rhs.data[0].clone() + self.data[1].clone() * rhs.data[1].clone()
    }
}

/// Scaling by an expression.
impl core::ops::Mul<Expr> for Vector2 {
    type Output = Vector2;

    fn mul(self, rhs: Expr) -> (r: Vector2)
        ensures
            r@ == scaled(self@, rhs),
    {
        let r = Vector2::make(self.data[0].clone() * rhs.clone(), self.data[1].clone() * rhs.clone());
        assert(r@ =~= scaled(self@, rhs));
        r
    }
}

/// Scaling by an integer.
impl core::ops::Mul<i16> for Vector2 {
    type Output = Vector2;

    fn mul(self, rhs: i16) -> (r: Vector2)
        ensures
            r@ == scaled(self@, Expr::Val(rhs as i128)),
    {
        self * Expr::from(rhs)
    }
}

/// Scaling by an integer.
impl core::ops::Mul<i32> for Vector2 {
    type Output = Vector2;

    fn mul(self, rhs: i32) -> (r: Vector2)
        ensures
            r@ == scaled(self@, Expr::Val(rhs as i128)),
    {
        self * Expr::from(rhs)
    }
}

impl From<Expr> for Vector2 {
    fn from(value: Expr) -> Vector2 {
        Vector2::make(value.clone(), value)
    }
}

impl vstd::std_specs::convert::FromSpecImpl<Expr> for Vector2 {
    open spec fn obeys_from_spec() -> bool {
        true
    }

    open spec fn from_spec(value: Expr) -> Vector2 {
        Vector2 { data: [value, value] }
    }
}

impl From<i16> for Vector2 {
    fn from(value: i16) -> Vector2 {
        Vector2::make(Expr::from(value), Expr::from(value))
    }
}

impl vstd::std_specs::convert::FromSpecImpl<i16> for Vector2 {
    open spec fn obeys_from_spec() -> bool {
        true
    }

    open spec fn from_spec(value: i16) -> Vector2 {
        Vector2 { data: [Expr::Val(value as i128), Expr::Val(value as i128)] }
    }
}

impl From<i32> for Vector2 {
    fn from(value: i32) -> Vector2 {
        Vector2::make(Expr::from(value), Expr::from(value))
    }
}

impl vstd::std_specs::convert::FromSpecImpl<i32> for Vector2 {
    open spec fn obeys_from_spec() -> bool {
        true
    }

    open spec fn from_spec(value: i32) -> Vector2 {
        Vector2 { data: [Expr::Val(value as i128), Expr::Val(value as i128)] }
    }
}

impl From<(Expr, Expr)> for Vector2 {
    fn from(value: (Expr, Expr)) -> Vector2 {
        Vector2::make(value.0, value.1)
    }
}

impl vstd::std_specs::convert::FromSpecImpl<(Expr, Expr)> for Vector2 {
    open spec fn obeys_from_spec() -> bool {
        true
    }

    open spec fn from_spec(value: (Expr, Expr)) -> Vector2 {
        Vector2 { data: [value.0, value.1] }
    }
}

impl From<(i16, i16)> for Vector2 {
    fn from(value: (i16, i16)) -> Vector2 {
        Vector2::make(Expr::from(value.0), Expr::from(value.1))
    }
}

impl vstd::std_specs::convert::FromSpecImpl<(i16, i16)> for Vector2 {
    open spec fn obeys_from_spec() -> bool {
        true
    }

    open spec fn from_spec(value: (i16, i16)) -> Vector2 {
        Vector2 { data: [Expr::Val(value.0 as i128), Expr::Val(value.1 as i128)] }
    }
}

impl From<(i32, i32)> for Vector2 {
    fn from(value: (i32, i32)) -> Vector2 {
        Vector2::make(Expr::from(value.0), Expr::from(value.1))
    }
}

impl vstd::std_specs::convert::FromSpecImpl<(i32, i32)> for Vector2 {
    open spec fn obeys_from_spec() -> bool {
        true
    }

    open spec fn from_spec(value: (i32, i32)) -> Vector2 {
        Vector2 { data: [Expr::Val(value.0 as i128), Expr::Val(value.1 as i128)] }
    }
}

impl vstd::std_specs::ops::AddSpecImpl for Vector2 {
    open spec fn obeys_add_spec() -> bool {
        true
    }

    open spec fn add_req(self, rhs: Vector2) -> bool {
        true
    }

    open spec fn add_spec(self, rhs: Vector2) -> Vector2 {
        (Vector2 { data: [Expr::Add(Box::new(self@[0]), Box::new(rhs@[0])), Expr::Add(Box::new(self@[1]), Box::new(rhs@[1]))] })
    }
}

impl vstd::std_specs::ops::SubSpecImpl for Vector2 {
    open spec fn obeys_sub_spec() -> bool {
        true
    }

    open spec fn sub_req(self, rhs: Vector2) -> bool {
        true
    }

    open spec fn sub_spec(self, rhs: Vector2) -> Vector2 {
        (Vector2 { data: [Expr::Sub(Box::new(self@[0]), Box::new(rhs@[0])), Expr::Sub(Box::new(self@[1]), Box::new(rhs@[1]))] })
    }
}

impl vstd::std_specs::ops::MulSpecImpl for Vector2 {
    open spec fn obeys_mul_spec() -> bool {
        true
    }

    open spec fn mul_req(self, rhs: Vector2) -> bool {
        true
    }

    open spec fn mul_spec(self, rhs: Vector2) -> Expr {
        dot(self@, rhs@, 2)
    }
}

impl vstd::std_specs::ops::MulSpecImpl<Expr> for Vector2 {
    open spec fn obeys_mul_spec() -> bool {
        true
    }

    open spec fn mul_req(self, rhs: Expr) -> bool {
        true
    }

    open spec fn mul_spec(self, rhs: Expr) -> Vector2 {
        (Vector2 { data: [product(self@[0], rhs), product(self@[1], rhs)] })
    }
}

impl vstd::std_specs::ops::MulSpecImpl<i16> for Vector2 {
    open spec fn obeys_mul_spec() -> bool {
        true
    }

    open spec fn mul_req(self, rhs: i16) -> bool {
        true
    }

    open spec fn mul_spec(self, rhs: i16) -> Vector2 {
        (Vector2 { data: [product(self@[0], Expr::Val(rhs as i128)), product(self@[1], Expr::Val(rhs as i128))] })
    }
}

impl vstd::std_specs::ops::MulSpecImpl<i32> for Vector2 {
    open spec fn obeys_mul_spec() -> bool {
        true
    }

    open spec fn mul_req(self, rhs: i32) -> bool {
        true
    }

    open spec fn mul_spec(self, rhs: i32) -> Vector2 {
        (Vector2 { data: [product(self@[0], Expr::Val(rhs as i128)), product(self@[1], Expr::Val(rhs as i128))] })
    }
}

/// Vectors are equal when every pair of components is equal (by exact value).
impl PartialEq for Vector2 {
    fn eq(&self, other: &Vector2) -> (r: bool) {
        self.data[0] == other.data[0] && self.data[1] == other.data[1]
    }
}

impl vstd::std_specs::cmp::PartialEqSpecImpl for Vector2 {
    open spec fn obeys_eq_spec() -> bool {
        true
    }

    open spec fn eq_spec(&self, other: &Vector2) -> bool {
        same_value(self@[0], other@[0]) && same_value(self@[1], other@[1])
    }
}

/// A vector of 3 expressions, components `x, y, z` at indices `0..3`.
#[derive(Debug)]
pub struct Vector3 {
    pub data: [Expr; 3],
}

impl View for Vector3 {
    type V = Seq<Expr>;

    open spec fn view(&self) -> Seq<Expr> {
        self.data@
    }
}

impl Vector3 {
    /// The vector with the given components.
    fn make(c0: Expr, c1: Expr, c2: Expr) -> (r: Vector3)
        ensures
            r == (Vector3 { data: [c0, c1, c2] }),
            r@ == seq![c0, c1, c2],
    {
        let r = Vector3 { data: [c0, c1, c2] };
        assert(r@ =~= seq![c0, c1, c2]);
        r
    }

    /// The zero vector.
    pub fn new() -> (r: Vector3)
        ensures
            r@ == Seq::new(3, |i: int| Expr::Val(0)),
    {
        let r = Vector3::make(Expr::Val(0), Expr::Val(0), Expr::Val(0));
        assert(r@ =~= Seq::new(3, |i: int| Expr::Val(0)));
        r
    }

    pub fn x(&self) -> (r: &Expr)
        ensures
            *r == self@[0],
    {
        &self.data[0]
    }

    pub fn x_mut(&mut self) -> (r: &mut Expr)
        ensures
            *r == old(self)@[0],
            final(self)@ == old(self)@.update(0, *final(r)),
    {
        &mut self.data[0]
    }

    pub fn y(&self) -> (r: &Expr)
        ensures
            *r == self@[1],
    {
        &self.data[1]
    }

    pub fn y_mut(&mut self) -> (r: &mut Expr)
        ensures
            *r == old(self)@[1],
            final(self)@ == old(self)@.update(1, *final(r)),
    {
        &mut self.data[1]
    }

    pub fn z(&self) -> (r: &Expr)
        ensures
            *r == self@[2],
    {
        &self.data[2]
    }

    pub fn z_mut(&mut self) -> (r: &mut Expr)
        ensures
            *r == old(self)@[2],
            final(self)@ == old(self)@.update(2, *final(r)),
    {
        &mut self.data[2]
    }

    /// The component at `index`, to replace it in place.
    pub fn get_mut(&mut self, index: usize) -> (r: &mut Expr)
        requires
            index < 3,
        ensures
            *r == old(self)@[index as int],
            final(self)@ == old(self)@.update(index as int, *final(r)),
    {
        &mut self.data[index]
    }

    /// Componentwise product.
    pub fn component(self, rhs: Vector3) -> (r: Vector3)
        ensures
            r@ == products(self@, rhs@),
    {
        let r = Vector3::make(self.data[0].clone() * rhs.data[0].clone(), self.data[1].clone() * rhs.data[1].clone(), self.data[2].clone() * rhs.data[2].clone());
        assert(r@ =~= products(self@, rhs@));
        r
    }

    /// The Euclidean norm, `(x ^ 2 + y ^ 2 + ...) ^ (1 / 2)`.
    pub fn norm(&self) -> (r: Expr)
        ensures
            r == norm_of(self@),
    {
        let sum = (self.data[0].clone() ^ Expr::Val(2)) + (self.data[1].clone() ^ Expr::Val(2)) + (self.data[2].clone() ^ Expr::Val(2));
        proof {
            reveal_with_fuel(squares, 4);
        }
        sum ^ Expr::Div(Box::new(Expr::Val(1)), Box::new(Expr::Val(2)))
    }

    /// The vector scaled by the reciprocal of its norm. For a zero vector the reciprocal is
    /// `+inf`: components that are literal zeros stay `0` (the shortcut of `*`), others are
    /// worth not-a-number.
    pub fn normalize(self) -> (r: Vector3)
        ensures
            r@ == scaled(self@, quotient(Expr::Val(1), norm_of(self@))),
    {
        let inv = Expr::Val(1) / self.norm();
        self * inv
    }
}

impl Clone for Vector3 {
    fn clone(&self) -> (r: Vector3)
        ensures
            r@ == self@,
    {
        let r = Vector3::make(self.data[0].clone(), self.data[1].clone(), self.data[2].clone());
        assert(r@ =~= self@);
        r
    }
}

impl Default for Vector3 {
    fn default() -> (r: Vector3)
        ensures
            r@ == Seq::new(3, |i: int| Expr::Val(0)),
    {
        Vector3::new()
    }
}

impl core::ops::Index<usize> for Vector3 {
    type Output = Expr;

    fn index(&self, index: usize) -> (r: &Expr)
        ensures
            *r == self@[index as int],
    {
        &self.data[index]
    }
}

impl vstd::std_specs::core::IndexSpecImpl<usize> for Vector3 {
    open spec fn index_req(&self, index: &usize) -> bool {
        *index < 3
    }
}

/// Componentwise sum.
impl core::ops::Add for Vector3 {
    type Output = Vector3;

    fn add(self, rhs: Vector3) -> (r: Vector3)
        ensures
            r@ == sums(self@, rhs@),
    {
        let r = Vector3::make(self.data[0].clone() + rhs.data[0].clone(), self.data[1].clone() + rhs.data[1].clone(), self.data[2].clone() + rhs.data[2].clone());
        assert(r@ =~= sums(self@, rhs@));
        r
    }
}

/// Componentwise difference.
impl core::ops::Sub for Vector3 {
    type Output = Vector3;

    fn sub(self, rhs: Vector3) -> (r: Vector3)
        ensures
            r@ == differences(self@, rhs@),
    {
        let r = Vector3::make(self.data[0].clone() - rhs.data[0].clone(), self.data[1].clone() - rhs.data[1].clone(), self.data[2].clone() - rhs.data[2].clone());
        assert(r@ =~= differences(self@, rhs@));
        r
    }
}

/// Dot product.
impl core::ops::Mul for Vector3 {
    type Output = Expr;

    fn mul(self, rhs: Vector3) -> (r: Expr)
        ensures
            r == dot(self@, rhs@, 3),
    {
        proof {
            reveal_with_fuel(dot, 4);
        }
        self.data[0].clone() * rhs.data[0].clone() + self.data[1].clone() * rhs.data[1].clone() + self.data[2].clone() * rhs.data[2].clone()
    }
}

/// Scaling by an expression.
impl core::ops::Mul<Expr> for Vector3 {
    type Output = Vector3;

    fn mul(self, rhs: Expr) -> (r: Vector3)
        ensures
            r@ == scaled(self@, rhs),
    {
        let r = Vector3::make(self.data[0].clone() * rhs.clone(), self.data[1].clone() * rhs.clone(), self.data[2].clone() * rhs.clone());
        assert(r@ =~= scaled(self@, rhs));
        r
    }
}

/// Scaling by an integer.
impl core::ops::Mul<i16> for Vector3 {
    type Output = Vector3;

    fn mul(self, rhs: i16) -> (r: Vector3)
        ensures
            r@ == scaled(self@, Expr::Val(rhs as i128)),
    {
        self * Expr::from(rhs)
    }
}

/// Scaling by an integer.
impl core::ops::Mul<i32> for Vector3 {
    type Output = Vector3;

    fn mul(self, rhs: i32) -> (r: Vector3)
        ensures
            r@ == scaled(self@, Expr::Val(rhs as i128)),
    {
        self * Expr::from(rhs)
    }
}

impl From<Expr> for Vector3 {
    fn from(value: Expr) -> Vector3 {
        Vector3::make(value.clone(), value.clone(), value)
    }
}

impl vstd::std_specs::convert::FromSpecImpl<Expr> for Vector3 {
    open spec fn obeys_from_spec() -> bool {
        true
    }

    open spec fn from_spec(value: Expr) -> Vector3 {
        Vector3 { data: [value, value, value] }
    }
}

impl From<i16> for Vector3 {
    fn from(value: i16) -> Vector3 {
        Vector3::make(Expr::from(value), Expr::from(value), Expr::from(value))
    }
}

impl vstd::std_specs::convert::FromSpecImpl<i16> for Vector3 {
    open spec fn obeys_from_spec() -> bool {
        true
    }

    open spec fn from_spec(value: i16) -> Vector3 {
        Vector3 { data: [Expr::Val(value as i128), Expr::Val(value as i128), Expr::Val(value as i128)] }
    }
}

impl From<i32> for Vector3 {
    fn from(value: i32) -> Vector3 {
        Vector3::make(Expr::from(value), Expr::from(value), Expr::from(value))
    }
}

impl vstd::std_specs::convert::FromSpecImpl<i32> for Vector3 {
    open spec fn obeys_from_spec() -> bool {
        true
    }

    open spec fn from_spec(value: i32) -> Vector3 {
        Vector3 { data: [Expr::Val(value as i128), Expr::Val(value as i128), Expr::Val(value as i128)] }
    }
}

impl From<(Expr, Expr, Expr)> for Vector3 {
    fn from(value: (Expr, Expr, Expr)) -> Vector3 {
        Vector3::make(value.0, value.1, value.2)
    }
}

impl vstd::std_specs::convert::FromSpecImpl<(Expr, Expr, Expr)> for Vector3 {
    open spec fn obeys_from_spec() -> bool {
        true
    }

    open spec fn from_spec(value: (Expr, Expr, Expr)) -> Vector3 {
        Vector3 { data: [value.0, value.1, value.2] }
    }
}

impl From<(i16, i16, i16)> for Vector3 {
    fn from(value: (i16, i16, i16)) -> Vector3 {
        Vector3::make(Expr::from(value.0), Expr::from(value.1), Expr::from(value.2))
    }
}

impl vstd::std_specs::convert::FromSpecImpl<(i16, i16, i16)> for Vector3 {
    open spec fn obeys_from_spec() -> bool {
        true
    }

    open spec fn from_spec(value: (i16, i16, i16)) -> Vector3 {
        Vector3 { data: [Expr::Val(value.0 as i128), Expr::Val(value.1 as i128), Expr::Val(value.2 as i128)] }
    }
}

impl From<(i32, i32, i32)> for Vector3 {
    fn from(value: (i32, i32, i32)) -> Vector3 {
        Vector3::make(Expr::from(value.0), Expr::from(value.1), Expr::from(value.2))
    }
}

impl vstd::std_specs::convert::FromSpecImpl<(i32, i32, i32)> for Vector3 {
    open spec fn obeys_from_spec() -> bool {
        true
    }

    open spec fn from_spec(value: (i32, i32, i32)) -> Vector3 {
        Vector3 { data: [Expr::Val(value.0 as i128), Expr::Val(value.1 as i128), Expr::Val(value.2 as i128)] }
    }
}

impl vstd::std_specs::ops::AddSpecImpl for Vector3 {
    open spec fn obeys_add_spec() -> bool {
        true
    }

    open spec fn add_req(self, rhs: Vector3) -> bool {
        true
    }

    open spec fn add_spec(self, rhs: Vector3) -> Vector3 {
        (Vector3 { data: [Expr::Add(Box::new(self@[0]), Box::new(rhs@[0])), Expr::Add(Box::new(self@[1]), Box::new(rhs@[1])), Expr::Add(Box::new(self@[2]), Box::new(rhs@[2]))] })
    }
}

impl vstd::std_specs::ops::SubSpecImpl for Vector3 {
    open spec fn obeys_sub_spec() -> bool {
        true
    }

    open spec fn sub_req(self, rhs: Vector3) -> bool {
        true
    }

    open spec fn sub_spec(self, rhs: Vector3) -> Vector3 {
        (Vector3 { data: [Expr::Sub(Box::new(self@[0]), Box::new(rhs@[0])), Expr::Sub(Box::new(self@[1]), Box::new(rhs@[1])), Expr::Sub(Box::new(self@[2]), Box::new(rhs@[2]))] })
    }
}

impl vstd::std_specs::ops::MulSpecImpl for Vector3 {
    open spec fn obeys_mul_spec() -> bool {
        true
    }

    open spec fn mul_req(self, rhs: Vector3) -> bool {
        true
    }

    open spec fn mul_spec(self, rhs: Vector3) -> Expr {
        dot(self@, rhs@, 3)
    }
}

impl vstd::std_specs::ops::MulSpecImpl<Expr> for Vector3 {
    open spec fn obeys_mul_spec() -> bool {
        true
    }

    open spec fn mul_req(self, rhs: Expr) -> bool {
        true
    }

    open spec fn mul_spec(self, rhs: Expr) -> Vector3 {
        (Vector3 { data: [product(self@[0], rhs), product(self@[1], rhs), product(self@[2], rhs)] })
    }
}

impl vstd::std_specs::ops::MulSpecImpl<i16> for Vector3 {
    open spec fn obeys_mul_spec() -> bool {
        true
    }

    open spec fn mul_req(self, rhs: i16) -> bool {
        true
    }

    open spec fn mul_spec(self, rhs: i16) -> Vector3 {
        (Vector3 { data: [product(self@[0], Expr::Val(rhs as i128)), product(self@[1], Expr::Val(rhs as i128)), product(self@[2], Expr::Val(rhs as i128))] })
    }
}

impl vstd::std_specs::ops::MulSpecImpl<i32> for Vector3 {
    open spec fn obeys_mul_spec() -> bool {
        true
    }

    open spec fn mul_req(self, rhs: i32) -> bool {
        true
    }

    open spec fn mul_spec(self, rhs: i32) -> Vector3 {
        (Vector3 { data: [product(self@[0], Expr::Val(rhs as i128)), product(self@[1], Expr::Val(rhs as i128)), product(self@[2], Expr::Val(rhs as i128))] })
    }
}

/// Vectors are equal when every pair of components is equal (by exact value).
impl PartialEq for Vector3 {
    fn eq(&self, other: &Vector3) -> (r: bool) {
        self.data[0] == other.data[0] && self.data[1] == other.data[1] && self.data[2] == other.data[2]
    }
}

impl vstd::std_specs::cmp::PartialEqSpecImpl for Vector3 {
    open spec fn obeys_eq_spec() -> bool {
        true
    }

    open spec fn eq_spec(&self, other: &Vector3) -> bool {
        same_value(self@[0], other@[0]) && same_value(self@[1], other@[1]) && same_value(self@[2], other@[2])
    }
}

/// A vector of 4 expressions, components `x, y, z, w` at indices `0..4`.
#[derive(Debug)]
pub struct Vector4 {
    pub data: [Expr; 4],
}

impl View for Vector4 {
    type V = Seq<Expr>;

    open spec fn view(&self) -> Seq<Expr> {
        self.data@
    }
}

impl Vector4 {
    /// The vector with the given components.
    fn make(c0: Expr, c1: Expr, c2: Expr, c3: Expr) -> (r: Vector4)
        ensures
            r == (Vector4 { data: [c0, c1, c2, c3] }),
            r@ == seq![c0, c1, c2, c3],
    {
        let r = Vector4 { data: [c0, c1, c2, c3] };
        assert(r@ =~= seq![c0, c1, c2, c3]);
        r
    }

    /// The zero vector.
    pub fn new() -> (r: Vector4)
        ensures
            r@ == Seq::new(4, |i: int| Expr::Val(0)),
    {
        let r = Vector4::make(Expr::Val(0), Expr::Val(0), Expr::Val(0), Expr::Val(0));
        assert(r@ =~= Seq::new(4, |i: int| Expr::Val(0)));
        r
    }

    pub fn x(&self) -> (r: &Expr)
        ensures
            *r == self@[0],
    {
        &self.data[0]
    }

    pub fn x_mut(&mut self) -> (r: &mut Expr)
        ensures
            *r == old(self)@[0],
            final(self)@ == old(self)@.update(0, *final(r)),
    {
        &mut self.data[0]
    }

    pub fn y(&self) -> (r: &Expr)
        ensures
            *r == self@[1],
    {
        &self.data[1]
    }

    pub fn y_mut(&mut self) -> (r: &mut Expr)
        ensures
            *r == old(self)@[1],
            final(self)@ == old(self)@.update(1, *final(r)),
    {
        &mut self.data[1]
    }

    pub fn z(&self) -> (r: &Expr)
        ensures
            *r == self@[2],
    {
        &self.data[2]
    }

    pub fn z_mut(&mut self) -> (r: &mut Expr)
        ensures
            *r == old(self)@[2],
            final(self)@ == old(self)@.update(2, *final(r)),
    {
        &mut self.data[2]
    }

    pub fn w(&self) -> (r: &Expr)
        ensures
            *r == self@[3],
    {
        &self.data[3]
    }

    pub fn w_mut(&mut self) -> (r: &mut Expr)
        ensures
            *r == old(self)@[3],
            final(self)@ == old(self)@.update(3, *final(r)),
    {
        &mut self.data[3]
    }

    /// The component at `index`, to replace it in place.
    pub fn get_mut(&mut self, index: usize) -> (r: &mut Expr)
        requires
            index < 4,
        ensures
            *r == old(self)@[index as int],
            final(self)@ == old(self)@.update(index as int, *final(r)),
    {
        &mut self.data[index]
    }

    /// Componentwise product.
    pub fn component(self, rhs: Vector4) -> (r: Vector4)
        ensures
            r@ == products(self@, rhs@),
    {
        let r = Vector4::make(self.data[0].clone() * rhs.data[0].clone(), self.data[1].clone() * rhs.data[1].clone(), self.data[2].clone() * rhs.data[2].clone(), self.data[3].clone() * rhs.data[3].clone());
        assert(r@ =~= products(self@, rhs@));
        r
    }

    /// The Euclidean norm, `(x ^ 2 + y ^ 2 + ...) ^ (1 / 2)`.
    pub fn norm(&self) -> (r: Expr)
        ensures
            r == norm_of(self@),
    {
        let sum = (self.data[0].clone() ^ Expr::Val(2)) + (self.data[1].clone() ^ Expr::Val(2)) + (self.data[2].clone() ^ Expr::Val(2)) + (self.data[3].clone() ^ Expr::Val(2));
        proof {
            reveal_with_fuel(squares, 5);
        }
        sum ^ Expr::Div(Box::new(Expr::Val(1)), Box::new(Expr::Val(2)))
    }

    /// The vector scaled by the reciprocal of its norm. For a zero vector the reciprocal is
    /// `+inf`: components that are literal zeros stay `0` (the shortcut of `*`), others are
    /// worth not-a-number.
    pub fn normalize(self) -> (r: Vector4)
        ensures
            r@ == scaled(self@, quotient(Expr::Val(1), norm_of(self@))),
    {
        let inv = Expr::Val(1) / self.norm();
        self * inv
    }
}

impl Clone for Vector4 {
    fn clone(&self) -> (r: Vector4)
        ensures
            r@ == self@,
    {
        let r = Vector4::make(self.data[0].clone(), self.data[1].clone(), self.data[2].clone(), self.data[3].clone());
        assert(r@ =~= self@);
        r
    }
}

impl Default for Vector4 {
    fn default() -> (r: Vector4)
        ensures
            r@ == Seq::new(4, |i: int| Expr::Val(0)),
    {
        Vector4::new()
    }
}

impl core::ops::Index<usize> for Vector4 {
    type Output = Expr;

    fn index(&self, index: usize) -> (r: &Expr)
        ensures
            *r == self@[index as int],
    {
        &self.data[index]
    }
}

impl vstd::std_specs::core::IndexSpecImpl<usize> for Vector4 {
    open spec fn index_req(&self, index: &usize) -> bool {
        *index < 4
    }
}

/// Componentwise sum.
impl core::ops::Add for Vector4 {
    type Output = Vector4;

    fn add(self, rhs: Vector4) -> (r: Vector4)
        ensures
            r@ == sums(self@, rhs@),
    {
        let r = Vector4::make(self.data[0].clone() + rhs.data[0].clone(), self.data[1].clone() + rhs.data[1].clone(), self.data[2].clone() + rhs.data[2].clone(), self.data[3].clone() + rhs.data[3].clone());
        assert(r@ =~= sums(self@, rhs@));
        r
    }
}

/// Componentwise difference.
impl core::ops::Sub for Vector4 {
    type Output = Vector4;

    fn sub(self, rhs: Vector4) -> (r: Vector4)
        ensures
            r@ == differences(self@, rhs@),
    {
        let r = Vector4::make(self.data[0].clone() - rhs.data[0].clone(), self.data[1].clone() - rhs.data[1].clone(), self.data[2].clone() - rhs.data[2].clone(), self.data[3].clone() - rhs.data[3].clone());
        assert(r@ =~= differences(self@, rhs@));
        r
    }
}

/// Dot product.
impl core::ops::Mul for Vector4 {
    type Output = Expr;

    fn mul(self, rhs: Vector4) -> (r: Expr)
        ensures
            r == dot(self@, rhs@, 4),
    {
        proof {
            reveal_with_fuel(dot, 5);
        }
        self.data[0].clone() * rhs.data[0].clone() + self.data[1].clone() * rhs.data[1].clone() + self.data[2].clone() * rhs.data[2].clone() + self.data[3].clone() * rhs.data[3].clone()
    }
}

/// Scaling by an expression.
impl core::ops::Mul<Expr> for Vector4 {
    type Output = Vector4;

    fn mul(self, rhs: Expr) -> (r: Vector4)
        ensures
            r@ == scaled(self@, rhs),
    {
        let r = Vector4::make(self.data[0].clone() * rhs.clone(), self.data[1].clone() * rhs.clone(), self.data[2].clone() * rhs.clone(), self.data[3].clone() * rhs.clone());
        assert(r@ =~= scaled(self@, rhs));
        r
    }
}

/// Scaling by an integer.
impl core::ops::Mul<i16> for Vector4 {
    type Output = Vector4;

    fn mul(self, rhs: i16) -> (r: Vector4)
        ensures
            r@ == scaled(self@, Expr::Val(rhs as i128)),
    {
        self * Expr::from(rhs)
    }
}

/// Scaling by an integer.
impl core::ops::Mul<i32> for Vector4 {
    type Output = Vector4;

    fn mul(self, rhs: i32) -> (r: Vector4)
        ensures
            r@ == scaled(self@, Expr::Val(rhs as i128)),
    {
        self * Expr::from(rhs)
    }
}

impl From<Expr> for Vector4 {
    fn from(value: Expr) -> Vector4 {
        Vector4::make(value.clone(), value.clone(), value.clone(), value)
    }
}

impl vstd::std_specs::convert::FromSpecImpl<Expr> for Vector4 {
    open spec fn obeys_from_spec() -> bool {
        true
    }

    open spec fn from_spec(value: Expr) -> Vector4 {
        Vector4 { data: [value, value, value, value] }
    }
}

impl From<i16> for Vector4 {
    fn from(value: i16) -> Vector4 {
        Vector4::make(Expr::from(value), Expr::from(value), Expr::from(value), Expr::from(value))
    }
}

impl vstd::std_specs::convert::FromSpecImpl<i16> for Vector4 {
    open spec fn obeys_from_spec() -> bool {
        true
    }

    open spec fn from_spec(value: i16) -> Vector4 {
        Vector4 { data: [Expr::Val(value as i128), Expr::Val(value as i128), Expr::Val(value as i128), Expr::Val(value as i128)] }
    }
}

impl From<i32> for Vector4 {
    fn from(value: i32) -> Vector4 {
        Vector4::make(Expr::from(value), Expr::from(value), Expr::from(value), Expr::from(value))
    }
}

impl vstd::std_specs::convert::FromSpecImpl<i32> for Vector4 {
    open spec fn obeys_from_spec() -> bool {
        true
    }

    open spec fn from_spec(value: i32) -> Vector4 {
        Vector4 { data: [Expr::Val(value as i128), Expr::Val(value as i128), Expr::Val(value as i128), Expr::Val(value as i128)] }
    }
}

impl From<(Expr, Expr, Expr, Expr)> for Vector4 {
    fn from(value: (Expr, Expr, Expr, Expr)) -> Vector4 {
        Vector4::make(value.0, value.1, value.2, value.3)
    }
}

impl vstd::std_specs::convert::FromSpecImpl<(Expr, Expr, Expr, Expr)> for Vector4 {
    open spec fn obeys_from_spec() -> bool {
        true
    }

    open spec fn from_spec(value: (Expr, Expr, Expr, Expr)) -> Vector4 {
        Vector4 { data: [value.0, value.1, value.2, value.3] }
    }
}

impl From<(i16, i16, i16, i16)> for Vector4 {
    fn from(value: (i16, i16, i16, i16)) -> Vector4 {
        Vector4::make(Expr::from(value.0), Expr::from(value.1), Expr::from(value.2), Expr::from(value.3))
    }
}

impl vstd::std_specs::convert::FromSpecImpl<(i16, i16, i16, i16)> for Vector4 {
    open spec fn obeys_from_spec() -> bool {
        true
    }

    open spec fn from_spec(value: (i16, i16, i16, i16)) -> Vector4 {
        Vector4 { data: [Expr::Val(value.0 as i128), Expr::Val(value.1 as i128), Expr::Val(value.2 as i128), Expr::Val(value.3 as i128)] }
    }
}

impl From<(i32, i32, i32, i32)> for Vector4 {
    fn from(value: (i32, i32, i32, i32)) -> Vector4 {
        Vector4::make(Expr::from(value.0), Expr::from(value.1), Expr::from(value.2), Expr::from(value.3))
    }
}

impl vstd::std_specs::convert::FromSpecImpl<(i32, i32, i32, i32)> for Vector4 {
    open spec fn obeys_from_spec() -> bool {
        true
    }

    open spec fn from_spec(value: (i32, i32, i32, i32)) -> Vector4 {
        Vector4 { data: [Expr::Val(value.0 as i128), Expr::Val(value.1 as i128), Expr::Val(value.2 as i128), Expr::Val(value.3 as i128)] }
    }
}

impl vstd::std_specs::ops::AddSpecImpl for Vector4 {
    open spec fn obeys_add_spec() -> bool {
        true
    }

    open spec fn add_req(self, rhs: Vector4) -> bool {
        true
    }

    open spec fn add_spec(self, rhs: Vector4) -> Vector4 {
        (Vector4 { data: [Expr::Add(Box::new(self@[0]), Box::new(rhs@[0])), Expr::Add(Box::new(self@[1]), Box::new(rhs@[1])), Expr::Add(Box::new(self@[2]), Box::new(rhs@[2])), Expr::Add(Box::new(self@[3]), Box::new(rhs@[3]))] })
    }
}

impl vstd::std_specs::ops::SubSpecImpl for Vector4 {
    open spec fn obeys_sub_spec() -> bool {
        true
    }

    open spec fn sub_req(self, rhs: Vector4) -> bool {
        true
    }

    open spec fn sub_spec(self, rhs: Vector4) -> Vector4 {
        (Vector4 { data: [Expr::Sub(Box::new(self@[0]), Box::new(rhs@[0])), Expr::Sub(Box::new(self@[1]), Box::new(rhs@[1])), Expr::Sub(Box::new(self@[2]), Box::new(rhs@[2])), Expr::Sub(Box::new(self@[3]), Box::new(rhs@[3]))] })
    }
}

impl vstd::std_specs::ops::MulSpecImpl for Vector4 {
    open spec fn obeys_mul_spec() -> bool {
        true
    }

    open spec fn mul_req(self, rhs: Vector4) -> bool {
        true
    }

    open spec fn mul_spec(self, rhs: Vector4) -> Expr {
        dot(self@, rhs@, 4)
    }
}

impl vstd::std_specs::ops::MulSpecImpl<Expr> for Vector4 {
    open spec fn obeys_mul_spec() -> bool {
        true
    }

    open spec fn mul_req(self, rhs: Expr) -> bool {
        true
    }

    open spec fn mul_spec(self, rhs: Expr) -> Vector4 {
        (Vector4 { data: [product(self@[0], rhs), product(self@[1], rhs), product(self@[2], rhs), product(self@[3], rhs)] })
    }
}

impl vstd::std_specs::ops::MulSpecImpl<i16> for Vector4 {
    open spec fn obeys_mul_spec() -> bool {
        true
    }

    open spec fn mul_req(self, rhs: i16) -> bool {
        true
    }

    open spec fn mul_spec(self, rhs: i16) -> Vector4 {
        (Vector4 { data: [product(self@[0], Expr::Val(rhs as i128)), product(self@[1], Expr::Val(rhs as i128)), product(self@[2], Expr::Val(rhs as i128)), product(self@[3], Expr::Val(rhs as i128))] })
    }
}

impl vstd::std_specs::ops::MulSpecImpl<i32> for Vector4 {
    open spec fn obeys_mul_spec() -> bool {
        true
    }

    open spec fn mul_req(self, rhs: i32) -> bool {
        true
    }

    open spec fn mul_spec(self, rhs: i32) -> Vector4 {
        (Vector4 { data: [product(self@[0], Expr::Val(rhs as i128)), product(self@[1], Expr::Val(rhs as i128)), product(self@[2], Expr::Val(rhs as i128)), product(self@[3], Expr::Val(rhs as i128))] })
    }
}

/// Vectors are equal when every pair of components is equal (by exact value).
impl PartialEq for Vector4 {
    fn eq(&self, other: &Vector4) -> (r: bool) {
        self.data[0] == other.data[0] && self.data[1] == other.data[1] && self.data[2] == other.data[2] && self.data[3] == other.data[3]
    }
}

impl vstd::std_specs::cmp::PartialEqSpecImpl for Vector4 {
    open spec fn obeys_eq_spec() -> bool {
        true
    }

    open spec fn eq_spec(&self, other: &Vector4) -> bool {
        same_value(self@[0], other@[0]) && same_value(self@[1], other@[1]) && same_value(self@[2], other@[2]) && same_value(self@[3], other@[3])
    }
}

} // verus!
