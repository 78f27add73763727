//! Arithmetic between expressions and plain integers: the integer operand becomes a `Val`
//! leaf and the expression operator applies, simplifications included.
use vstd::prelude::*;
use crate::expression::{power, product, quotient, Expr};
use crate::value::{evaluation, Extended, NumericError, Ratio};

verus! {

impl core::ops::Add<i8> for Expr {
    type Output = Expr;

    fn add(self, rhs: i8) -> Expr {
        self + Expr::from(rhs)
    }
}

impl vstd::std_specs::ops::AddSpecImpl<i8> for Expr {
    open spec fn obeys_add_spec() -> bool {
        true
    }

    open spec fn add_req(self, rhs: i8) -> bool {
        true
    }

    open spec fn add_spec(self, rhs: i8) -> Expr {
        Expr::Add(Box::new(self), Box::new(Expr::Val(rhs as i128)))
    }
}

impl core::ops::Add<i16> for Expr {
    type Output = Expr;

    fn add(self, rhs: i16) -> Expr {
        self + Expr::from(rhs)
    }
}

impl vstd::std_specs::ops::AddSpecImpl<i16> for Expr {
    open spec fn obeys_add_spec() -> bool {
        true
    }

    open spec fn add_req(self, rhs: i16) -> bool {
        true
    }

    open spec fn add_spec(self, rhs: i16) -> Expr {
        Expr::Add(Box::new(self), Box::new(Expr::Val(rhs as i128)))
    }
}

impl core::ops::Add<i32> for Expr {
    type Output = Expr;

    fn add(self, rhs: i32) -> Expr {
        self + Expr::from(rhs)
    }
}

impl vstd::std_specs::ops::AddSpecImpl<i32> for Expr {
    open spec fn obeys_add_spec() -> bool {
        true
    }

    open spec fn add_req(self, rhs: i32) -> bool {
        true
    }

    open spec fn add_spec(self, rhs: i32) -> Expr {
        Expr::Add(Box::new(self), Box::new(Expr::Val(rhs as i128)))
    }
}

impl core::ops::Add<i64> for Expr {
    type Output = Expr;

    fn add(self, rhs: i64) -> Expr {
        self + Expr::from(rhs)
    }
}

impl vstd::std_specs::ops::AddSpecImpl<i64> for Expr {
    open spec fn obeys_add_spec() -> bool {
        true
    }

    open spec fn add_req(self, rhs: i64) -> bool {
        true
    }

    open spec fn add_spec(self, rhs: i64) -> Expr {
        Expr::Add(Box::new(self), Box::new(Expr::Val(rhs as i128)))
    }
}

impl core::ops::Add<i128> for Expr {
    type Output = Expr;

    fn add(self, rhs: i128) -> Expr {
        self + Expr::from(rhs)
    }
}

impl vstd::std_specs::ops::AddSpecImpl<i128> for Expr {
    open spec fn obeys_add_spec() -> bool {
        true
    }

    open spec fn add_req(self, rhs: i128) -> bool {
        true
    }

    open spec fn add_spec(self, rhs: i128) -> Expr {
        Expr::Add(Box::new(self), Box::new(Expr::Val(rhs as i128)))
    }
}

impl core::ops::Add<u8> for Expr {
    type Output = Expr;

    fn add(self, rhs: u8) -> Expr {
        self + Expr::from(rhs)
    }
}

impl vstd::std_specs::ops::AddSpecImpl<u8> for Expr {
    open spec fn obeys_add_spec() -> bool {
        true
    }

    open spec fn add_req(self, rhs: u8) -> bool {
        true
    }

    open spec fn add_spec(self, rhs: u8) -> Expr {
        Expr::Add(Box::new(self), Box::new(Expr::Val(rhs as i128)))
    }
}

impl core::ops::Add<u16> for Expr {
    type Output = Expr;

    fn add(self, rhs: u16) -> Expr {
        self + Expr::from(rhs)
    }
}

impl vstd::std_specs::ops::AddSpecImpl<u16> for Expr {
    open spec fn obeys_add_spec() -> bool {
        true
    }

    open spec fn add_req(self, rhs: u16) -> bool {
        true
    }

    open spec fn add_spec(self, rhs: u16) -> Expr {
        Expr::Add(Box::new(self), Box::new(Expr::Val(rhs as i128)))
    }
}

impl core::ops::Add<u32> for Expr {
    type Output = Expr;

    fn add(self, rhs: u32) -> Expr {
        self + Expr::from(rhs)
    }
}

impl vstd::std_specs::ops::AddSpecImpl<u32> for Expr {
    open spec fn obeys_add_spec() -> bool {
        true
    }

    open spec fn add_req(self, rhs: u32) -> bool {
        true
    }

    open spec fn add_spec(self, rhs: u32) -> Expr {
        Expr::Add(Box::new(self), Box::new(Expr::Val(rhs as i128)))
    }
}

impl core::ops::Add<u64> for Expr {
    type Output = Expr;

    fn add(self, rhs: u64) -> Expr {
        self + Expr::from(rhs)
    }
}

impl vstd::std_specs::ops::AddSpecImpl<u64> for Expr {
    open spec fn obeys_add_spec() -> bool {
        true
    }

    open spec fn add_req(self, rhs: u64) -> bool {
        true
    }

    open spec fn add_spec(self, rhs: u64) -> Expr {
        Expr::Add(Box::new(self), Box::new(Expr::Val(rhs as i128)))
    }
}

impl core::ops::Add<isize> for Expr {
    type Output = Expr;

    fn add(self, rhs: isize) -> Expr {
        self + Expr::from(rhs)
    }
}

impl vstd::std_specs::ops::AddSpecImpl<isize> for Expr {
    open spec fn obeys_add_spec() -> bool {
        true
    }

    open spec fn add_req(self, rhs: isize) -> bool {
        true
    }

    open spec fn add_spec(self, rhs: isize) -> Expr {
        Expr::Add(Box::new(self), Box::new(Expr::Val(rhs as i128)))
    }
}

impl core::ops::Add<usize> for Expr {
    type Output = Expr;

    fn add(self, rhs: usize) -> Expr {
        self + Expr::from(rhs)
    }
}

impl vstd::std_specs::ops::AddSpecImpl<usize> for Expr {
    open spec fn obeys_add_spec() -> bool {
        true
    }

    open spec fn add_req(self, rhs: usize) -> bool {
        true
    }

    open spec fn add_spec(self, rhs: usize) -> Expr {
        Expr::Add(Box::new(self), Box::new(Expr::Val(rhs as i128)))
    }
}

impl core::ops::Add<Expr> for i8 {
    type Output = Expr;

    fn add(self, rhs: Expr) -> Expr {
        Expr::from(self) + rhs
    }
}

impl vstd::std_specs::ops::AddSpecImpl<Expr> for i8 {
    open spec fn obeys_add_spec() -> bool {
        true
    }

    open spec fn add_req(self, rhs: Expr) -> bool {
        true
    }

    open spec fn add_spec(self, rhs: Expr) -> Expr {
        Expr::Add(Box::new(Expr::Val(self as i128)), Box::new(rhs))
    }
}

impl core::ops::Add<Expr> for i16 {
    type Output = Expr;

    fn add(self, rhs: Expr) -> Expr {
        Expr::from(self) + rhs
    }
}

impl vstd::std_specs::ops::AddSpecImpl<Expr> for i16 {
    open spec fn obeys_add_spec() -> bool {
        true
    }

    open spec fn add_req(self, rhs: Expr) -> bool {
        true
    }

    open spec fn add_spec(self, rhs: Expr) -> Expr {
        Expr::Add(Box::new(Expr::Val(self as i128)), Box::new(rhs))
    }
}

impl core::ops::Add<Expr> for i32 {
    type Output = Expr;

    fn add(self, rhs: Expr) -> Expr {
        Expr::from(self) + rhs
    }
}

impl vstd::std_specs::ops::AddSpecImpl<Expr> for i32 {
    open spec fn obeys_add_spec() -> bool {
        true
    }

    open spec fn add_req(self, rhs: Expr) -> bool {
        true
    }

    open spec fn add_spec(self, rhs: Expr) -> Expr {
        Expr::Add(Box::new(Expr::Val(self as i128)), Box::new(rhs))
    }
}

impl core::ops::Add<Expr> for i64 {
    type Output = Expr;

    fn add(self, rhs: Expr) -> Expr {
        Expr::from(self) + rhs
    }
}

impl vstd::std_specs::ops::AddSpecImpl<Expr> for i64 {
    open spec fn obeys_add_spec() -> bool {
        true
    }

    open spec fn add_req(self, rhs: Expr) -> bool {
        true
    }

    open spec fn add_spec(self, rhs: Expr) -> Expr {
        Expr::Add(Box::new(Expr::Val(self as i128)), Box::new(rhs))
    }
}

impl core::ops::Add<Expr> for i128 {
    type Output = Expr;

    fn add(self, rhs: Expr) -> Expr {
        Expr::from(self) + rhs
    }
}

impl vstd::std_specs::ops::AddSpecImpl<Expr> for i128 {
    open spec fn obeys_add_spec() -> bool {
        true
    }

    open spec fn add_req(self, rhs: Expr) -> bool {
        true
    }

    open spec fn add_spec(self, rhs: Expr) -> Expr {
        Expr::Add(Box::new(Expr::Val(self as i128)), Box::new(rhs))
    }
}

impl core::ops::Add<Expr> for u8 {
    type Output = Expr;

    fn add(self, rhs: Expr) -> Expr {
        Expr::from(self) + rhs
    }
}

impl vstd::std_specs::ops::AddSpecImpl<Expr> for u8 {
    open spec fn obeys_add_spec() -> bool {
        true
    }

    open spec fn add_req(self, rhs: Expr) -> bool {
        true
    }

    open spec fn add_spec(self, rhs: Expr) -> Expr {
        Expr::Add(Box::new(Expr::Val(self as i128)), Box::new(rhs))
    }
}

impl core::ops::Add<Expr> for u16 {
    type Output = Expr;

    fn add(self, rhs: Expr) -> Expr {
        Expr::from(self) + rhs
    }
}

impl vstd::std_specs::ops::AddSpecImpl<Expr> for u16 {
    open spec fn obeys_add_spec() -> bool {
        true
    }

    open spec fn add_req(self, rhs: Expr) -> bool {
        true
    }

    open spec fn add_spec(self, rhs: Expr) -> Expr {
        Expr::Add(Box::new(Expr::Val(self as i128)), Box::new(rhs))
    }
}

impl core::ops::Add<Expr> for u32 {
    type Output = Expr;

    fn add(self, rhs: Expr) -> Expr {
        Expr::from(self) + rhs
    }
}

impl vstd::std_specs::ops::AddSpecImpl<Expr> for u32 {
    open spec fn obeys_add_spec() -> bool {
        true
    }

    open spec fn add_req(self, rhs: Expr) -> bool {
        true
    }

    open spec fn add_spec(self, rhs: Expr) -> Expr {
        Expr::Add(Box::new(Expr::Val(self as i128)), Box::new(rhs))
    }
}

impl core::ops::Add<Expr> for u64 {
    type Output = Expr;

    fn add(self, rhs: Expr) -> Expr {
        Expr::from(self) + rhs
    }
}

impl vstd::std_specs::ops::AddSpecImpl<Expr> for u64 {
    open spec fn obeys_add_spec() -> bool {
        true
    }

    open spec fn add_req(self, rhs: Expr) -> bool {
        true
    }

    open spec fn add_spec(self, rhs: Expr) -> Expr {
        Expr::Add(Box::new(Expr::Val(self as i128)), Box::new(rhs))
    }
}

impl core::ops::Sub<i8> for Expr {
    type Output = Expr;

    fn sub(self, rhs: i8) -> Expr {
        self - Expr::from(rhs)
    }
}

impl vstd::std_specs::ops::SubSpecImpl<i8> for Expr {
    open spec fn obeys_sub_spec() -> bool {
        true
    }

    open spec fn sub_req(self, rhs: i8) -> bool {
        true
    }

    open spec fn sub_spec(self, rhs: i8) -> Expr {
        Expr::Sub(Box::new(self), Box::new(Expr::Val(rhs as i128)))
    }
}

impl core::ops::Sub<i16> for Expr {
    type Output = Expr;

    fn sub(self, rhs: i16) -> Expr {
        self - Expr::from(rhs)
    }
}

impl vstd::std_specs::ops::SubSpecImpl<i16> for Expr {
    open spec fn obeys_sub_spec() -> bool {
        true
    }

    open spec fn sub_req(self, rhs: i16) -> bool {
        true
    }

    open spec fn sub_spec(self, rhs: i16) -> Expr {
        Expr::Sub(Box::new(self), Box::new(Expr::Val(rhs as i128)))
    }
}

impl core::ops::Sub<i32> for Expr {
    type Output = Expr;

    fn sub(self, rhs: i32) -> Expr {
        self - Expr::from(rhs)
    }
}

impl vstd::std_specs::ops::SubSpecImpl<i32> for Expr {
    open spec fn obeys_sub_spec() -> bool {
        true
    }

    open spec fn sub_req(self, rhs: i32) -> bool {
        true
    }

    open spec fn sub_spec(self, rhs: i32) -> Expr {
        Expr::Sub(Box::new(self), Box::new(Expr::Val(rhs as i128)))
    }
}

impl core::ops::Sub<i64> for Expr {
    type Output = Expr;

    fn sub(self, rhs: i64) -> Expr {
        self - Expr::from(rhs)
    }
}

impl vstd::std_specs::ops::SubSpecImpl<i64> for Expr {
    open spec fn obeys_sub_spec() -> bool {
        true
    }

    open spec fn sub_req(self, rhs: i64) -> bool {
        true
    }

    open spec fn sub_spec(self, rhs: i64) -> Expr {
        Expr::Sub(Box::new(self), Box::new(Expr::Val(rhs as i128)))
    }
}

impl core::ops::Sub<i128> for Expr {
    type Output = Expr;

    fn sub(self, rhs: i128) -> Expr {
        self - Expr::from(rhs)
    }
}

impl vstd::std_specs::ops::SubSpecImpl<i128> for Expr {
    open spec fn obeys_sub_spec() -> bool {
        true
    }

    open spec fn sub_req(self, rhs: i128) -> bool {
        true
    }

    open spec fn sub_spec(self, rhs: i128) -> Expr {
        Expr::Sub(Box::new(self), Box::new(Expr::Val(rhs as i128)))
    }
}

impl core::ops::Sub<u8> for Expr {
    type Output = Expr;

    fn sub(self, rhs: u8) -> Expr {
        self - Expr::from(rhs)
    }
}

impl vstd::std_specs::ops::SubSpecImpl<u8> for Expr {
    open spec fn obeys_sub_spec() -> bool {
        true
    }

    open spec fn sub_req(self, rhs: u8) -> bool {
        true
    }

    open spec fn sub_spec(self, rhs: u8) -> Expr {
        Expr::Sub(Box::new(self), Box::new(Expr::Val(rhs as i128)))
    }
}

impl core::ops::Sub<u16> for Expr {
    type Output = Expr;

    fn sub(self, rhs: u16) -> Expr {
        self - Expr::from(rhs)
    }
}

impl vstd::std_specs::ops::SubSpecImpl<u16> for Expr {
    open spec fn obeys_sub_spec() -> bool {
        true
    }

    open spec fn sub_req(self, rhs: u16) -> bool {
        true
    }

    open spec fn sub_spec(self, rhs: u16) -> Expr {
        Expr::Sub(Box::new(self), Box::new(Expr::Val(rhs as i128)))
    }
}

impl core::ops::Sub<u32> for Expr {
    type Output = Expr;

    fn sub(self, rhs: u32) -> Expr {
        self - Expr::from(rhs)
    }
}

impl vstd::std_specs::ops::SubSpecImpl<u32> for Expr {
    open spec fn obeys_sub_spec() -> bool {
        true
    }

    open spec fn sub_req(self, rhs: u32) -> bool {
        true
    }

    open spec fn sub_spec(self, rhs: u32) -> Expr {
        Expr::Sub(Box::new(self), Box::new(Expr::Val(rhs as i128)))
    }
}

impl core::ops::Sub<u64> for Expr {
    type Output = Expr;

    fn sub(self, rhs: u64) -> Expr {
        self - Expr::from(rhs)
    }
}

impl vstd::std_specs::ops::SubSpecImpl<u64> for Expr {
    open spec fn obeys_sub_spec() -> bool {
        true
    }

    open spec fn sub_req(self, rhs: u64) -> bool {
        true
    }

    open spec fn sub_spec(self, rhs: u64) -> Expr {
        Expr::Sub(Box::new(self), Box::new(Expr::Val(rhs as i128)))
    }
}

impl core::ops::Sub<isize> for Expr {
    type Output = Expr;

    fn sub(self, rhs: isize) -> Expr {
        self - Expr::from(rhs)
    }
}

impl vstd::std_specs::ops::SubSpecImpl<isize> for Expr {
    open spec fn obeys_sub_spec() -> bool {
        true
    }

    open spec fn sub_req(self, rhs: isize) -> bool {
        true
    }

    open spec fn sub_spec(self, rhs: isize) -> Expr {
        Expr::Sub(Box::new(self), Box::new(Expr::Val(rhs as i128)))
    }
}

impl core::ops::Sub<usize> for Expr {
    type Output = Expr;

    fn sub(self, rhs: usize) -> Expr {
        self - Expr::from(rhs)
    }
}

impl vstd::std_specs::ops::SubSpecImpl<usize> for Expr {
    open spec fn obeys_sub_spec() -> bool {
        true
    }

    open spec fn sub_req(self, rhs: usize) -> bool {
        true
    }

    open spec fn sub_spec(self, rhs: usize) -> Expr {
        Expr::Sub(Box::new(self), Box::new(Expr::Val(rhs as i128)))
    }
}

impl core::ops::Sub<Expr> for i8 {
    type Output = Expr;

    fn sub(self, rhs: Expr) -> Expr {
        Expr::from(self) - rhs
    }
}

impl vstd::std_specs::ops::SubSpecImpl<Expr> for i8 {
    open spec fn obeys_sub_spec() -> bool {
        true
    }

    open spec fn sub_req(self, rhs: Expr) -> bool {
        true
    }

    open spec fn sub_spec(self, rhs: Expr) -> Expr {
        Expr::Sub(Box::new(Expr::Val(self as i128)), Box::new(rhs))
    }
}

impl core::ops::Sub<Expr> for i16 {
    type Output = Expr;

    fn sub(self, rhs: Expr) -> Expr {
        Expr::from(self) - rhs
    }
}

impl vstd::std_specs::ops::SubSpecImpl<Expr> for i16 {
    open spec fn obeys_sub_spec() -> bool {
        true
    }

    open spec fn sub_req(self, rhs: Expr) -> bool {
        true
    }

    open spec fn sub_spec(self, rhs: Expr) -> Expr {
        Expr::Sub(Box::new(Expr::Val(self as i128)), Box::new(rhs))
    }
}

impl core::ops::Sub<Expr> for i32 {
    type Output = Expr;

    fn sub(self, rhs: Expr) -> Expr {
        Expr::from(self) - rhs
    }
}

impl vstd::std_specs::ops::SubSpecImpl<Expr> for i32 {
    open spec fn obeys_sub_spec() -> bool {
        true
    }

    open spec fn sub_req(self, rhs: Expr) -> bool {
        true
    }

    open spec fn sub_spec(self, rhs: Expr) -> Expr {
        Expr::Sub(Box::new(Expr::Val(self as i128)), Box::new(rhs))
    }
}

impl core::ops::Sub<Expr> for i64 {
    type Output = Expr;

    fn sub(self, rhs: Expr) -> Expr {
        Expr::from(self) - rhs
    }
}

impl vstd::std_specs::ops::SubSpecImpl<Expr> for i64 {
    open spec fn obeys_sub_spec() -> bool {
        true
    }

    open spec fn sub_req(self, rhs: Expr) -> bool {
        true
    }

    open spec fn sub_spec(self, rhs: Expr) -> Expr {
        Expr::Sub(Box::new(Expr::Val(self as i128)), Box::new(rhs))
    }
}

impl core::ops::Sub<Expr> for i128 {
    type Output = Expr;

    fn sub(self, rhs: Expr) -> Expr {
        Expr::from(self) - rhs
    }
}

impl vstd::std_specs::ops::SubSpecImpl<Expr> for i128 {
    open spec fn obeys_sub_spec() -> bool {
        true
    }

    open spec fn sub_req(self, rhs: Expr) -> bool {
        true
    }

    open spec fn sub_spec(self, rhs: Expr) -> Expr {
        Expr::Sub(Box::new(Expr::Val(self as i128)), Box::new(rhs))
    }
}

impl core::ops::Sub<Expr> for u8 {
    type Output = Expr;

    fn sub(self, rhs: Expr) -> Expr {
        Expr::from(self) - rhs
    }
}

impl vstd::std_specs::ops::SubSpecImpl<Expr> for u8 {
    open spec fn obeys_sub_spec() -> bool {
        true
    }

    open spec fn sub_req(self, rhs: Expr) -> bool {
        true
    }

    open spec fn sub_spec(self, rhs: Expr) -> Expr {
        Expr::Sub(Box::new(Expr::Val(self as i128)), Box::new(rhs))
    }
}

impl core::ops::Sub<Expr> for u16 {
    type Output = Expr;

    fn sub(self, rhs: Expr) -> Expr {
        Expr::from(self) - rhs
    }
}

impl vstd::std_specs::ops::SubSpecImpl<Expr> for u16 {
    open spec fn obeys_sub_spec() -> bool {
        true
    }

    open spec fn sub_req(self, rhs: Expr) -> bool {
        true
    }

    open spec fn sub_spec(self, rhs: Expr) -> Expr {
        Expr::Sub(Box::new(Expr::Val(self as i128)), Box::new(rhs))
    }
}

impl core::ops::Sub<Expr> for u32 {
    type Output = Expr;

    fn sub(self, rhs: Expr) -> Expr {
        Expr::from(self) - rhs
    }
}

impl vstd::std_specs::ops::SubSpecImpl<Expr> for u32 {
    open spec fn obeys_sub_spec() -> bool {
        true
    }

    open spec fn sub_req(self, rhs: Expr) -> bool {
        true
    }

    open spec fn sub_spec(self, rhs: Expr) -> Expr {
        Expr::Sub(Box::new(Expr::Val(self as i128)), Box::new(rhs))
    }
}

impl core::ops::Sub<Expr> for u64 {
    type Output = Expr;

    fn sub(self, rhs: Expr) -> Expr {
        Expr::from(self) - rhs
    }
}

impl vstd::std_specs::ops::SubSpecImpl<Expr> for u64 {
    open spec fn obeys_sub_spec() -> bool {
        true
    }

    open spec fn sub_req(self, rhs: Expr) -> bool {
        true
    }

    open spec fn sub_spec(self, rhs: Expr) -> Expr {
        Expr::Sub(Box::new(Expr::Val(self as i128)), Box::new(rhs))
    }
}

impl core::ops::Mul<i8> for Expr {
    type Output = Expr;

    fn mul(self, rhs: i8) -> Expr {
        self * Expr::from(rhs)
    }
}

impl vstd::std_specs::ops::MulSpecImpl<i8> for Expr {
    open spec fn obeys_mul_spec() -> bool {
        true
    }

    open spec fn mul_req(self, rhs: i8) -> bool {
        true
    }

    open spec fn mul_spec(self, rhs: i8) -> Expr {
        product(self, Expr::Val(rhs as i128))
    }
}

impl core::ops::Mul<i16> for Expr {
    type Output = Expr;

    fn mul(self, rhs: i16) -> Expr {
        self * Expr::from(rhs)
    }
}

impl vstd::std_specs::ops::MulSpecImpl<i16> for Expr {
    open spec fn obeys_mul_spec() -> bool {
        true
    }

    open spec fn mul_req(self, rhs: i16) -> bool {
        true
    }

    open spec fn mul_spec(self, rhs: i16) -> Expr {
        product(self, Expr::Val(rhs as i128))
    }
}

impl core::ops::Mul<i32> for Expr {
    type Output = Expr;

    fn mul(self, rhs: i32) -> Expr {
        self * Expr::from(rhs)
    }
}

impl vstd::std_specs::ops::MulSpecImpl<i32> for Expr {
    open spec fn obeys_mul_spec() -> bool {
        true
    }

    open spec fn mul_req(self, rhs: i32) -> bool {
        true
    }

    open spec fn mul_spec(self, rhs: i32) -> Expr {
        product(self, Expr::Val(rhs as i128))
    }
}

impl core::ops::Mul<i64> for Expr {
    type Output = Expr;

    fn mul(self, rhs: i64) -> Expr {
        self * Expr::from(rhs)
    }
}

impl vstd::std_specs::ops::MulSpecImpl<i64> for Expr {
    open spec fn obeys_mul_spec() -> bool {
        true
    }

    open spec fn mul_req(self, rhs: i64) -> bool {
        true
    }

    open spec fn mul_spec(self, rhs: i64) -> Expr {
        product(self, Expr::Val(rhs as i128))
    }
}

impl core::ops::Mul<i128> for Expr {
    type Output = Expr;

    fn mul(self, rhs: i128) -> Expr {
        self * Expr::from(rhs)
    }
}

impl vstd::std_specs::ops::MulSpecImpl<i128> for Expr {
    open spec fn obeys_mul_spec() -> bool {
        true
    }

    open spec fn mul_req(self, rhs: i128) -> bool {
        true
    }

    open spec fn mul_spec(self, rhs: i128) -> Expr {
        product(self, Expr::Val(rhs as i128))
    }
}

impl core::ops::Mul<u8> for Expr {
    type Output = Expr;

    fn mul(self, rhs: u8) -> Expr {
        self * Expr::from(rhs)
    }
}

impl vstd::std_specs::ops::MulSpecImpl<u8> for Expr {
    open spec fn obeys_mul_spec() -> bool {
        true
    }

    open spec fn mul_req(self, rhs: u8) -> bool {
        true
    }

    open spec fn mul_spec(self, rhs: u8) -> Expr {
        product(self, Expr::Val(rhs as i128))
    }
}

impl core::ops::Mul<u16> for Expr {
    type Output = Expr;

    fn mul(self, rhs: u16) -> Expr {
        self * Expr::from(rhs)
    }
}

impl vstd::std_specs::ops::MulSpecImpl<u16> for Expr {
    open spec fn obeys_mul_spec() -> bool {
        true
    }

    open spec fn mul_req(self, rhs: u16) -> bool {
        true
    }

    open spec fn mul_spec(self, rhs: u16) -> Expr {
        product(self, Expr::Val(rhs as i128))
    }
}

impl core::ops::Mul<u32> for Expr {
    type Output = Expr;

    fn mul(self, rhs: u32) -> Expr {
        self * Expr::from(rhs)
    }
}

impl vstd::std_specs::ops::MulSpecImpl<u32> for Expr {
    open spec fn obeys_mul_spec() -> bool {
        true
    }

    open spec fn mul_req(self, rhs: u32) -> bool {
        true
    }

    open spec fn mul_spec(self, rhs: u32) -> Expr {
        product(self, Expr::Val(rhs as i128))
    }
}

impl core::ops::Mul<u64> for Expr {
    type Output = Expr;

    fn mul(self, rhs: u64) -> Expr {
        self * Expr::from(rhs)
    }
}

impl vstd::std_specs::ops::MulSpecImpl<u64> for Expr {
    open spec fn obeys_mul_spec() -> bool {
        true
    }

    open spec fn mul_req(self, rhs: u64) -> bool {
        true
    }

    open spec fn mul_spec(self, rhs: u64) -> Expr {
        product(self, Expr::Val(rhs as i128))
    }
}

impl core::ops::Mul<isize> for Expr {
    type Output = Expr;

    fn mul(self, rhs: isize) -> Expr {
        self * Expr::from(rhs)
    }
}

impl vstd::std_specs::ops::MulSpecImpl<isize> for Expr {
    open spec fn obeys_mul_spec() -> bool {
        true
    }

    open spec fn mul_req(self, rhs: isize) -> bool {
        true
    }

    open spec fn mul_spec(self, rhs: isize) -> Expr {
        product(self, Expr::Val(rhs as i128))
    }
}

impl core::ops::Mul<usize> for Expr {
    type Output = Expr;

    fn mul(self, rhs: usize) -> Expr {
        self * Expr::from(rhs)
    }
}

impl vstd::std_specs::ops::MulSpecImpl<usize> for Expr {
    open spec fn obeys_mul_spec() -> bool {
        true
    }

    open spec fn mul_req(self, rhs: usize) -> bool {
        true
    }

    open spec fn mul_spec(self, rhs: usize) -> Expr {
        product(self, Expr::Val(rhs as i128))
    }
}

impl core::ops::Mul<Expr> for i8 {
    type Output = Expr;

    fn mul(self, rhs: Expr) -> Expr {
        Expr::from(self) * rhs
    }
}

impl vstd::std_specs::ops::MulSpecImpl<Expr> for i8 {
    open spec fn obeys_mul_spec() -> bool {
        true
    }

    open spec fn mul_req(self, rhs: Expr) -> bool {
        true
    }

    open spec fn mul_spec(self, rhs: Expr) -> Expr {
        product(Expr::Val(self as i128), rhs)
    }
}

impl core::ops::Mul<Expr> for i16 {
    type Output = Expr;

    fn mul(self, rhs: Expr) -> Expr {
        Expr::from(self) * rhs
    }
}

impl vstd::std_specs::ops::MulSpecImpl<Expr> for i16 {
    open spec fn obeys_mul_spec() -> bool {
        true
    }

    open spec fn mul_req(self, rhs: Expr) -> bool {
        true
    }

    open spec fn mul_spec(self, rhs: Expr) -> Expr {
        product(Expr::Val(self as i128), rhs)
    }
}

impl core::ops::Mul<Expr> for i32 {
    type Output = Expr;

    fn mul(self, rhs: Expr) -> Expr {
        Expr::from(self) * rhs
    }
}

impl vstd::std_specs::ops::MulSpecImpl<Expr> for i32 {
    open spec fn obeys_mul_spec() -> bool {
        true
    }

    open spec fn mul_req(self, rhs: Expr) -> bool {
        true
    }

    open spec fn mul_spec(self, rhs: Expr) -> Expr {
        product(Expr::Val(self as i128), rhs)
    }
}

impl core::ops::Mul<Expr> for i64 {
    type Output = Expr;

    fn mul(self, rhs: Expr) -> Expr {
        Expr::from(self) * rhs
    }
}

impl vstd::std_specs::ops::MulSpecImpl<Expr> for i64 {
    open spec fn obeys_mul_spec() -> bool {
        true
    }

    open spec fn mul_req(self, rhs: Expr) -> bool {
        true
    }

    open spec fn mul_spec(self, rhs: Expr) -> Expr {
        product(Expr::Val(self as i128), rhs)
    }
}

impl core::ops::Mul<Expr> for i128 {
    type Output = Expr;

    fn mul(self, rhs: Expr) -> Expr {
        Expr::from(self) * rhs
    }
}

impl vstd::std_specs::ops::MulSpecImpl<Expr> for i128 {
    open spec fn obeys_mul_spec() -> bool {
        true
    }

    open spec fn mul_req(self, rhs: Expr) -> bool {
        true
    }

    open spec fn mul_spec(self, rhs: Expr) -> Expr {
        product(Expr::Val(self as i128), rhs)
    }
}

impl core::ops::Mul<Expr> for u8 {
    type Output = Expr;

    fn mul(self, rhs: Expr) -> Expr {
        Expr::from(self) * rhs
    }
}

impl vstd::std_specs::ops::MulSpecImpl<Expr> for u8 {
    open spec fn obeys_mul_spec() -> bool {
        true
    }

    open spec fn mul_req(self, rhs: Expr) -> bool {
        true
    }

    open spec fn mul_spec(self, rhs: Expr) -> Expr {
        product(Expr::Val(self as i128), rhs)
    }
}

impl core::ops::Mul<Expr> for u16 {
    type Output = Expr;

    fn mul(self, rhs: Expr) -> Expr {
        Expr::from(self) * rhs
    }
}

impl vstd::std_specs::ops::MulSpecImpl<Expr> for u16 {
    open spec fn obeys_mul_spec() -> bool {
        true
    }

    open spec fn mul_req(self, rhs: Expr) -> bool {
        true
    }

    open spec fn mul_spec(self, rhs: Expr) -> Expr {
        product(Expr::Val(self as i128), rhs)
    }
}

impl core::ops::Mul<Expr> for u32 {
    type Output = Expr;

    fn mul(self, rhs: Expr) -> Expr {
        Expr::from(self) * rhs
    }
}

impl vstd::std_specs::ops::MulSpecImpl<Expr> for u32 {
    open spec fn obeys_mul_spec() -> bool {
        true
    }

    open spec fn mul_req(self, rhs: Expr) -> bool {
        true
    }

    open spec fn mul_spec(self, rhs: Expr) -> Expr {
        product(Expr::Val(self as i128), rhs)
    }
}

impl core::ops::Mul<Expr> for u64 {
    type Output = Expr;

    fn mul(self, rhs: Expr) -> Expr {
        Expr::from(self) * rhs
    }
}

impl vstd::std_specs::ops::MulSpecImpl<Expr> for u64 {
    open spec fn obeys_mul_spec() -> bool {
        true
    }

    open spec fn mul_req(self, rhs: Expr) -> bool {
        true
    }

    open spec fn mul_spec(self, rhs: Expr) -> Expr {
        product(Expr::Val(self as i128), rhs)
    }
}

impl core::ops::Div<i8> for Expr {
    type Output = Expr;

    fn div(self, rhs: i8) -> Expr {
        self / Expr::from(rhs)
    }
}

impl vstd::std_specs::ops::DivSpecImpl<i8> for Expr {
    open spec fn obeys_div_spec() -> bool {
        true
    }

    open spec fn div_req(self, rhs: i8) -> bool {
        true
    }

    open spec fn div_spec(self, rhs: i8) -> Expr {
        quotient(self, Expr::Val(rhs as i128))
    }
}

impl core::ops::Div<i16> for Expr {
    type Output = Expr;

    fn div(self, rhs: i16) -> Expr {
        self / Expr::from(rhs)
    }
}

impl vstd::std_specs::ops::DivSpecImpl<i16> for Expr {
    open spec fn obeys_div_spec() -> bool {
        true
    }

    open spec fn div_req(self, rhs: i16) -> bool {
        true
    }

    open spec fn div_spec(self, rhs: i16) -> Expr {
        quotient(self, Expr::Val(rhs as i128))
    }
}

impl core::ops::Div<i32> for Expr {
    type Output = Expr;

    fn div(self, rhs: i32) -> Expr {
        self / Expr::from(rhs)
    }
}

impl vstd::std_specs::ops::DivSpecImpl<i32> for Expr {
    open spec fn obeys_div_spec() -> bool {
        true
    }

    open spec fn div_req(self, rhs: i32) -> bool {
        true
    }

    open spec fn div_spec(self, rhs: i32) -> Expr {
        quotient(self, Expr::Val(rhs as i128))
    }
}

impl core::ops::Div<i64> for Expr {
    type Output = Expr;

    fn div(self, rhs: i64) -> Expr {
        self / Expr::from(rhs)
    }
}

impl vstd::std_specs::ops::DivSpecImpl<i64> for Expr {
    open spec fn obeys_div_spec() -> bool {
        true
    }

    open spec fn div_req(self, rhs: i64) -> bool {
        true
    }

    open spec fn div_spec(self, rhs: i64) -> Expr {
        quotient(self, Expr::Val(rhs as i128))
    }
}

impl core::ops::Div<i128> for Expr {
    type Output = Expr;

    fn div(self, rhs: i128) -> Expr {
        self / Expr::from(rhs)
    }
}

impl vstd::std_specs::ops::DivSpecImpl<i128> for Expr {
    open spec fn obeys_div_spec() -> bool {
        true
    }

    open spec fn div_req(self, rhs: i128) -> bool {
        true
    }

    open spec fn div_spec(self, rhs: i128) -> Expr {
        quotient(self, Expr::Val(rhs as i128))
    }
}

impl core::ops::Div<u8> for Expr {
    type Output = Expr;

    fn div(self, rhs: u8) -> Expr {
        self / Expr::from(rhs)
    }
}

impl vstd::std_specs::ops::DivSpecImpl<u8> for Expr {
    open spec fn obeys_div_spec() -> bool {
        true
    }

    open spec fn div_req(self, rhs: u8) -> bool {
        true
    }

    open spec fn div_spec(self, rhs: u8) -> Expr {
        quotient(self, Expr::Val(rhs as i128))
    }
}

impl core::ops::Div<u16> for Expr {
    type Output = Expr;

    fn div(self, rhs: u16) -> Expr {
        self / Expr::from(rhs)
    }
}

impl vstd::std_specs::ops::DivSpecImpl<u16> for Expr {
    open spec fn obeys_div_spec() -> bool {
        true
    }

    open spec fn div_req(self, rhs: u16) -> bool {
        true
    }

    open spec fn div_spec(self, rhs: u16) -> Expr {
        quotient(self, Expr::Val(rhs as i128))
    }
}

impl core::ops::Div<u32> for Expr {
    type Output = Expr;

    fn div(self, rhs: u32) -> Expr {
        self / Expr::from(rhs)
    }
}

impl vstd::std_specs::ops::DivSpecImpl<u32> for Expr {
    open spec fn obeys_div_spec() -> bool {
        true
    }

    open spec fn div_req(self, rhs: u32) -> bool {
        true
    }

    open spec fn div_spec(self, rhs: u32) -> Expr {
        quotient(self, Expr::Val(rhs as i128))
    }
}

impl core::ops::Div<u64> for Expr {
    type Output = Expr;

    fn div(self, rhs: u64) -> Expr {
        self / Expr::from(rhs)
    }
}

impl vstd::std_specs::ops::DivSpecImpl<u64> for Expr {
    open spec fn obeys_div_spec() -> bool {
        true
    }

    open spec fn div_req(self, rhs: u64) -> bool {
        true
    }

    open spec fn div_spec(self, rhs: u64) -> Expr {
        quotient(self, Expr::Val(rhs as i128))
    }
}

impl core::ops::Div<isize> for Expr {
    type Output = Expr;

    fn div(self, rhs: isize) -> Expr {
        self / Expr::from(rhs)
    }
}

impl vstd::std_specs::ops::DivSpecImpl<isize> for Expr {
    open spec fn obeys_div_spec() -> bool {
        true
    }

    open spec fn div_req(self, rhs: isize) -> bool {
        true
    }

    open spec fn div_spec(self, rhs: isize) -> Expr {
        quotient(self, Expr::Val(rhs as i128))
    }
}

impl core::ops::Div<usize> for Expr {
    type Output = Expr;

    fn div(self, rhs: usize) -> Expr {
        self / Expr::from(rhs)
    }
}

impl vstd::std_specs::ops::DivSpecImpl<usize> for Expr {
    open spec fn obeys_div_spec() -> bool {
        true
    }

    open spec fn div_req(self, rhs: usize) -> bool {
        true
    }

    open spec fn div_spec(self, rhs: usize) -> Expr {
        quotient(self, Expr::Val(rhs as i128))
    }
}

impl core::ops::Div<Expr> for i8 {
    type Output = Expr;

    fn div(self, rhs: Expr) -> Expr {
        Expr::from(self) / rhs
    }
}

impl vstd::std_specs::ops::DivSpecImpl<Expr> for i8 {
    open spec fn obeys_div_spec() -> bool {
        true
    }

    open spec fn div_req(self, rhs: Expr) -> bool {
        true
    }

    open spec fn div_spec(self, rhs: Expr) -> Expr {
        quotient(Expr::Val(self as i128), rhs)
    }
}

impl core::ops::Div<Expr> for i16 {
    type Output = Expr;

    fn div(self, rhs: Expr) -> Expr {
        Expr::from(self) / rhs
    }
}

impl vstd::std_specs::ops::DivSpecImpl<Expr> for i16 {
    open spec fn obeys_div_spec() -> bool {
        true
    }

    open spec fn div_req(self, rhs: Expr) -> bool {
        true
    }

    open spec fn div_spec(self, rhs: Expr) -> Expr {
        quotient(Expr::Val(self as i128), rhs)
    }
}

impl core::ops::Div<Expr> for i32 {
    type Output = Expr;

    fn div(self, rhs: Expr) -> Expr {
        Expr::from(self) / rhs
    }
}

impl vstd::std_specs::ops::DivSpecImpl<Expr> for i32 {
    open spec fn obeys_div_spec() -> bool {
        true
    }

    open spec fn div_req(self, rhs: Expr) -> bool {
        true
    }

    open spec fn div_spec(self, rhs: Expr) -> Expr {
        quotient(Expr::Val(self as i128), rhs)
    }
}

impl core::ops::Div<Expr> for i64 {
    type Output = Expr;

    fn div(self, rhs: Expr) -> Expr {
        Expr::from(self) / rhs
    }
}

impl vstd::std_specs::ops::DivSpecImpl<Expr> for i64 {
    open spec fn obeys_div_spec() -> bool {
        true
    }

    open spec fn div_req(self, rhs: Expr) -> bool {
        true
    }

    open spec fn div_spec(self, rhs: Expr) -> Expr {
        quotient(Expr::Val(self as i128), rhs)
    }
}

impl core::ops::Div<Expr> for i128 {
    type Output = Expr;

    fn div(self, rhs: Expr) -> Expr {
        Expr::from(self) / rhs
    }
}

impl vstd::std_specs::ops::DivSpecImpl<Expr> for i128 {
    open spec fn obeys_div_spec() -> bool {
        true
    }

    open spec fn div_req(self, rhs: Expr) -> bool {
        true
    }

    open spec fn div_spec(self, rhs: Expr) -> Expr {
        quotient(Expr::Val(self as i128), rhs)
    }
}

impl core::ops::Div<Expr> for u8 {
    type Output = Expr;

    fn div(self, rhs: Expr) -> Expr {
        Expr::from(self) / rhs
    }
}

impl vstd::std_specs::ops::DivSpecImpl<Expr> for u8 {
    open spec fn obeys_div_spec() -> bool {
        true
    }

    open spec fn div_req(self, rhs: Expr) -> bool {
        true
    }

    open spec fn div_spec(self, rhs: Expr) -> Expr {
        quotient(Expr::Val(self as i128), rhs)
    }
}

impl core::ops::Div<Expr> for u16 {
    type Output = Expr;

    fn div(self, rhs: Expr) -> Expr {
        Expr::from(self) / rhs
    }
}

impl vstd::std_specs::ops::DivSpecImpl<Expr> for u16 {
    open spec fn obeys_div_spec() -> bool {
        true
    }

    open spec fn div_req(self, rhs: Expr) -> bool {
        true
    }

    open spec fn div_spec(self, rhs: Expr) -> Expr {
        quotient(Expr::Val(self as i128), rhs)
    }
}

impl core::ops::Div<Expr> for u32 {
    type Output = Expr;

    fn div(self, rhs: Expr) -> Expr {
        Expr::from(self) / rhs
    }
}

impl vstd::std_specs::ops::DivSpecImpl<Expr> for u32 {
    open spec fn obeys_div_spec() -> bool {
        true
    }

    open spec fn div_req(self, rhs: Expr) -> bool {
        true
    }

    open spec fn div_spec(self, rhs: Expr) -> Expr {
        quotient(Expr::Val(self as i128), rhs)
    }
}

impl core::ops::Div<Expr> for u64 {
    type Output = Expr;

    fn div(self, rhs: Expr) -> Expr {
        Expr::from(self) / rhs
    }
}

impl vstd::std_specs::ops::DivSpecImpl<Expr> for u64 {
    open spec fn obeys_div_spec() -> bool {
        true
    }

    open spec fn div_req(self, rhs: Expr) -> bool {
        true
    }

    open spec fn div_spec(self, rhs: Expr) -> Expr {
        quotient(Expr::Val(self as i128), rhs)
    }
}

impl core::ops::Rem<i8> for Expr {
    type Output = Expr;

    fn rem(self, rhs: i8) -> Expr {
        self % Expr::from(rhs)
    }
}

impl vstd::std_specs::ops::RemSpecImpl<i8> for Expr {
    open spec fn obeys_rem_spec() -> bool {
        true
    }

    open spec fn rem_req(self, rhs: i8) -> bool {
        true
    }

    open spec fn rem_spec(self, rhs: i8) -> Expr {
        Expr::Rem(Box::new(self), Box::new(Expr::Val(rhs as i128)))
    }
}

impl core::ops::Rem<i16> for Expr {
    type Output = Expr;

    fn rem(self, rhs: i16) -> Expr {
        self % Expr::from(rhs)
    }
}

impl vstd::std_specs::ops::RemSpecImpl<i16> for Expr {
    open spec fn obeys_rem_spec() -> bool {
        true
    }

    open spec fn rem_req(self, rhs: i16) -> bool {
        true
    }

    open spec fn rem_spec(self, rhs: i16) -> Expr {
        Expr::Rem(Box::new(self), Box::new(Expr::Val(rhs as i128)))
    }
}

impl core::ops::Rem<i32> for Expr {
    type Output = Expr;

    fn rem(self, rhs: i32) -> Expr {
        self % Expr::from(rhs)
    }
}

impl vstd::std_specs::ops::RemSpecImpl<i32> for Expr {
    open spec fn obeys_rem_spec() -> bool {
        true
    }

    open spec fn rem_req(self, rhs: i32) -> bool {
        true
    }

    open spec fn rem_spec(self, rhs: i32) -> Expr {
        Expr::Rem(Box::new(self), Box::new(Expr::Val(rhs as i128)))
    }
}

impl core::ops::Rem<i64> for Expr {
    type Output = Expr;

    fn rem(self, rhs: i64) -> Expr {
        self % Expr::from(rhs)
    }
}

impl vstd::std_specs::ops::RemSpecImpl<i64> for Expr {
    open spec fn obeys_rem_spec() -> bool {
        true
    }

    open spec fn rem_req(self, rhs: i64) -> bool {
        true
    }

    open spec fn rem_spec(self, rhs: i64) -> Expr {
        Expr::Rem(Box::new(self), Box::new(Expr::Val(rhs as i128)))
    }
}

impl core::ops::Rem<i128> for Expr {
    type Output = Expr;

    fn rem(self, rhs: i128) -> Expr {
        self % Expr::from(rhs)
    }
}

impl vstd::std_specs::ops::RemSpecImpl<i128> for Expr {
    open spec fn obeys_rem_spec() -> bool {
        true
    }

    open spec fn rem_req(self, rhs: i128) -> bool {
        true
    }

    open spec fn rem_spec(self, rhs: i128) -> Expr {
        Expr::Rem(Box::new(self), Box::new(Expr::Val(rhs as i128)))
    }
}

impl core::ops::Rem<u8> for Expr {
    type Output = Expr;

    fn rem(self, rhs: u8) -> Expr {
        self % Expr::from(rhs)
    }
}

impl vstd::std_specs::ops::RemSpecImpl<u8> for Expr {
    open spec fn obeys_rem_spec() -> bool {
        true
    }

    open spec fn rem_req(self, rhs: u8) -> bool {
        true
    }

    open spec fn rem_spec(self, rhs: u8) -> Expr {
        Expr::Rem(Box::new(self), Box::new(Expr::Val(rhs as i128)))
    }
}

impl core::ops::Rem<u16> for Expr {
    type Output = Expr;

    fn rem(self, rhs: u16) -> Expr {
        self % Expr::from(rhs)
    }
}

impl vstd::std_specs::ops::RemSpecImpl<u16> for Expr {
    open spec fn obeys_rem_spec() -> bool {
        true
    }

    open spec fn rem_req(self, rhs: u16) -> bool {
        true
    }

    open spec fn rem_spec(self, rhs: u16) -> Expr {
        Expr::Rem(Box::new(self), Box::new(Expr::Val(rhs as i128)))
    }
}

impl core::ops::Rem<u32> for Expr {
    type Output = Expr;

    fn rem(self, rhs: u32) -> Expr {
        self % Expr::from(rhs)
    }
}

impl vstd::std_specs::ops::RemSpecImpl<u32> for Expr {
    open spec fn obeys_rem_spec() -> bool {
        true
    }

    open spec fn rem_req(self, rhs: u32) -> bool {
        true
    }

    open spec fn rem_spec(self, rhs: u32) -> Expr {
        Expr::Rem(Box::new(self), Box::new(Expr::Val(rhs as i128)))
    }
}

impl core::ops::Rem<u64> for Expr {
    type Output = Expr;

    fn rem(self, rhs: u64) -> Expr {
        self % Expr::from(rhs)
    }
}

impl vstd::std_specs::ops::RemSpecImpl<u64> for Expr {
    open spec fn obeys_rem_spec() -> bool {
        true
    }

    open spec fn rem_req(self, rhs: u64) -> bool {
        true
    }

    open spec fn rem_spec(self, rhs: u64) -> Expr {
        Expr::Rem(Box::new(self), Box::new(Expr::Val(rhs as i128)))
    }
}

impl core::ops::Rem<isize> for Expr {
    type Output = Expr;

    fn rem(self, rhs: isize) -> Expr {
        self % Expr::from(rhs)
    }
}

impl vstd::std_specs::ops::RemSpecImpl<isize> for Expr {
    open spec fn obeys_rem_spec() -> bool {
        true
    }

    open spec fn rem_req(self, rhs: isize) -> bool {
        true
    }

    open spec fn rem_spec(self, rhs: isize) -> Expr {
        Expr::Rem(Box::new(self), Box::new(Expr::Val(rhs as i128)))
    }
}

impl core::ops::Rem<usize> for Expr {
    type Output = Expr;

    fn rem(self, rhs: usize) -> Expr {
        self % Expr::from(rhs)
    }
}

impl vstd::std_specs::ops::RemSpecImpl<usize> for Expr {
    open spec fn obeys_rem_spec() -> bool {
        true
    }

    open spec fn rem_req(self, rhs: usize) -> bool {
        true
    }

    open spec fn rem_spec(self, rhs: usize) -> Expr {
        Expr::Rem(Box::new(self), Box::new(Expr::Val(rhs as i128)))
    }
}

impl core::ops::Rem<Expr> for i8 {
    type Output = Expr;

    fn rem(self, rhs: Expr) -> Expr {
        Expr::from(self) % rhs
    }
}

impl vstd::std_specs::ops::RemSpecImpl<Expr> for i8 {
    open spec fn obeys_rem_spec() -> bool {
        true
    }

    open spec fn rem_req(self, rhs: Expr) -> bool {
        true
    }

    open spec fn rem_spec(self, rhs: Expr) -> Expr {
        Expr::Rem(Box::new(Expr::Val(self as i128)), Box::new(rhs))
    }
}

impl core::ops::Rem<Expr> for i16 {
    type Output = Expr;

    fn rem(self, rhs: Expr) -> Expr {
        Expr::from(self) % rhs
    }
}

impl vstd::std_specs::ops::RemSpecImpl<Expr> for i16 {
    open spec fn obeys_rem_spec() -> bool {
        true
    }

    open spec fn rem_req(self, rhs: Expr) -> bool {
        true
    }

    open spec fn rem_spec(self, rhs: Expr) -> Expr {
        Expr::Rem(Box::new(Expr::Val(self as i128)), Box::new(rhs))
    }
}

impl core::ops::Rem<Expr> for i32 {
    type Output = Expr;

    fn rem(self, rhs: Expr) -> Expr {
        Expr::from(self) % rhs
    }
}

impl vstd::std_specs::ops::RemSpecImpl<Expr> for i32 {
    open spec fn obeys_rem_spec() -> bool {
        true
    }

    open spec fn rem_req(self, rhs: Expr) -> bool {
        true
    }

    open spec fn rem_spec(self, rhs: Expr) -> Expr {
        Expr::Rem(Box::new(Expr::Val(self as i128)), Box::new(rhs))
    }
}

impl core::ops::Rem<Expr> for i64 {
    type Output = Expr;

    fn rem(self, rhs: Expr) -> Expr {
        Expr::from(self) % rhs
    }
}

impl vstd::std_specs::ops::RemSpecImpl<Expr> for i64 {
    open spec fn obeys_rem_spec() -> bool {
        true
    }

    open spec fn rem_req(self, rhs: Expr) -> bool {
        true
    }

    open spec fn rem_spec(self, rhs: Expr) -> Expr {
        Expr::Rem(Box::new(Expr::Val(self as i128)), Box::new(rhs))
    }
}

impl core::ops::Rem<Expr> for i128 {
    type Output = Expr;

    fn rem(self, rhs: Expr) -> Expr {
        Expr::from(self) % rhs
    }
}

impl vstd::std_specs::ops::RemSpecImpl<Expr> for i128 {
    open spec fn obeys_rem_spec() -> bool {
        true
    }

    open spec fn rem_req(self, rhs: Expr) -> bool {
        true
    }

    open spec fn rem_spec(self, rhs: Expr) -> Expr {
        Expr::Rem(Box::new(Expr::Val(self as i128)), Box::new(rhs))
    }
}

impl core::ops::Rem<Expr> for u8 {
    type Output = Expr;

    fn rem(self, rhs: Expr) -> Expr {
        Expr::from(self) % rhs
    }
}

impl vstd::std_specs::ops::RemSpecImpl<Expr> for u8 {
    open spec fn obeys_rem_spec() -> bool {
        true
    }

    open spec fn rem_req(self, rhs: Expr) -> bool {
        true
    }

    open spec fn rem_spec(self, rhs: Expr) -> Expr {
        Expr::Rem(Box::new(Expr::Val(self as i128)), Box::new(rhs))
    }
}

impl core::ops::Rem<Expr> for u16 {
    type Output = Expr;

    fn rem(self, rhs: Expr) -> Expr {
        Expr::from(self) % rhs
    }
}

impl vstd::std_specs::ops::RemSpecImpl<Expr> for u16 {
    open spec fn obeys_rem_spec() -> bool {
        true
    }

    open spec fn rem_req(self, rhs: Expr) -> bool {
        true
    }

    open spec fn rem_spec(self, rhs: Expr) -> Expr {
        Expr::Rem(Box::new(Expr::Val(self as i128)), Box::new(rhs))
    }
}

impl core::ops::Rem<Expr> for u32 {
    type Output = Expr;

    fn rem(self, rhs: Expr) -> Expr {
        Expr::from(self) % rhs
    }
}

impl vstd::std_specs::ops::RemSpecImpl<Expr> for u32 {
    open spec fn obeys_rem_spec() -> bool {
        true
    }

    open spec fn rem_req(self, rhs: Expr) -> bool {
        true
    }

    open spec fn rem_spec(self, rhs: Expr) -> Expr {
        Expr::Rem(Box::new(Expr::Val(self as i128)), Box::new(rhs))
    }
}

impl core::ops::Rem<Expr> for u64 {
    type Output = Expr;

    fn rem(self, rhs: Expr) -> Expr {
        Expr::from(self) % rhs
    }
}

impl vstd::std_specs::ops::RemSpecImpl<Expr> for u64 {
    open spec fn obeys_rem_spec() -> bool {
        true
    }

    open spec fn rem_req(self, rhs: Expr) -> bool {
        true
    }

    open spec fn rem_spec(self, rhs: Expr) -> Expr {
        Expr::Rem(Box::new(Expr::Val(self as i128)), Box::new(rhs))
    }
}

impl core::ops::BitXor<i8> for Expr {
    type Output = Expr;

    fn bitxor(self, rhs: i8) -> Expr {
        self ^ Expr::from(rhs)
    }
}

impl vstd::std_specs::ops::BitXorSpecImpl<i8> for Expr {
    open spec fn obeys_bitxor_spec() -> bool {
        true
    }

    open spec fn bitxor_req(self, rhs: i8) -> bool {
        true
    }

    open spec fn bitxor_spec(self, rhs: i8) -> Expr {
        power(self, Expr::Val(rhs as i128))
    }
}

impl core::ops::BitXor<i16> for Expr {
    type Output = Expr;

    fn bitxor(self, rhs: i16) -> Expr {
        self ^ Expr::from(rhs)
    }
}

impl vstd::std_specs::ops::BitXorSpecImpl<i16> for Expr {
    open spec fn obeys_bitxor_spec() -> bool {
        true
    }

    open spec fn bitxor_req(self, rhs: i16) -> bool {
        true
    }

    open spec fn bitxor_spec(self, rhs: i16) -> Expr {
        power(self, Expr::Val(rhs as i128))
    }
}

impl core::ops::BitXor<i32> for Expr {
    type Output = Expr;

    fn bitxor(self, rhs: i32) -> Expr {
        self ^ Expr::from(rhs)
    }
}

impl vstd::std_specs::ops::BitXorSpecImpl<i32> for Expr {
    open spec fn obeys_bitxor_spec() -> bool {
        true
    }

    open spec fn bitxor_req(self, rhs: i32) -> bool {
        true
    }

    open spec fn bitxor_spec(self, rhs: i32) -> Expr {
        power(self, Expr::Val(rhs as i128))
    }
}

impl core::ops::BitXor<i64> for Expr {
    type Output = Expr;

    fn bitxor(self, rhs: i64) -> Expr {
        self ^ Expr::from(rhs)
    }
}

impl vstd::std_specs::ops::BitXorSpecImpl<i64> for Expr {
    open spec fn obeys_bitxor_spec() -> bool {
        true
    }

    open spec fn bitxor_req(self, rhs: i64) -> bool {
        true
    }

    open spec fn bitxor_spec(self, rhs: i64) -> Expr {
        power(self, Expr::Val(rhs as i128))
    }
}

impl core::ops::BitXor<i128> for Expr {
    type Output = Expr;

    fn bitxor(self, rhs: i128) -> Expr {
        self ^ Expr::from(rhs)
    }
}

impl vstd::std_specs::ops::BitXorSpecImpl<i128> for Expr {
    open spec fn obeys_bitxor_spec() -> bool {
        true
    }

    open spec fn bitxor_req(self, rhs: i128) -> bool {
        true
    }

    open spec fn bitxor_spec(self, rhs: i128) -> Expr {
        power(self, Expr::Val(rhs as i128))
    }
}

impl core::ops::BitXor<u8> for Expr {
    type Output = Expr;

    fn bitxor(self, rhs: u8) -> Expr {
        self ^ Expr::from(rhs)
    }
}

impl vstd::std_specs::ops::BitXorSpecImpl<u8> for Expr {
    open spec fn obeys_bitxor_spec() -> bool {
        true
    }

    open spec fn bitxor_req(self, rhs: u8) -> bool {
        true
    }

    open spec fn bitxor_spec(self, rhs: u8) -> Expr {
        power(self, Expr::Val(rhs as i128))
    }
}

impl core::ops::BitXor<u16> for Expr {
    type Output = Expr;

    fn bitxor(self, rhs: u16) -> Expr {
        self ^ Expr::from(rhs)
    }
}

impl vstd::std_specs::ops::BitXorSpecImpl<u16> for Expr {
    open spec fn obeys_bitxor_spec() -> bool {
        true
    }

    open spec fn bitxor_req(self, rhs: u16) -> bool {
        true
    }

    open spec fn bitxor_spec(self, rhs: u16) -> Expr {
        power(self, Expr::Val(rhs as i128))
    }
}

impl core::ops::BitXor<u32> for Expr {
    type Output = Expr;

    fn bitxor(self, rhs: u32) -> Expr {
        self ^ Expr::from(rhs)
    }
}

impl vstd::std_specs::ops::BitXorSpecImpl<u32> for Expr {
    open spec fn obeys_bitxor_spec() -> bool {
        true
    }

    open spec fn bitxor_req(self, rhs: u32) -> bool {
        true
    }

    open spec fn bitxor_spec(self, rhs: u32) -> Expr {
        power(self, Expr::Val(rhs as i128))
    }
}

impl core::ops::BitXor<u64> for Expr {
    type Output = Expr;

    fn bitxor(self, rhs: u64) -> Expr {
        self ^ Expr::from(rhs)
    }
}

impl vstd::std_specs::ops::BitXorSpecImpl<u64> for Expr {
    open spec fn obeys_bitxor_spec() -> bool {
        true
    }

    open spec fn bitxor_req(self, rhs: u64) -> bool {
        true
    }

    open spec fn bitxor_spec(self, rhs: u64) -> Expr {
        power(self, Expr::Val(rhs as i128))
    }
}

impl core::ops::BitXor<isize> for Expr {
    type Output = Expr;

    fn bitxor(self, rhs: isize) -> Expr {
        self ^ Expr::from(rhs)
    }
}

impl vstd::std_specs::ops::BitXorSpecImpl<isize> for Expr {
    open spec fn obeys_bitxor_spec() -> bool {
        true
    }

    open spec fn bitxor_req(self, rhs: isize) -> bool {
        true
    }

    open spec fn bitxor_spec(self, rhs: isize) -> Expr {
        power(self, Expr::Val(rhs as i128))
    }
}

impl core::ops::BitXor<usize> for Expr {
    type Output = Expr;

    fn bitxor(self, rhs: usize) -> Expr {
        self ^ Expr::from(rhs)
    }
}

impl vstd::std_specs::ops::BitXorSpecImpl<usize> for Expr {
    open spec fn obeys_bitxor_spec() -> bool {
        true
    }

    open spec fn bitxor_req(self, rhs: usize) -> bool {
        true
    }

    open spec fn bitxor_spec(self, rhs: usize) -> Expr {
        power(self, Expr::Val(rhs as i128))
    }
}

impl core::ops::BitXor<Expr> for i8 {
    type Output = Expr;

    fn bitxor(self, rhs: Expr) -> Expr {
        Expr::from(self) ^ rhs
    }
}

impl vstd::std_specs::ops::BitXorSpecImpl<Expr> for i8 {
    open spec fn obeys_bitxor_spec() -> bool {
        true
    }

    open spec fn bitxor_req(self, rhs: Expr) -> bool {
        true
    }

    open spec fn bitxor_spec(self, rhs: Expr) -> Expr {
        power(Expr::Val(self as i128), rhs)
    }
}

impl core::ops::BitXor<Expr> for i16 {
    type Output = Expr;

    fn bitxor(self, rhs: Expr) -> Expr {
        Expr::from(self) ^ rhs
    }
}

impl vstd::std_specs::ops::BitXorSpecImpl<Expr> for i16 {
    open spec fn obeys_bitxor_spec() -> bool {
        true
    }

    open spec fn bitxor_req(self, rhs: Expr) -> bool {
        true
    }

    open spec fn bitxor_spec(self, rhs: Expr) -> Expr {
        power(Expr::Val(self as i128), rhs)
    }
}

impl core::ops::BitXor<Expr> for i32 {
    type Output = Expr;

    fn bitxor(self, rhs: Expr) -> Expr {
        Expr::from(self) ^ rhs
    }
}

impl vstd::std_specs::ops::BitXorSpecImpl<Expr> for i32 {
    open spec fn obeys_bitxor_spec() -> bool {
        true
    }

    open spec fn bitxor_req(self, rhs: Expr) -> bool {
        true
    }

    open spec fn bitxor_spec(self, rhs: Expr) -> Expr {
        power(Expr::Val(self as i128), rhs)
    }
}

impl core::ops::BitXor<Expr> for i64 {
    type Output = Expr;

    fn bitxor(self, rhs: Expr) -> Expr {
        Expr::from(self) ^ rhs
    }
}

impl vstd::std_specs::ops::BitXorSpecImpl<Expr> for i64 {
    open spec fn obeys_bitxor_spec() -> bool {
        true
    }

    open spec fn bitxor_req(self, rhs: Expr) -> bool {
        true
    }

    open spec fn bitxor_spec(self, rhs: Expr) -> Expr {
        power(Expr::Val(self as i128), rhs)
    }
}

impl core::ops::BitXor<Expr> for i128 {
    type Output = Expr;

    fn bitxor(self, rhs: Expr) -> Expr {
        Expr::from(self) ^ rhs
    }
}

impl vstd::std_specs::ops::BitXorSpecImpl<Expr> for i128 {
    open spec fn obeys_bitxor_spec() -> bool {
        true
    }

    open spec fn bitxor_req(self, rhs: Expr) -> bool {
        true
    }

    open spec fn bitxor_spec(self, rhs: Expr) -> Expr {
        power(Expr::Val(self as i128), rhs)
    }
}

impl core::ops::BitXor<Expr> for u8 {
    type Output = Expr;

    fn bitxor(self, rhs: Expr) -> Expr {
        Expr::from(self) ^ rhs
    }
}

impl vstd::std_specs::ops::BitXorSpecImpl<Expr> for u8 {
    open spec fn obeys_bitxor_spec() -> bool {
        true
    }

    open spec fn bitxor_req(self, rhs: Expr) -> bool {
        true
    }

    open spec fn bitxor_spec(self, rhs: Expr) -> Expr {
        power(Expr::Val(self as i128), rhs)
    }
}

impl core::ops::BitXor<Expr> for u16 {
    type Output = Expr;

    fn bitxor(self, rhs: Expr) -> Expr {
        Expr::from(self) ^ rhs
    }
}

impl vstd::std_specs::ops::BitXorSpecImpl<Expr> for u16 {
    open spec fn obeys_bitxor_spec() -> bool {
        true
    }

    open spec fn bitxor_req(self, rhs: Expr) -> bool {
        true
    }

    open spec fn bitxor_spec(self, rhs: Expr) -> Expr {
        power(Expr::Val(self as i128), rhs)
    }
}

impl core::ops::BitXor<Expr> for u32 {
    type Output = Expr;

    fn bitxor(self, rhs: Expr) -> Expr {
        Expr::from(self) ^ rhs
    }
}

impl vstd::std_specs::ops::BitXorSpecImpl<Expr> for u32 {
    open spec fn obeys_bitxor_spec() -> bool {
        true
    }

    open spec fn bitxor_req(self, rhs: Expr) -> bool {
        true
    }

    open spec fn bitxor_spec(self, rhs: Expr) -> Expr {
        power(Expr::Val(self as i128), rhs)
    }
}

impl core::ops::BitXor<Expr> for u64 {
    type Output = Expr;

    fn bitxor(self, rhs: Expr) -> Expr {
        Expr::from(self) ^ rhs
    }
}

impl vstd::std_specs::ops::BitXorSpecImpl<Expr> for u64 {
    open spec fn obeys_bitxor_spec() -> bool {
        true
    }

    open spec fn bitxor_req(self, rhs: Expr) -> bool {
        true
    }

    open spec fn bitxor_spec(self, rhs: Expr) -> Expr {
        power(Expr::Val(self as i128), rhs)
    }
}

/// An expression equals an integer when its exact value is that integer.
impl PartialEq<i8> for Expr {
    fn eq(&self, rhs: &i8) -> (r: bool) {
        match self.exact() {
            Ok(Extended::Finite(p)) => p.num == *rhs as i128 && p.den == 1,
            _ => false,
        }
    }
}

impl vstd::std_specs::cmp::PartialEqSpecImpl<i8> for Expr {
    open spec fn obeys_eq_spec() -> bool {
        true
    }

    open spec fn eq_spec(&self, rhs: &i8) -> bool {
        evaluation(*self) == Ok::<Extended<Ratio>, NumericError>(
            Extended::Finite(Ratio { num: *rhs as i128, den: 1 }),
        )
    }
}

/// An expression equals an integer when its exact value is that integer.
impl PartialEq<i16> for Expr {
    fn eq(&self, rhs: &i16) -> (r: bool) {
        match self.exact() {
            Ok(Extended::Finite(p)) => p.num == *rhs as i128 && p.den == 1,
            _ => false,
        }
    }
}

impl vstd::std_specs::cmp::PartialEqSpecImpl<i16> for Expr {
    open spec fn obeys_eq_spec() -> bool {
        true
    }

    open spec fn eq_spec(&self, rhs: &i16) -> bool {
        evaluation(*self) == Ok::<Extended<Ratio>, NumericError>(
            Extended::Finite(Ratio { num: *rhs as i128, den: 1 }),
        )
    }
}

/// An expression equals an integer when its exact value is that integer.
impl PartialEq<i32> for Expr {
    fn eq(&self, rhs: &i32) -> (r: bool) {
        match self.exact() {
            Ok(Extended::Finite(p)) => p.num == *rhs as i128 && p.den == 1,
            _ => false,
        }
    }
}

impl vstd::std_specs::cmp::PartialEqSpecImpl<i32> for Expr {
    open spec fn obeys_eq_spec() -> bool {
        true
    }

    open spec fn eq_spec(&self, rhs: &i32) -> bool {
        evaluation(*self) == Ok::<Extended<Ratio>, NumericError>(
            Extended::Finite(Ratio { num: *rhs as i128, den: 1 }),
        )
    }
}

/// An expression equals an integer when its exact value is that integer.
impl PartialEq<i64> for Expr {
    fn eq(&self, rhs: &i64) -> (r: bool) {
        match self.exact() {
            Ok(Extended::Finite(p)) => p.num == *rhs as i128 && p.den == 1,
            _ => false,
        }
    }
}

impl vstd::std_specs::cmp::PartialEqSpecImpl<i64> for Expr {
    open spec fn obeys_eq_spec() -> bool {
        true
    }

    open spec fn eq_spec(&self, rhs: &i64) -> bool {
        evaluation(*self) == Ok::<Extended<Ratio>, NumericError>(
            Extended::Finite(Ratio { num: *rhs as i128, den: 1 }),
        )
    }
}

/// An expression equals an integer when its exact value is that integer.
impl PartialEq<i128> for Expr {
    fn eq(&self, rhs: &i128) -> (r: bool) {
        match self.exact() {
            Ok(Extended::Finite(p)) => p.num == *rhs as i128 && p.den == 1,
            _ => false,
        }
    }
}

impl vstd::std_specs::cmp::PartialEqSpecImpl<i128> for Expr {
    open spec fn obeys_eq_spec() -> bool {
        true
    }

    open spec fn eq_spec(&self, rhs: &i128) -> bool {
        evaluation(*self) == Ok::<Extended<Ratio>, NumericError>(
            Extended::Finite(Ratio { num: *rhs as i128, den: 1 }),
        )
    }
}

/// An expression equals an integer when its exact value is that integer.
impl PartialEq<u8> for Expr {
    fn eq(&self, rhs: &u8) -> (r: bool) {
        match self.exact() {
            Ok(Extended::Finite(p)) => p.num == *rhs as i128 && p.den == 1,
            _ => false,
        }
    }
}

impl vstd::std_specs::cmp::PartialEqSpecImpl<u8> for Expr {
    open spec fn obeys_eq_spec() -> bool {
        true
    }

    open spec fn eq_spec(&self, rhs: &u8) -> bool {
        evaluation(*self) == Ok::<Extended<Ratio>, NumericError>(
            Extended::Finite(Ratio { num: *rhs as i128, den: 1 }),
        )
    }
}

/// An expression equals an integer when its exact value is that integer.
impl PartialEq<u16> for Expr {
    fn eq(&self, rhs: &u16) -> (r: bool) {
        match self.exact() {
            Ok(Extended::Finite(p)) => p.num == *rhs as i128 && p.den == 1,
            _ => false,
        }
    }
}

impl vstd::std_specs::cmp::PartialEqSpecImpl<u16> for Expr {
    open spec fn obeys_eq_spec() -> bool {
        true
    }

    open spec fn eq_spec(&self, rhs: &u16) -> bool {
        evaluation(*self) == Ok::<Extended<Ratio>, NumericError>(
            Extended::Finite(Ratio { num: *rhs as i128, den: 1 }),
        )
    }
}

/// An expression equals an integer when its exact value is that integer.
impl PartialEq<u32> for Expr {
    fn eq(&self, rhs: &u32) -> (r: bool) {
        match self.exact() {
            Ok(Extended::Finite(p)) => p.num == *rhs as i128 && p.den == 1,
            _ => false,
        }
    }
}

impl vstd::std_specs::cmp::PartialEqSpecImpl<u32> for Expr {
    open spec fn obeys_eq_spec() -> bool {
        true
    }

    open spec fn eq_spec(&self, rhs: &u32) -> bool {
        evaluation(*self) == Ok::<Extended<Ratio>, NumericError>(
            Extended::Finite(Ratio { num: *rhs as i128, den: 1 }),
        )
    }
}

/// An expression equals an integer when its exact value is that integer.
impl PartialEq<u64> for Expr {
    fn eq(&self, rhs: &u64) -> (r: bool) {
        match self.exact() {
            Ok(Extended::Finite(p)) => p.num == *rhs as i128 && p.den == 1,
            _ => false,
        }
    }
}

impl vstd::std_specs::cmp::PartialEqSpecImpl<u64> for Expr {
    open spec fn obeys_eq_spec() -> bool {
        true
    }

    open spec fn eq_spec(&self, rhs: &u64) -> bool {
        evaluation(*self) == Ok::<Extended<Ratio>, NumericError>(
            Extended::Finite(Ratio { num: *rhs as i128, den: 1 }),
        )
    }
}

/// An expression equals an integer when its exact value is that integer.
impl PartialEq<isize> for Expr {
    fn eq(&self, rhs: &isize) -> (r: bool) {
        match self.exact() {
            Ok(Extended::Finite(p)) => p.num == *rhs as i128 && p.den == 1,
            _ => false,
        }
    }
}

impl vstd::std_specs::cmp::PartialEqSpecImpl<isize> for Expr {
    open spec fn obeys_eq_spec() -> bool {
        true
    }

    open spec fn eq_spec(&self, rhs: &isize) -> bool {
        evaluation(*self) == Ok::<Extended<Ratio>, NumericError>(
            Extended::Finite(Ratio { num: *rhs as i128, den: 1 }),
        )
    }
}

/// An expression equals an integer when its exact value is that integer.
impl PartialEq<usize> for Expr {
    fn eq(&self, rhs: &usize) -> (r: bool) {
        match self.exact() {
            Ok(Extended::Finite(p)) => p.num == *rhs as i128 && p.den == 1,
            _ => false,
        }
    }
}

impl vstd::std_specs::cmp::PartialEqSpecImpl<usize> for Expr {
    open spec fn obeys_eq_spec() -> bool {
        true
    }

    open spec fn eq_spec(&self, rhs: &usize) -> bool {
        evaluation(*self) == Ok::<Extended<Ratio>, NumericError>(
            Extended::Finite(Ratio { num: *rhs as i128, den: 1 }),
        )
    }
}

} // verus!
