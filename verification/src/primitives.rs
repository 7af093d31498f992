//! The number type and the points that the moments are calculated from.
use vstd::prelude::*;

verus! {

/// The number type in which the moments are calculated.
///
/// Every operation is a function of its operands alone: the `spec_*`
/// function of the same name says which value it yields, and the contracts
/// of this crate are stated over those functions. Nothing is assumed of how
/// the operations relate to each other, so a type that rounds may implement
/// the trait.
pub trait Scalar: Copy + Sized {
    /// `self + rhs` as this type computes it.
    spec fn spec_add(self, rhs: Self) -> Self;

    /// `self - rhs` as this type computes it.
    spec fn spec_sub(self, rhs: Self) -> Self;

    /// `self * rhs` as this type computes it.
    spec fn spec_mul(self, rhs: Self) -> Self;

    /// `self / rhs` as this type computes it.
    spec fn spec_div(self, rhs: Self) -> Self;

    /// `-self` as this type computes it.
    spec fn spec_neg(self) -> Self;

    /// `|self|` as this type computes it.
    spec fn spec_abs(self) -> Self;

    /// `self * a + b` as this type computes it in one step.
    spec fn spec_mul_add(self, a: Self, b: Self) -> Self;

    /// `self` raised to the power `n` as this type computes it.
    spec fn spec_powi(self, n: i32) -> Self;

    /// The magnitude of `self` with the sign of `sign`.
    spec fn spec_copysign(self, sign: Self) -> Self;

    /// The square root of `self` as this type computes it.
    spec fn spec_sqrt(self) -> Self;

    /// Whether this type orders `self` strictly above `rhs`.
    spec fn spec_gt(self, rhs: Self) -> bool;

    /// The smallest incremental step of this number type.
    const EPSILON: Self;

    /// The value of the scalar matching 0.
    const ZERO: Self;

    /// The value of the scalar matching 1.
    const ONE: Self;

    /// The value of the scalar matching 2.
    const TWO: Self;

    /// The value of the scalar matching 3.
    const THREE: Self;

    /// The value of the scalar matching 1/2.
    const F1_2: Self;

    /// The value of the scalar matching 1/6.
    const F1_6: Self;

    /// The value of the scalar matching 1/12.
    const F1_12: Self;

    /// The value of the scalar matching 1/20.
    const F1_20: Self;

    /// The value of the scalar matching 1/24.
    const F1_24: Self;

    /// The value of the scalar matching 1/60.
    const F1_60: Self;

    /// Computes `self + rhs`.
    fn add(self, rhs: Self) -> (r: Self)
        ensures
            r == self.spec_add(rhs),
    ;

    /// Computes `self - rhs`.
    fn sub(self, rhs: Self) -> (r: Self)
        ensures
            r == self.spec_sub(rhs),
    ;

    /// Computes `self * rhs`.
    fn mul(self, rhs: Self) -> (r: Self)
        ensures
            r == self.spec_mul(rhs),
    ;

    /// Computes `self / rhs`.
    fn div(self, rhs: Self) -> (r: Self)
        ensures
            r == self.spec_div(rhs),
    ;

    /// Computes `-self`.
    fn neg(self) -> (r: Self)
        ensures
            r == self.spec_neg(),
    ;

    /// Computes the absolute value of `self`.
    fn abs(self) -> (r: Self)
        ensures
            r == self.spec_abs(),
    ;

    /// Fused multiply-add: computes `(self * a) + b` in one step.
    fn mul_add(self, a: Self, b: Self) -> (r: Self)
        ensures
            r == self.spec_mul_add(a, b),
    ;

    /// Raises a number to an integer power.
    fn powi(self, n: i32) -> (r: Self)
        ensures
            r == self.spec_powi(n),
    ;

    /// Returns a number composed of the magnitude of `self` and the sign of `sign`.
    fn copysign(self, sign: Self) -> (r: Self)
        ensures
            r == self.spec_copysign(sign),
    ;

    /// Calculates the square root.
    fn sqrt(self) -> (r: Self)
        ensures
            r == self.spec_sqrt(),
    ;

    /// Whether `self` is strictly greater than `rhs`.
    fn gt(self, rhs: Self) -> (r: bool)
        ensures
            r == self.spec_gt(rhs),
    ;
}

/// A generalization over different possible representations of points.
/// Implementing this trait on custom structs ensures their seamless usage with this crate.
pub trait Point<S: Scalar> {
    /// The position that the point stands for.
    spec fn position(&self) -> (S, S);

    /// The x position of the point in the required resolution.
    fn x(&self) -> (r: S)
        ensures
            r == self.position().0,
    ;

    /// The y position of the point in the required resolution.
    fn y(&self) -> (r: S)
        ensures
            r == self.position().1,
    ;
}

impl<S: Scalar> Point<S> for (S, S) {
    open spec fn position(&self) -> (S, S) {
        *self
    }

    #[inline(always)]
    fn x(&self) -> S {
        self.0
    }

    #[inline(always)]
    fn y(&self) -> S {
        self.1
    }
}

impl<S: Scalar> Point<S> for [S; 2] {
    open spec fn position(&self) -> (S, S) {
        (self@[0], self@[1])
    }

    #[inline(always)]
    fn x(&self) -> S {
        self[0]
    }

    #[inline(always)]
    fn y(&self) -> S {
        self[1]
    }
}

} // verus!
