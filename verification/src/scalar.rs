//! The numbers the renderer computes with.
//!
//! The renderer never looks inside a number. It adds, multiplies, compares and
//! takes roots through the [`Scalar`] trait, so the same verified pipeline
//! runs on every number type that provides these operations.

use vstd::prelude::*;

verus! {

/// A number type with the arithmetic, the order and the elementary functions
/// that rendering needs.
///
/// Every operation is a function of its arguments alone: the executable
/// method returns exactly the value that the spec function of the same name
/// denotes. Nothing else is asked of the operations here; the laws of a
/// well-behaved order are those of [`OrderedScalar`].
pub trait Scalar: Sized + Copy + Send + Sync {
    /// The scalar that stands for the whole number `n`.
    spec fn spec_from_usize(n: usize) -> Self;

    /// The scalar that stands for the quotient `num / den`.
    spec fn spec_fraction(num: u32, den: u32) -> Self;

    /// The whole part of `self`, cut to the range of `u32`.
    spec fn spec_to_u32(self) -> u32;

    /// `self + rhs`.
    spec fn spec_add(self, rhs: Self) -> Self;

    /// `self - rhs`.
    spec fn spec_sub(self, rhs: Self) -> Self;

    /// `self * rhs`.
    spec fn spec_mul(self, rhs: Self) -> Self;

    /// `self / rhs`.
    spec fn spec_div(self, rhs: Self) -> Self;

    /// `-self`.
    spec fn spec_neg(self) -> Self;

    /// The square root of `self`.
    spec fn spec_sqrt(self) -> Self;

    /// The sine of the angle `self`, in radians.
    spec fn spec_sin(self) -> Self;

    /// The cosine of the angle `self`, in radians.
    spec fn spec_cos(self) -> Self;

    /// The tangent of the angle `self`, in radians.
    spec fn spec_tan(self) -> Self;

    /// `self` raised to the power `exponent`.
    spec fn spec_powf(self, exponent: Self) -> Self;

    /// Whether `self` is strictly below `rhs`.
    spec fn spec_lt(self, rhs: Self) -> bool;

    /// Whether `self` is below or equal to `rhs`.
    spec fn spec_le(self, rhs: Self) -> bool;

    /// The larger of `self` and `rhs`.
    spec fn spec_max(self, rhs: Self) -> Self;

    /// The smaller of `self` and `rhs`.
    spec fn spec_min(self, rhs: Self) -> Self;

    #[verifier::when_used_as_spec(spec_from_usize)]
    fn from_usize(n: usize) -> (r: Self)
        ensures
            r == Self::spec_from_usize(n),
    ;

    #[verifier::when_used_as_spec(spec_fraction)]
    fn fraction(num: u32, den: u32) -> (r: Self)
        ensures
            r == Self::spec_fraction(num, den),
    ;

    #[verifier::when_used_as_spec(spec_to_u32)]
    fn to_u32(self) -> (r: u32)
        ensures
            r == self.spec_to_u32(),
    ;

    #[verifier::when_used_as_spec(spec_add)]
    fn add(self, rhs: Self) -> (r: Self)
        ensures
            r == self.spec_add(rhs),
    ;

    #[verifier::when_used_as_spec(spec_sub)]
    fn sub(self, rhs: Self) -> (r: Self)
        ensures
            r == self.spec_sub(rhs),
    ;

    #[verifier::when_used_as_spec(spec_mul)]
    fn mul(self, rhs: Self) -> (r: Self)
        ensures
            r == self.spec_mul(rhs),
    ;

    #[verifier::when_used_as_spec(spec_div)]
    fn div(self, rhs: Self) -> (r: Self)
        ensures
            r == self.spec_div(rhs),
    ;

    #[verifier::when_used_as_spec(spec_neg)]
    fn neg(self) -> (r: Self)
        ensures
            r == self.spec_neg(),
    ;

    #[verifier::when_used_as_spec(spec_sqrt)]
    fn sqrt(self) -> (r: Self)
        ensures
            r == self.spec_sqrt(),
    ;

    #[verifier::when_used_as_spec(spec_sin)]
    fn sin(self) -> (r: Self)
        ensures
            r == self.spec_sin(),
    ;

    #[verifier::when_used_as_spec(spec_cos)]
    fn cos(self) -> (r: Self)
        ensures
            r == self.spec_cos(),
    ;

    #[verifier::when_used_as_spec(spec_tan)]
    fn tan(self) -> (r: Self)
        ensures
            r == self.spec_tan(),
    ;

    #[verifier::when_used_as_spec(spec_powf)]
    fn powf(self, exponent: Self) -> (r: Self)
        ensures
            r == self.spec_powf(exponent),
    ;

    #[verifier::when_used_as_spec(spec_lt)]
    fn lt(self, rhs: Self) -> (r: bool)
        ensures
            r == self.spec_lt(rhs),
    ;

    #[verifier::when_used_as_spec(spec_le)]
    fn le(self, rhs: Self) -> (r: bool)
        ensures
            r == self.spec_le(rhs),
    ;

    #[verifier::when_used_as_spec(spec_max)]
    fn max(self, rhs: Self) -> (r: Self)
        ensures
            r == self.spec_max(rhs),
    ;

    #[verifier::when_used_as_spec(spec_min)]
    fn min(self, rhs: Self) -> (r: Self)
        ensures
            r == self.spec_min(rhs),
    ;
}

/// A scalar type whose comparisons behave as an order should: `lt` is a
/// strict weak order, `le` is its complement read backwards, and `max` and
/// `min` pick by `lt`.
pub trait OrderedScalar: Scalar {
    /// Nothing is below itself.
    proof fn lemma_lt_irreflexive(a: Self)
        ensures
            !a.lt(a),
    ;

    /// `lt` is transitive.
    proof fn lemma_lt_transitive(a: Self, b: Self, c: Self)
        requires
            a.lt(b),
            b.lt(c),
        ensures
            a.lt(c),
    ;

    /// Where `a` is not below `b` and `b` is not below `c`, `a` is not below `c`.
    proof fn lemma_lt_negatively_transitive(a: Self, b: Self, c: Self)
        requires
            !a.lt(b),
            !b.lt(c),
        ensures
            !a.lt(c),
    ;

    /// `a <= b` says that `b` is not below `a`.
    proof fn lemma_le_is_not_gt(a: Self, b: Self)
        ensures
            a.le(b) <==> !b.lt(a),
    ;

    /// `max` returns its second argument when the first is below it, else the first.
    proof fn lemma_max_picks(a: Self, b: Self)
        ensures
            a.max(b) == (if a.lt(b) { b } else { a }),
    ;

    /// `min` returns its second argument when that is below the first, else the first.
    proof fn lemma_min_picks(a: Self, b: Self)
        ensures
            a.min(b) == (if b.lt(a) { b } else { a }),
    ;

    /// Whole numbers are not negative.
    proof fn lemma_whole_not_negative(n: usize)
        ensures
            !Self::from_usize(n).lt(Self::from_usize(0)),
    ;
}

} // verus!
