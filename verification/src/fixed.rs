//! Decimal fixed-point numbers.
//!
//! [`Fixed`] is a scalar that needs nothing but integers: it counts
//! millionths in a 64-bit integer. Its operations are defined over the
//! integers, so what the renderer computes with it is the same on every
//! machine.

use crate::scalar::{OrderedScalar, Scalar};
use vstd::prelude::*;

verus! {

/// How many units of a [`Fixed`] make one.
pub const SCALE: i64 = 1_000_000;

/// Half a turn, in millionths of a radian.
pub const PI: u64 = 3_141_593;

/// A quarter of a turn, in millionths of a radian.
pub const HALF_PI: u64 = 1_570_796;

/// Three quarters of a turn, in millionths of a radian.
pub const THREE_HALVES_PI: u64 = 4_712_389;

/// A full turn, in millionths of a radian.
pub const TWO_PI: u64 = 6_283_185;

/// How many binary places of the fraction of an exponent count.
pub const EXPONENT_BITS: u32 = 20;

/// A number with six decimal places: `raw` counts millionths.
///
/// The arithmetic saturates: a result beyond the range of `raw` is the
/// nearest number in the range. A product, a quotient and a root drop what
/// lies beyond the sixth decimal place.
#[derive(Clone, Copy, Debug, PartialEq, Eq)]
pub struct Fixed {
    pub raw: i64,
}

impl Fixed {
    /// The number with the raw value nearest to `value`.
    pub open spec fn saturated(value: int) -> Fixed {
        if value > i64::MAX {
            Fixed { raw: i64::MAX }
        } else if value < i64::MIN {
            Fixed { raw: i64::MIN }
        } else {
            Fixed { raw: value as i64 }
        }
    }

    /// `value` without its sign.
    pub open spec fn magnitude(value: int) -> int {
        if value < 0 {
            -value
        } else {
            value
        }
    }

    /// `numerator / denominator` for a positive denominator, rounded towards zero.
    pub open spec fn quotient(numerator: int, denominator: int) -> int {
        if numerator < 0 {
            -((-numerator) / denominator)
        } else {
            numerator / denominator
        }
    }

    /// Whether `root` is the whole part of the square root of `square`.
    pub open spec fn is_root(root: int, square: int) -> bool {
        0 <= root && root * root <= square < (root + 1) * (root + 1)
    }

    /// The whole part of the square root of `square`.
    pub open spec fn root(square: int) -> int {
        choose|root: int| Self::is_root(root, square)
    }

    /// The sine of an angle from zero to a quarter turn, by the first six
    /// terms of its power series, cut to the range from zero to one.
    pub open spec fn spec_sine_kernel(angle: Fixed) -> Fixed {
        let one = Fixed { raw: SCALE };
        let square = angle.mul(angle);
        let fifth = one.sub(square.div(Fixed { raw: 110_000_000 }));
        let fourth = one.sub(square.div(Fixed { raw: 72_000_000 }).mul(fifth));
        let third = one.sub(square.div(Fixed { raw: 42_000_000 }).mul(fourth));
        let second = one.sub(square.div(Fixed { raw: 20_000_000 }).mul(third));
        let first = one.sub(square.div(Fixed { raw: 6_000_000 }).mul(second));
        angle.mul(first).min(one).max(Fixed { raw: 0 })
    }

    /// The sine of an angle from zero to a full turn, given in millionths of
    /// a radian: the kernel at the angle folded into the first quarter.
    pub open spec fn spec_sine_of_turn(angle: u64) -> Fixed {
        if angle <= HALF_PI {
            Self::spec_sine_kernel(Fixed { raw: angle as i64 })
        } else if angle <= PI {
            Self::spec_sine_kernel(Fixed { raw: (PI - angle) as i64 })
        } else if angle <= THREE_HALVES_PI {
            Self::spec_sine_kernel(Fixed { raw: (angle - PI) as i64 }).neg()
        } else {
            Self::spec_sine_kernel(Fixed { raw: (TWO_PI - angle) as i64 }).neg()
        }
    }

    /// The cosine of an angle from zero to a full turn, given in millionths
    /// of a radian: the sine of what the angle lacks to a quarter turn.
    pub open spec fn spec_cosine_of_turn(angle: u64) -> Fixed {
        if angle <= HALF_PI {
            Self::spec_sine_kernel(Fixed { raw: (HALF_PI - angle) as i64 })
        } else if angle <= PI {
            Self::spec_sine_kernel(Fixed { raw: (angle - HALF_PI) as i64 }).neg()
        } else if angle <= THREE_HALVES_PI {
            Self::spec_sine_kernel(Fixed { raw: (THREE_HALVES_PI - angle) as i64 }).neg()
        } else {
            Self::spec_sine_kernel(Fixed { raw: (angle - THREE_HALVES_PI) as i64 })
        }
    }

    /// `product * base^exponent` for a whole exponent, by squaring: the
    /// exponent is read from its lowest binary digit up.
    pub open spec fn spec_power_whole(product: Fixed, base: Fixed, exponent: u64) -> Fixed
        decreases exponent,
    {
        if exponent == 0 {
            product
        } else {
            Self::spec_power_whole(
                if exponent % 2 == 1 {
                    product.mul(base)
                } else {
                    product
                },
                base.mul(base),
                exponent / 2,
            )
        }
    }

    /// `product * base^exponent` for an exponent below one, given in
    /// millionths, by roots: the exponent is read as a binary fraction of
    /// `bits` places, and each place that is set multiplies by the next
    /// square root of the base.
    pub open spec fn spec_power_fraction(product: Fixed, base: Fixed, exponent: u64, bits: u32) -> Fixed
        decreases bits,
    {
        if bits == 0 || exponent >= SCALE as u64 {
            product
        } else if 2 * exponent >= SCALE as u64 {
            Self::spec_power_fraction(
                product.mul(base.sqrt()),
                base.sqrt(),
                (2 * exponent - SCALE as u64) as u64,
                (bits - 1) as u32,
            )
        } else {
            Self::spec_power_fraction(product, base.sqrt(), (2 * exponent) as u64, (bits - 1) as u32)
        }
    }

    /// The number of `raw` millionths.
    pub fn new(raw: i64) -> (r: Fixed)
        ensures
            r.raw == raw,
    {
        Fixed { raw }
    }

    fn saturate(value: i128) -> (r: Fixed)
        ensures
            r == Self::saturated(value as int),
    {
        if value > i64::MAX as i128 {
            Fixed { raw: i64::MAX }
        } else if value < i64::MIN as i128 {
            Fixed { raw: i64::MIN }
        } else {
            Fixed { raw: value as i64 }
        }
    }

    fn divide(numerator: i128, denominator: i128) -> (r: i128)
        requires
            denominator > 0,
            numerator > i128::MIN,
        ensures
            r == Self::quotient(numerator as int, denominator as int),
    {
        if numerator < 0 {
            -((-numerator) / denominator)
        } else {
            numerator / denominator
        }
    }

    /// The raw value without its sign.
    fn unsigned(self) -> (r: u64)
        ensures
            r == Self::magnitude(self.raw as int),
    {
        if self.raw < 0 {
            (-(self.raw as i128)) as u64
        } else {
            self.raw as u64
        }
    }

    /// The whole part of the square root, by bisection.
    fn whole_root(square: u128) -> (r: u128)
        requires
            square < 0x10_0000_0000_0000_0000_0000,
        ensures
            Self::is_root(r as int, square as int),
            r == Self::root(square as int),
            r < 0x400_0000_0000,
    {
        let mut low: u128 = 0;
        let mut high: u128 = 0x400_0000_0000;
        while high - low > 1
            invariant
                low < high <= 0x400_0000_0000,
                low * low <= square < high * high,
            decreases high - low,
        {
            let middle: u128 = low + (high - low) / 2;
            assert(middle * middle <= 0x10_0000_0000_0000_0000_0000) by (nonlinear_arith)
                requires
                    middle <= 0x400_0000_0000,
            ;
            if middle * middle <= square {
                low = middle;
            } else {
                high = middle;
            }
        }
        proof {
            assert(Self::is_root(low as int, square as int));
            Self::lemma_root_is_unique(low as int, Self::root(square as int), square as int);
        }
        low
    }

    /// Only one number is the whole part of the square root of `square`.
    pub proof fn lemma_root_is_unique(a: int, b: int, square: int)
        requires
            Self::is_root(a, square),
            Self::is_root(b, square),
        ensures
            a == b,
    {
        assert(a == b) by (nonlinear_arith)
            requires
                0 <= a,
                a * a <= square < (a + 1) * (a + 1),
                0 <= b,
                b * b <= square < (b + 1) * (b + 1),
        ;
    }

    fn sine_kernel(angle: Fixed) -> (r: Fixed)
        ensures
            r == Self::spec_sine_kernel(angle),
            0 <= r.raw <= SCALE,
    {
        let one = Fixed { raw: SCALE };
        let square = angle.mul(angle);
        let fifth = one.sub(square.div(Fixed { raw: 110_000_000 }));
        let fourth = one.sub(square.div(Fixed { raw: 72_000_000 }).mul(fifth));
        let third = one.sub(square.div(Fixed { raw: 42_000_000 }).mul(fourth));
        let second = one.sub(square.div(Fixed { raw: 20_000_000 }).mul(third));
        let first = one.sub(square.div(Fixed { raw: 6_000_000 }).mul(second));
        angle.mul(first).min(one).max(Fixed { raw: 0 })
    }

    fn sine_of_turn(angle: u64) -> (r: Fixed)
        requires
            angle < TWO_PI,
        ensures
            r == Self::spec_sine_of_turn(angle),
            -SCALE <= r.raw <= SCALE,
    {
        if angle <= HALF_PI {
            Self::sine_kernel(Fixed { raw: angle as i64 })
        } else if angle <= PI {
            Self::sine_kernel(Fixed { raw: (PI - angle) as i64 })
        } else if angle <= THREE_HALVES_PI {
            Self::sine_kernel(Fixed { raw: (angle - PI) as i64 }).neg()
        } else {
            Self::sine_kernel(Fixed { raw: (TWO_PI - angle) as i64 }).neg()
        }
    }

    fn cosine_of_turn(angle: u64) -> (r: Fixed)
        requires
            angle < TWO_PI,
        ensures
            r == Self::spec_cosine_of_turn(angle),
            -SCALE <= r.raw <= SCALE,
    {
        if angle <= HALF_PI {
            Self::sine_kernel(Fixed { raw: (HALF_PI - angle) as i64 })
        } else if angle <= PI {
            Self::sine_kernel(Fixed { raw: (angle - HALF_PI) as i64 }).neg()
        } else if angle <= THREE_HALVES_PI {
            Self::sine_kernel(Fixed { raw: (THREE_HALVES_PI - angle) as i64 }).neg()
        } else {
            Self::sine_kernel(Fixed { raw: (angle - THREE_HALVES_PI) as i64 })
        }
    }

    fn power_whole(product: Fixed, base: Fixed, exponent: u64) -> (r: Fixed)
        ensures
            r == Self::spec_power_whole(product, base, exponent),
        decreases exponent,
    {
        if exponent == 0 {
            product
        } else {
            let next = if exponent % 2 == 1 {
                product.mul(base)
            } else {
                product
            };
            Self::power_whole(next, base.mul(base), exponent / 2)
        }
    }

    fn power_fraction(product: Fixed, base: Fixed, exponent: u64, bits: u32) -> (r: Fixed)
        ensures
            r == Self::spec_power_fraction(product, base, exponent, bits),
        decreases bits,
    {
        if bits == 0 || exponent >= SCALE as u64 {
            product
        } else if 2 * exponent >= SCALE as u64 {
            let root = base.sqrt();
            Self::power_fraction(product.mul(root), root, 2 * exponent - SCALE as u64, bits - 1)
        } else {
            Self::power_fraction(product, base.sqrt(), 2 * exponent, bits - 1)
        }
    }
}

impl Scalar for Fixed {
    open spec fn spec_from_usize(n: usize) -> Fixed {
        Self::saturated(n * SCALE)
    }

    /// The quotient with what lies beyond the sixth decimal place dropped.
    /// Over zero, zero gives zero and any other number the largest number.
    open spec fn spec_fraction(num: u32, den: u32) -> Fixed {
        if den != 0 {
            Fixed { raw: ((num * SCALE) / (den as int)) as i64 }
        } else if num != 0 {
            Fixed { raw: i64::MAX }
        } else {
            Fixed { raw: 0 }
        }
    }

    /// Zero for a negative number, and the largest `u32` for a number above it.
    open spec fn spec_to_u32(self) -> u32 {
        if self.raw <= 0 {
            0
        } else if self.raw / SCALE > u32::MAX {
            u32::MAX
        } else {
            (self.raw / SCALE) as u32
        }
    }

    open spec fn spec_add(self, rhs: Fixed) -> Fixed {
        Self::saturated(self.raw + rhs.raw)
    }

    open spec fn spec_sub(self, rhs: Fixed) -> Fixed {
        Self::saturated(self.raw - rhs.raw)
    }

    open spec fn spec_mul(self, rhs: Fixed) -> Fixed {
        Self::saturated(Self::quotient(self.raw * rhs.raw, SCALE as int))
    }

    /// A number divided by zero is the largest number with its sign, and
    /// zero divided by zero is zero.
    open spec fn spec_div(self, rhs: Fixed) -> Fixed {
        if rhs.raw > 0 {
            Self::saturated(Self::quotient(self.raw * SCALE, rhs.raw as int))
        } else if rhs.raw < 0 {
            Self::saturated(-Self::quotient(self.raw * SCALE, -rhs.raw))
        } else if self.raw > 0 {
            Fixed { raw: i64::MAX }
        } else if self.raw < 0 {
            Fixed { raw: i64::MIN }
        } else {
            Fixed { raw: 0 }
        }
    }

    open spec fn spec_neg(self) -> Fixed {
        Self::saturated(-self.raw)
    }

    /// The root of a negative number is zero.
    open spec fn spec_sqrt(self) -> Fixed {
        if self.raw <= 0 {
            Fixed { raw: 0 }
        } else {
            Fixed { raw: Self::root(self.raw * SCALE) as i64 }
        }
    }

    /// The sine of the angle without its full turns, with the sign of the angle.
    open spec fn spec_sin(self) -> Fixed {
        let turned = Self::spec_sine_of_turn((Self::magnitude(self.raw as int) % TWO_PI as int) as u64);
        if self.raw < 0 {
            turned.neg()
        } else {
            turned
        }
    }

    /// The cosine of the angle without its sign and its full turns.
    open spec fn spec_cos(self) -> Fixed {
        Self::spec_cosine_of_turn((Self::magnitude(self.raw as int) % TWO_PI as int) as u64)
    }

    /// The sine over the cosine.
    open spec fn spec_tan(self) -> Fixed {
        self.sin().div(self.cos())
    }

    /// The power of a positive base: the base to the whole part of the
    /// exponent, times the base to its fraction, and one over that for a
    /// negative exponent. Any number to the power zero is one, and another
    /// power of a base that is not positive is zero.
    open spec fn spec_powf(self, exponent: Fixed) -> Fixed {
        let one = Fixed { raw: SCALE };
        let size = Self::magnitude(exponent.raw as int);
        if exponent.raw == 0 {
            one
        } else if self.raw <= 0 {
            Fixed { raw: 0 }
        } else {
            let power = Self::spec_power_fraction(
                Self::spec_power_whole(one, self, (size / SCALE as int) as u64),
                self,
                (size % SCALE as int) as u64,
                EXPONENT_BITS,
            );
            if exponent.raw < 0 {
                one.div(power)
            } else {
                power
            }
        }
    }

    open spec fn spec_lt(self, rhs: Fixed) -> bool {
        self.raw < rhs.raw
    }

    open spec fn spec_le(self, rhs: Fixed) -> bool {
        self.raw <= rhs.raw
    }

    open spec fn spec_max(self, rhs: Fixed) -> Fixed {
        if self.raw < rhs.raw {
            rhs
        } else {
            self
        }
    }

    open spec fn spec_min(self, rhs: Fixed) -> Fixed {
        if rhs.raw < self.raw {
            rhs
        } else {
            self
        }
    }

    fn from_usize(n: usize) -> (r: Fixed) {
        Self::saturate(n as i128 * SCALE as i128)
    }

    fn fraction(num: u32, den: u32) -> (r: Fixed) {
        if den != 0 {
            Fixed { raw: (num as i64 * SCALE) / (den as i64) }
        } else if num != 0 {
            Fixed { raw: i64::MAX }
        } else {
            Fixed { raw: 0 }
        }
    }

    fn to_u32(self) -> (r: u32) {
        if self.raw <= 0 {
            0
        } else if self.raw / SCALE > u32::MAX as i64 {
            u32::MAX
        } else {
            (self.raw / SCALE) as u32
        }
    }

    fn add(self, rhs: Fixed) -> (r: Fixed) {
        Self::saturate(self.raw as i128 + rhs.raw as i128)
    }

    fn sub(self, rhs: Fixed) -> (r: Fixed) {
        Self::saturate(self.raw as i128 - rhs.raw as i128)
    }

    fn mul(self, rhs: Fixed) -> (r: Fixed) {
        assert(-0x4000_0000_0000_0000_0000_0000_0000_0000 <= self.raw * rhs.raw
            <= 0x4000_0000_0000_0000_0000_0000_0000_0000) by (nonlinear_arith)
            requires
                -0x8000_0000_0000_0000 <= self.raw <= 0x8000_0000_0000_0000,
                -0x8000_0000_0000_0000 <= rhs.raw <= 0x8000_0000_0000_0000,
        ;
        let wide: i128 = (self.raw as i128) * (rhs.raw as i128);
        Self::saturate(Self::divide(wide, SCALE as i128))
    }

    fn div(self, rhs: Fixed) -> (r: Fixed) {
        let wide: i128 = self.raw as i128 * SCALE as i128;
        assert(wide == self.raw * 1_000_000);
        if rhs.raw > 0 {
            Self::saturate(Self::divide(wide, rhs.raw as i128))
        } else if rhs.raw < 0 {
            Self::saturate(-Self::divide(wide, -(rhs.raw as i128)))
        } else if self.raw > 0 {
            Fixed { raw: i64::MAX }
        } else if self.raw < 0 {
            Fixed { raw: i64::MIN }
        } else {
            Fixed { raw: 0 }
        }
    }

    fn neg(self) -> (r: Fixed) {
        Self::saturate(-(self.raw as i128))
    }

    fn sqrt(self) -> (r: Fixed)
        ensures
            self.raw > 0 ==> Self::is_root(r.raw as int, self.raw * SCALE),
            self.raw <= 0 ==> r.raw == 0,
    {
        if self.raw <= 0 {
            Fixed { raw: 0 }
        } else {
            Fixed { raw: Self::whole_root(self.raw as u128 * SCALE as u128) as i64 }
        }
    }

    fn sin(self) -> (r: Fixed)
        ensures
            -SCALE <= r.raw <= SCALE,
    {
        let turned = Self::sine_of_turn(self.unsigned() % TWO_PI);
        if self.raw < 0 {
            turned.neg()
        } else {
            turned
        }
    }

    fn cos(self) -> (r: Fixed)
        ensures
            -SCALE <= r.raw <= SCALE,
    {
        Self::cosine_of_turn(self.unsigned() % TWO_PI)
    }

    fn tan(self) -> (r: Fixed) {
        self.sin().div(self.cos())
    }

    fn powf(self, exponent: Fixed) -> (r: Fixed) {
        let one = Fixed { raw: SCALE };
        let size: u64 = exponent.unsigned();
        if exponent.raw == 0 {
            one
        } else if self.raw <= 0 {
            Fixed { raw: 0 }
        } else {
            let power = Self::power_fraction(
                Self::power_whole(one, self, size / SCALE as u64),
                self,
                size % SCALE as u64,
                EXPONENT_BITS,
            );
            if exponent.raw < 0 {
                one.div(power)
            } else {
                power
            }
        }
    }

    fn lt(self, rhs: Fixed) -> (r: bool) {
        self.raw < rhs.raw
    }

    fn le(self, rhs: Fixed) -> (r: bool) {
        self.raw <= rhs.raw
    }

    fn max(self, rhs: Fixed) -> (r: Fixed) {
        if self.raw < rhs.raw {
            rhs
        } else {
            self
        }
    }

    fn min(self, rhs: Fixed) -> (r: Fixed) {
        if rhs.raw < self.raw {
            rhs
        } else {
            self
        }
    }
}

impl Fixed {
    /// Zero and one are what the whole numbers 0 and 1 stand for.
    pub proof fn lemma_zero_and_one()
        ensures
            Fixed::from_usize(0) == (Fixed { raw: 0 }),
            Fixed::from_usize(1) == (Fixed { raw: SCALE }),
            Fixed::from_usize(1).neg() == Fixed::saturated(-SCALE),
    {
    }

    /// Adding or subtracting zero changes nothing.
    pub proof fn lemma_zero_is_neutral(value: Fixed)
        ensures
            value.add(Fixed { raw: 0 }) == value,
            (Fixed { raw: 0 }).add(value) == value,
            value.sub(Fixed { raw: 0 }) == value,
    {
    }

    /// A product with zero is zero, a product with one is the other factor,
    /// and a product with minus one is the other factor negated.
    pub proof fn lemma_products_with_units(value: Fixed)
        ensures
            value.mul(Fixed { raw: 0 }) == (Fixed { raw: 0 }),
            (Fixed { raw: 0 }).mul(value) == (Fixed { raw: 0 }),
            value.mul(Fixed { raw: SCALE }) == value,
            (Fixed { raw: SCALE }).mul(value) == value,
            value.mul(Fixed::saturated(-SCALE)) == value.neg(),
            Fixed::saturated(-SCALE).mul(value) == value.neg(),
    {
        let v = value.raw as int;
        assert(v * 0 == 0 && 0 * v == 0 && v * 1_000_000 == 1_000_000 * v && v * (-1_000_000) == -(
        1_000_000 * v) && (-1_000_000) * v == -(1_000_000 * v)) by (nonlinear_arith);
    }

    /// The root of the square of a whole number of millionths is that number.
    pub proof fn lemma_root_of_square(root: int)
        requires
            0 <= root,
        ensures
            Self::root(root * root) == root,
    {
        assert(Self::is_root(root, root * root)) by (nonlinear_arith)
            requires
                0 <= root,
        ;
        Self::lemma_root_is_unique(root, Self::root(root * root), root * root);
    }

    /// The square of a whole number of thousandths has that number as its root.
    pub proof fn lemma_thousandths_have_exact_roots(value: Fixed)
        requires
            0 <= value.raw <= 3_000_000_000_000,
            value.raw % 1000 == 0,
        ensures
            value.mul(value).sqrt() == value,
    {
        let raw = value.raw as int;
        let thousandths = raw / 1000;
        assert(raw * raw == 1_000_000 * (thousandths * thousandths) && 0 <= thousandths * thousandths
            <= 9_000_000_000_000_000_000) by (nonlinear_arith)
            requires
                raw == 1000 * thousandths,
                0 <= thousandths <= 3_000_000_000,
        ;
        assert(value.mul(value).raw == thousandths * thousandths);
        if raw != 0 {
            assert(thousandths * thousandths > 0) by (nonlinear_arith)
                requires
                    thousandths > 0,
            ;
            Self::lemma_root_of_square(raw);
        }
    }

    /// The roots of zero and one are zero and one.
    pub proof fn lemma_roots_of_units()
        ensures
            (Fixed { raw: 0 }).sqrt() == (Fixed { raw: 0 }),
            (Fixed { raw: SCALE }).sqrt() == (Fixed { raw: SCALE }),
    {
        Self::lemma_root_of_square(SCALE as int);
    }

    /// At half a turn the sine is zero and the cosine is minus one.
    pub proof fn lemma_half_turn()
        ensures
            (Fixed { raw: PI as i64 }).sin() == (Fixed { raw: 0 }),
            (Fixed { raw: PI as i64 }).cos() == Fixed::saturated(-SCALE),
    {
        let zero = Fixed { raw: 0 };
        Self::lemma_products_with_units(zero);
        assert(Self::spec_sine_kernel(zero) == zero);
        let quarter = Fixed { raw: 1_570_797 };
        let one = Fixed { raw: SCALE };
        let square = quarter.mul(quarter);
        assert(square.raw == 2_467_403);
        let fifth = one.sub(square.div(Fixed { raw: 110_000_000 }));
        assert(fifth.raw == 977_570);
        let fourth = one.sub(square.div(Fixed { raw: 72_000_000 }).mul(fifth));
        assert(fourth.raw == 966_500);
        let third = one.sub(square.div(Fixed { raw: 42_000_000 }).mul(fourth));
        assert(third.raw == 943_222);
        let second = one.sub(square.div(Fixed { raw: 20_000_000 }).mul(third));
        assert(second.raw == 883_635);
        let first = one.sub(square.div(Fixed { raw: 6_000_000 }).mul(second));
        assert(first.raw == 636_621);
        assert(quarter.mul(first).raw == 1_000_002);
        assert(Self::spec_sine_kernel(quarter) == one);
    }
}

impl OrderedScalar for Fixed {
    proof fn lemma_lt_irreflexive(a: Fixed) {
    }

    proof fn lemma_lt_transitive(a: Fixed, b: Fixed, c: Fixed) {
    }

    proof fn lemma_lt_negatively_transitive(a: Fixed, b: Fixed, c: Fixed) {
    }

    proof fn lemma_le_is_not_gt(a: Fixed, b: Fixed) {
    }

    proof fn lemma_max_picks(a: Fixed, b: Fixed) {
    }

    proof fn lemma_min_picks(a: Fixed, b: Fixed) {
    }

    proof fn lemma_whole_not_negative(n: usize) {
    }
}

} // verus!
