//! Vectors of three scalars, and the algebra on them.

use crate::scalar::Scalar;
use vstd::prelude::*;

verus! {

/// A vector, a point or a colour: three scalars.
#[derive(Clone, Copy, Debug, PartialEq)]
pub struct Vec3<S> {
    pub x: S,
    pub y: S,
    pub z: S,
}

/// The decimal digits of `n`, most significant first, without leading zeros.
pub open spec fn decimal(n: nat) -> Seq<char>
    decreases n,
{
    if n < 10 {
        seq![((n + 48) as u8) as char]
    } else {
        decimal(n / 10).push((((n % 10) + 48) as u8) as char)
    }
}

/// One line of a plain-text pixmap: three numbers in decimal, a blank between
/// them, and a line feed.
pub open spec fn pixmap_line(r: u32, g: u32, b: u32) -> Seq<char> {
    decimal(r as nat) + seq![' '] + decimal(g as nat) + seq![' '] + decimal(b as nat) + seq!['\n']
}

/// Formats three numbers with `format!`, which writes an unsigned integer
/// through `Display` as its decimal digits without sign, padding or leading
/// zeros.
#[verifier::external_body]
fn format_pixmap_line(r: u32, g: u32, b: u32) -> (line: String)
    ensures
        line@ == pixmap_line(r, g, b),
{
    format!("{} {} {}\n", r, g, b)
}

impl<S: Scalar> Vec3<S> {
    /// The vector with the components `x`, `y` and `z`.
    pub fn new(x: S, y: S, z: S) -> (r: Self)
        ensures
            r.x == x,
            r.y == y,
            r.z == z,
    {
        Vec3 { x, y, z }
    }

    /// The sum of the squares of the components, added from `x` to `z`.
    pub open spec fn spec_lenght_squared(&self) -> S {
        self.x.mul(self.x).add(self.y.mul(self.y)).add(self.z.mul(self.z))
    }

    /// The Euclidean length.
    pub open spec fn spec_lenght(&self) -> S {
        self.lenght_squared().sqrt()
    }

    /// The scalar product, added from `x` to `z`.
    pub open spec fn spec_dot(a: &Self, b: &Self) -> S {
        a.x.mul(b.x).add(a.y.mul(b.y)).add(a.z.mul(b.z))
    }

    /// The vector product.
    pub open spec fn spec_cross(a: &Self, b: &Self) -> Self {
        Vec3 {
            x: a.y.mul(b.z).sub(a.z.mul(b.y)),
            y: a.z.mul(b.x).sub(a.x.mul(b.z)),
            z: a.x.mul(b.y).sub(a.y.mul(b.x)),
        }
    }

    /// The sum, component by component.
    pub open spec fn spec_add(self, other: Self) -> Self {
        Vec3 { x: self.x.add(other.x), y: self.y.add(other.y), z: self.z.add(other.z) }
    }

    /// The difference, component by component.
    pub open spec fn spec_sub(self, other: Self) -> Self {
        Vec3 { x: self.x.sub(other.x), y: self.y.sub(other.y), z: self.z.sub(other.z) }
    }

    /// Every component multiplied by `factor`.
    pub open spec fn spec_mul(self, factor: S) -> Self {
        Vec3 { x: self.x.mul(factor), y: self.y.mul(factor), z: self.z.mul(factor) }
    }

    /// Every component multiplied by the inverse of `divisor`.
    pub open spec fn spec_div(self, divisor: S) -> Self {
        self.mul(S::from_usize(1).div(divisor))
    }

    /// Every component negated.
    pub open spec fn spec_neg(self) -> Self {
        Vec3 { x: self.x.neg(), y: self.y.neg(), z: self.z.neg() }
    }

    /// The vector divided by its length.
    pub open spec fn spec_normalize(&self) -> Self {
        self.div(self.lenght())
    }

    /// The vector as a colour without excess: where a channel is above one,
    /// all three are scaled so that the largest becomes one.
    pub open spec fn spec_scaled_to_unit(&self) -> Self {
        let max = self.x.max(self.y.max(self.z));
        if S::from_usize(1).lt(max) {
            self.mul(S::from_usize(1).div(max))
        } else {
            *self
        }
    }

    /// A channel of a colour as a number from 0 to 255: the value is cut to
    /// the range from zero to one, multiplied by 255, and its fraction dropped.
    pub open spec fn spec_channel_level(value: S) -> u32 {
        value.min(S::from_usize(1)).max(S::from_usize(0)).mul(S::from_usize(255)).to_u32()
    }

    /// The Euclidean length.
    #[verifier::when_used_as_spec(spec_lenght)]
    pub fn lenght(&self) -> (r: S)
        ensures
            r == self.spec_lenght(),
    {
        self.lenght_squared().sqrt()
    }

    /// The sum of the squares of the components, added from `x` to `z`.
    #[verifier::when_used_as_spec(spec_lenght_squared)]
    pub fn lenght_squared(&self) -> (r: S)
        ensures
            r == self.spec_lenght_squared(),
    {
        self.x.mul(self.x).add(self.y.mul(self.y)).add(self.z.mul(self.z))
    }

    /// The scalar product, added from `x` to `z`.
    #[verifier::when_used_as_spec(spec_dot)]
    pub fn dot(a: &Self, b: &Self) -> (r: S)
        ensures
            r == Self::spec_dot(a, b),
    {
        a.x.mul(b.x).add(a.y.mul(b.y)).add(a.z.mul(b.z))
    }

    /// The vector product.
    #[verifier::when_used_as_spec(spec_cross)]
    pub fn cross(a: &Self, b: &Self) -> (r: Self)
        ensures
            r == Self::spec_cross(a, b),
    {
        Vec3 {
            x: a.y.mul(b.z).sub(a.z.mul(b.y)),
            y: a.z.mul(b.x).sub(a.x.mul(b.z)),
            z: a.x.mul(b.y).sub(a.y.mul(b.x)),
        }
    }

    /// The vector divided by its length.
    #[verifier::when_used_as_spec(spec_normalize)]
    pub fn normalize(&self) -> (r: Self)
        ensures
            r == self.spec_normalize(),
    {
        self.div(self.lenght())
    }

    /// The sum, component by component.
    #[verifier::when_used_as_spec(spec_add)]
    pub fn add(self, other: Self) -> (r: Self)
        ensures
            r == self.spec_add(other),
    {
        Vec3 { x: self.x.add(other.x), y: self.y.add(other.y), z: self.z.add(other.z) }
    }

    /// The difference, component by component.
    #[verifier::when_used_as_spec(spec_sub)]
    pub fn sub(self, other: Self) -> (r: Self)
        ensures
            r == self.spec_sub(other),
    {
        Vec3 { x: self.x.sub(other.x), y: self.y.sub(other.y), z: self.z.sub(other.z) }
    }

    /// Every component multiplied by `factor`.
    #[verifier::when_used_as_spec(spec_mul)]
    pub fn mul(self, factor: S) -> (r: Self)
        ensures
            r == self.spec_mul(factor),
    {
        Vec3 { x: self.x.mul(factor), y: self.y.mul(factor), z: self.z.mul(factor) }
    }

    /// Every component multiplied by the inverse of `divisor`.
    #[verifier::when_used_as_spec(spec_div)]
    pub fn div(self, divisor: S) -> (r: Self)
        ensures
            r == self.spec_div(divisor),
    {
        self.mul(S::from_usize(1).div(divisor))
    }

    /// Every component negated.
    #[verifier::when_used_as_spec(spec_neg)]
    pub fn neg(self) -> (r: Self)
        ensures
            r == self.spec_neg(),
    {
        Vec3 { x: self.x.neg(), y: self.y.neg(), z: self.z.neg() }
    }

    /// The colour as a line of a plain-text pixmap: the three channels as
    /// numbers from 0 to 255.
    pub fn get_color(&self) -> (line: String)
        ensures
            line@ == pixmap_line(
                Self::spec_channel_level(self.spec_scaled_to_unit().x),
                Self::spec_channel_level(self.spec_scaled_to_unit().y),
                Self::spec_channel_level(self.spec_scaled_to_unit().z),
            ),
    {
        let one = S::from_usize(1);
        let zero = S::from_usize(0);
        let full = S::from_usize(255);
        let max = self.x.max(self.y.max(self.z));
        let mut value = *self;
        if one.lt(max) {
            value = self.mul(one.div(max));
        }
        let x = value.x.min(one).max(zero).mul(full);
        let y = value.y.min(one).max(zero).mul(full);
        let z = value.z.min(one).max(zero).mul(full);
        format_pixmap_line(x.to_u32(), y.to_u32(), z.to_u32())
    }
}

/// `a + b` is the sum, component by component.
impl<S: Scalar> core::ops::Add for Vec3<S> {
    type Output = Vec3<S>;

    fn add(self, other: Vec3<S>) -> (r: Vec3<S>) {
        Vec3 { x: self.x.add(other.x), y: self.y.add(other.y), z: self.z.add(other.z) }
    }
}

impl<S: Scalar> vstd::std_specs::ops::AddSpecImpl for Vec3<S> {
    open spec fn obeys_add_spec() -> bool {
        true
    }

    open spec fn add_req(self, other: Vec3<S>) -> bool {
        true
    }

    open spec fn add_spec(self, other: Vec3<S>) -> Vec3<S> {
        self.spec_add(other)
    }
}

/// `a - b` is the difference, component by component.
impl<S: Scalar> core::ops::Sub for Vec3<S> {
    type Output = Vec3<S>;

    fn sub(self, other: Vec3<S>) -> (r: Vec3<S>) {
        Vec3 { x: self.x.sub(other.x), y: self.y.sub(other.y), z: self.z.sub(other.z) }
    }
}

impl<S: Scalar> vstd::std_specs::ops::SubSpecImpl for Vec3<S> {
    open spec fn obeys_sub_spec() -> bool {
        true
    }

    open spec fn sub_req(self, other: Vec3<S>) -> bool {
        true
    }

    open spec fn sub_spec(self, other: Vec3<S>) -> Vec3<S> {
        self.spec_sub(other)
    }
}

/// `a * k` multiplies every component by the scalar `k`.
impl<S: Scalar> core::ops::Mul<S> for Vec3<S> {
    type Output = Vec3<S>;

    fn mul(self, other: S) -> (r: Vec3<S>) {
        Vec3 { x: self.x.mul(other), y: self.y.mul(other), z: self.z.mul(other) }
    }
}

impl<S: Scalar> vstd::std_specs::ops::MulSpecImpl<S> for Vec3<S> {
    open spec fn obeys_mul_spec() -> bool {
        true
    }

    open spec fn mul_req(self, other: S) -> bool {
        true
    }

    open spec fn mul_spec(self, other: S) -> Vec3<S> {
        self.spec_mul(other)
    }
}

/// `a / k` multiplies every component by the inverse of the scalar `k`.
impl<S: Scalar> core::ops::Div<S> for Vec3<S> {
    type Output = Vec3<S>;

    fn div(self, other: S) -> (r: Vec3<S>) {
        let inverse = S::from_usize(1).div(other);
        Vec3 { x: self.x.mul(inverse), y: self.y.mul(inverse), z: self.z.mul(inverse) }
    }
}

impl<S: Scalar> vstd::std_specs::ops::DivSpecImpl<S> for Vec3<S> {
    open spec fn obeys_div_spec() -> bool {
        true
    }

    open spec fn div_req(self, other: S) -> bool {
        true
    }

    open spec fn div_spec(self, other: S) -> Vec3<S> {
        self.spec_div(other)
    }
}

/// `-a` negates every component.
impl<S: Scalar> core::ops::Neg for Vec3<S> {
    type Output = Vec3<S>;

    fn neg(self) -> (r: Vec3<S>) {
        Vec3 { x: self.x.neg(), y: self.y.neg(), z: self.z.neg() }
    }
}

impl<S: Scalar> vstd::std_specs::ops::NegSpecImpl for Vec3<S> {
    open spec fn obeys_neg_spec() -> bool {
        true
    }

    open spec fn neg_req(self) -> bool {
        true
    }

    open spec fn neg_spec(self) -> Vec3<S> {
        self.spec_neg()
    }
}

} // verus!
