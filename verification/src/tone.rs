//! From the sum of the colours that the rays of a pixel bring to the three
//! bytes of the pixel.

use crate::hitable::Hitable;
use crate::scalar::{OrderedScalar, Scalar};
use crate::scene::Scene;
use crate::vec3::Vec3;
use vstd::prelude::*;

verus! {

/// A number above 255 taken down to 255.
pub open spec fn spec_byte_of(level: u32) -> u8 {
    if level > 255 {
        255
    } else {
        level as u8
    }
}

/// A number above 255 taken down to 255.
#[verifier::when_used_as_spec(spec_byte_of)]
pub fn byte_of(level: u32) -> (r: u8)
    ensures
        r == spec_byte_of(level),
{
    if level > 255 {
        255
    } else {
        level as u8
    }
}

impl<S: Scalar, H: Hitable<S>> Scene<S, H> {
    /// The number of rays per pixel, as a scalar.
    pub open spec fn sample_count(&self) -> S {
        S::from_usize(self.rays_per_pixel)
    }

    /// A sum of colours without excess: where a channel is above the number
    /// of rays per pixel, all three are scaled so that the largest comes
    /// down to that number, which keeps the hue.
    pub open spec fn rescaled(&self, color: Vec3<S>) -> Vec3<S> {
        let max = color.x.max(color.y.max(color.z));
        if self.sample_count().lt(max) {
            color.mul(self.sample_count().div(max))
        } else {
            color
        }
    }

    /// `value` cut to the range from zero to the number of rays per pixel.
    pub open spec fn limited(&self, value: S) -> S {
        value.min(self.sample_count()).max(S::from_usize(0))
    }

    /// A sum of colours brought into range: rescaled, and each channel then
    /// cut to the range from zero to the number of rays per pixel.
    pub open spec fn spec_clamped(&self, color: Vec3<S>) -> Vec3<S> {
        let scaled = self.rescaled(color);
        Vec3 { x: self.limited(scaled.x), y: self.limited(scaled.y), z: self.limited(scaled.z) }
    }

    /// A channel of a sum of colours as a byte: 255 times the channel,
    /// divided by the number of rays per pixel, without its fraction, and no
    /// more than 255.
    pub open spec fn level(&self, value: S) -> u8 {
        byte_of(
            value.mul(S::from_usize(255)).mul(S::from_usize(1).div(self.sample_count())).to_u32(),
        )
    }

    /// The three bytes of a pixel whose rays brought the colours that add up
    /// to `color`.
    pub open spec fn spec_get_color(&self, color: Vec3<S>) -> Seq<u8> {
        let inside = self.spec_clamped(color);
        seq![self.level(inside.x), self.level(inside.y), self.level(inside.z)]
    }

    /// Brings a sum of colours into range: see [`Self::spec_clamped`].
    #[verifier::when_used_as_spec(spec_clamped)]
    pub fn clamped(&self, color: Vec3<S>) -> (r: Vec3<S>)
        ensures
            r == self.spec_clamped(color),
    {
        let zero = S::from_usize(0);
        let count = S::from_usize(self.rays_per_pixel);
        let max = color.x.max(color.y.max(color.z));
        let mut return_value = color;
        if count.lt(max) {
            return_value = return_value.mul(count.div(max));
        }
        Vec3 {
            x: return_value.x.min(count).max(zero),
            y: return_value.y.min(count).max(zero),
            z: return_value.z.min(count).max(zero),
        }
    }

    /// The bytes of a pixel, red, green and blue, from the sum of the
    /// colours that its rays brought.
    pub fn get_color(&self, color: Vec3<S>) -> (r: [u8; 3])
        ensures
            r@ == self.spec_get_color(color),
    {
        let full = S::from_usize(255);
        let scale = S::from_usize(1).div(S::from_usize(self.rays_per_pixel));
        let inside = self.clamped(color);
        let r = byte_of(inside.x.mul(full).mul(scale).to_u32());
        let g = byte_of(inside.y.mul(full).mul(scale).to_u32());
        let b = byte_of(inside.z.mul(full).mul(scale).to_u32());
        let bytes = [r, g, b];
        proof {
            assert(bytes@ =~= self.spec_get_color(color));
        }
        bytes
    }
}

impl<S: OrderedScalar, H: Hitable<S>> Scene<S, H> {
    /// With a well-behaved order, a value cut to the range lies in the
    /// range, and cutting it again changes nothing.
    pub proof fn lemma_limited_in_range(&self, value: S)
        ensures
            !self.sample_count().lt(self.limited(value)),
            !self.limited(value).lt(S::from_usize(0)),
            self.limited(self.limited(value)) == self.limited(value),
    {
        let zero = S::from_usize(0);
        let count = self.sample_count();
        let below = value.min(count);
        let inside = self.limited(value);
        S::lemma_min_picks(value, count);
        S::lemma_max_picks(below, zero);
        S::lemma_min_picks(inside, count);
        S::lemma_max_picks(inside.min(count), zero);
        S::lemma_lt_irreflexive(count);
        S::lemma_lt_irreflexive(zero);
        S::lemma_whole_not_negative(self.rays_per_pixel);
    }

    /// With a well-behaved order, tone mapping is idempotent: a colour that
    /// was brought into range stays as it is when it is brought into range
    /// again, and so maps to the same bytes as the colour it came from.
    pub proof fn lemma_tone_mapping_idempotent(&self, color: Vec3<S>)
        ensures
            self.clamped(self.clamped(color)) == self.clamped(color),
            self.spec_get_color(self.clamped(color)) == self.spec_get_color(color),
    {
        let count = self.sample_count();
        let scaled = self.rescaled(color);
        let inside = self.clamped(color);
        self.lemma_limited_in_range(scaled.x);
        self.lemma_limited_in_range(scaled.y);
        self.lemma_limited_in_range(scaled.z);
        S::lemma_max_picks(inside.y, inside.z);
        S::lemma_max_picks(inside.x, inside.y.max(inside.z));
        assert(self.rescaled(inside) == inside);
    }
}

} // verus!
