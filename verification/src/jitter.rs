//! Where inside its pixel a ray goes.
//!
//! A picture is smoother when the rays through a pixel do not all go
//! through the same point of it. The points are placed by bits that a
//! [`JitterSource`] gives: random ones from [`ThreadJitter`], or the same
//! ones over and over from [`SteadyJitter`], which makes a picture that can
//! be told beforehand.

use rand::Rng;
use vstd::prelude::*;

verus! {

/// A source of the bits that place sample points inside pixels.
pub trait JitterSource {
    /// Whether `bits` may come at some draw from now on.
    spec fn may_give(&self, bits: u32) -> bool;

    /// Draws the next 32 bits. What a source may give never grows by a draw.
    fn next_bits(&mut self) -> (bits: u32)
        ensures
            old(self).may_give(bits),
            forall|later: u32| final(self).may_give(later) ==> old(self).may_give(later),
    ;
}

/// Whether `later` may give nothing that `earlier` may not give.
pub open spec fn narrows<J: JitterSource>(later: &J, earlier: &J) -> bool {
    forall|bits: u32| later.may_give(bits) ==> earlier.may_give(bits)
}

/// Draws 32 bits from the generator of the current thread, through
/// `rand::thread_rng` and `Rng::gen`. Any value may come back. The generator
/// is seeded from the operating system when a thread first asks for it, and
/// panics where no seed can be had.
#[verifier::external_body]
fn random_bits() -> u32 {
    rand::thread_rng().gen::<u32>()
}

/// The random number generator of the current thread. It may give any bits.
#[derive(Clone, Copy, Debug, Default)]
pub struct ThreadJitter;

impl JitterSource for ThreadJitter {
    open spec fn may_give(&self, bits: u32) -> bool {
        true
    }

    fn next_bits(&mut self) -> (bits: u32) {
        random_bits()
    }
}

/// A source that gives the same bits at every draw, so that every ray goes
/// through the same point of its pixel.
#[derive(Clone, Copy, Debug, PartialEq, Eq)]
pub struct SteadyJitter {
    pub bits: u32,
}

impl JitterSource for SteadyJitter {
    open spec fn may_give(&self, bits: u32) -> bool {
        bits == self.bits
    }

    fn next_bits(&mut self) -> (bits: u32)
        ensures
            bits == old(self).bits,
            final(self).bits == old(self).bits,
    {
        self.bits
    }
}

} // verus!
