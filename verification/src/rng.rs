//! The pseudo-random generator that places the food.
//!
//! The generator is `oorandom`'s `Rand32`. Its state is opaque here; what
//! this module states of it is taken on trust from that crate. The generator
//! is deterministic: what it yields is named here, not computed.
//!
//! A generator is a position and an increment. Only with an odd increment
//! does it run through every position, and only then is every draw sure to
//! end: such a generator is called valid here.

use vstd::prelude::*;
use oorandom::Rand32;

verus! {

/// `oorandom::Rand32`, carried through as an opaque value.
#[verifier::external_type_specification]
#[verifier::external_body]
pub struct ExRand32(oorandom::Rand32);

/// The two words that `Rand32::state` reports of a generator: its position
/// in its sequence, and its increment.
pub uninterp spec fn state_of(rng: Rand32) -> (u64, u64);

/// `Rand32::state` returns the generator's position and increment, and
/// leaves the generator as it is.
pub assume_specification[ Rand32::state ](rng: &Rand32) -> (r: (u64, u64))
    ensures
        r == state_of(*rng),
;

/// Whether `rng` is a valid generator: one with an odd increment.
///
/// A generator restored from arbitrary words need not be valid, and a draw
/// from one that is not may never end.
pub open spec fn valid(rng: Rand32) -> bool {
    state_of(rng).1 % 2 == 1
}

/// Tells whether `rng` is a valid generator.
pub fn is_valid(rng: &Rand32) -> (r: bool)
    ensures
        r == valid(*rng),
{
    rng.state().1 % 2 == 1
}

/// The generator that `Rand32::new` builds from `seed`.
pub uninterp spec fn seeded(seed: u64) -> Rand32;

/// `Rand32::new` builds a generator from a seed, and from the seed alone:
/// equal seeds give equal generators. It gives every generator an odd
/// increment. Nothing else is claimed of it.
pub assume_specification[ Rand32::new ](seed: u64) -> (r: Rand32)
    ensures
        r == seeded(seed),
        state_of(r).1 % 2 == 1,
;

/// The number that `Rand32::rand_range` returns when called on generator
/// `rng` with the range `start..end`.
pub uninterp spec fn drawn(rng: Rand32, start: u32, end: u32) -> u32;

/// The generator that `Rand32::rand_range` leaves behind when called on
/// generator `rng` with the range `start..end`.
pub uninterp spec fn after_draw(rng: Rand32, start: u32, end: u32) -> Rand32;

/// `Rand32::rand_range` draws a number from a half-open range: at least
/// `range.start` and below `range.end`. The range must not be empty, else the
/// call may panic, and the generator's increment must be odd, else the call
/// may never return. The number drawn and the generator afterwards depend on
/// the generator before and on the range, and on nothing else; which number
/// that is, is not stated. A draw moves the generator's position and keeps
/// its increment.
pub assume_specification[ Rand32::rand_range ](
    rng: &mut Rand32,
    range: core::ops::Range<u32>,
) -> (r: u32)
    requires
        range.start < range.end,
        state_of(*old(rng)).1 % 2 == 1,
    ensures
        range.start <= r < range.end,
        r == drawn(*old(rng), range.start, range.end),
        *final(rng) == after_draw(*old(rng), range.start, range.end),
        state_of(*final(rng)).1 == state_of(*old(rng)).1,
;

} // verus!
