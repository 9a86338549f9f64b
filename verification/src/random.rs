//! The source of the game's random draws.

use vstd::prelude::*;
use rand::rngs::StdRng;
use rand::Rng;
use rand::SeedableRng;

verus! {

/// `rand::rngs::StdRng`, the generator behind every draw. Nothing is known
/// of its state.
#[verifier::external_type_specification]
#[verifier::external_body]
pub struct ExStdRng(rand::rngs::StdRng);

/// `SeedableRng::seed_from_u64` for `StdRng`: a generator whose stream is
/// fixed by `seed`. Nothing is claimed of the generator.
#[verifier::external_body]
fn seeded_generator(seed: u64) -> StdRng {
    StdRng::seed_from_u64(seed)
}

/// `Rng::gen_range` on `StdRng`: the draw is at least `low` and below
/// `high`. The call panics on an empty range, which `requires` leaves out.
#[verifier::external_body]
fn draw_in_range(generator: &mut StdRng, low: u64, high: u64) -> (drawn: u64)
    requires
        low < high,
    ensures
        low <= drawn < high,
{
    generator.gen_range(low, high)
}

/// An explicit pseudo-random source. Sources made from one seed give the
/// same draws; the contracts promise only the range of a draw.
pub struct RandomSource {
    generator: StdRng,
}

impl RandomSource {
    /// A source whose draws are fixed by `seed`.
    pub fn from_seed(seed: u64) -> RandomSource {
        RandomSource { generator: seeded_generator(seed) }
    }

    /// A draw from zero up to, but not including, `bound`.
    pub fn below(&mut self, bound: u64) -> (drawn: u64)
        requires
            bound > 0,
        ensures
            drawn < bound,
    {
        draw_in_range(&mut self.generator, 0, bound)
    }
}

} // verus!
