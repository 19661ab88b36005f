use vstd::prelude::*;
use bracket_random::prelude::RandomNumberGenerator;

verus! {

/// The shared pseudo-random generator, an outside type the core only draws
/// from; every draw goes through `roll_dice` below.
#[verifier::external_type_specification]
#[verifier::external_body]
pub struct ExRandomNumberGenerator(RandomNumberGenerator);

/// Relies on bracket_random's `RandomNumberGenerator::roll_dice`: the sum
/// of `n` uniform draws, each from 1 through `die_type` inclusive. The
/// result depends on the generator's hidden state, so only its range is
/// promised, of every outcome.
#[verifier::external_body]
pub(crate) fn roll_dice(rng: &mut RandomNumberGenerator, n: i32, die_type: i32) -> (r: i32)
    requires
        1 <= n,
        1 <= die_type,
        die_type < i32::MAX,
        n * die_type <= i32::MAX,
    ensures
        n <= r <= n * die_type,
{
    rng.roll_dice(n, die_type)
}

} // verus!
