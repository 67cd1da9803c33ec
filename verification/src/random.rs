//! The source of random numbers from which the target's place is drawn.

use bracket_lib::random::RandomNumberGenerator;
use vstd::prelude::*;

verus! {

/// The random number generator of bracket-lib. It is handed on as it is:
/// nothing inside it is looked at.
#[verifier::external_type_specification]
#[verifier::external_body]
pub struct ExRandomNumberGenerator(bracket_lib::random::RandomNumberGenerator);

/// `RandomNumberGenerator::new` of bracket-lib: a generator that takes its
/// seed from the operating system, or from the time of day where that
/// fails. Nothing is claimed of it.
pub assume_specification[ RandomNumberGenerator::new ]() -> (rng: RandomNumberGenerator);

/// `RandomNumberGenerator::range` of bracket-lib, at `i32`: a number from
/// `min` up to, but not including, `max`. Which one is not said, and two
/// calls may differ. The outside function panics on an empty range, so
/// `min < max` is asked for.
#[verifier::external_body]
pub(crate) fn draw(rng: &mut RandomNumberGenerator, min: i32, max: i32) -> (n: i32)
    requires
        min < max,
    ensures
        min <= n < max,
{
    rng.range(min, max)
}

} // verus!
