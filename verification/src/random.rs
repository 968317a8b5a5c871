//! The source of chance: the random number generator of bracket-lib.

use vstd::prelude::*;
use bracket_lib::random::RandomNumberGenerator;

verus! {

/// Makes `RandomNumberGenerator` of bracket-lib known as a type of which
/// nothing can be seen from here.
#[verifier::external_type_specification]
#[verifier::external_body]
pub struct ExRandomNumberGenerator(RandomNumberGenerator);

/// `RandomNumberGenerator::new` makes a generator from a seed that the
/// operating system supplies. Trusted: it returns; nothing is claimed of the
/// generator.
pub assume_specification[ RandomNumberGenerator::new ]() -> RandomNumberGenerator;

/// Calls `RandomNumberGenerator::range`, which draws a number between `min`
/// and `max`. Trusted: for `min < max` the number drawn is at least `min` and
/// less than `max`. Which one it is depends on the generator, so no more is
/// said of it.
#[verifier::external_body]
pub(crate) fn draw_between(random: &mut RandomNumberGenerator, min: i32, max: i32) -> (n: i32)
    requires
        min < max,
    ensures
        min <= n < max,
{
    random.range(min, max)
}

} // verus!
