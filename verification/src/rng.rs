//! Trusted boundary to the random number generator.
//!
//! All randomness in the pipeline flows through `rltk::RandomNumberGenerator`
//! (and the `rand` traits applied to its underlying stream). Each wrapper
//! states only what holds of every outcome; no result is pinned down, so all
//! logic built on these draws is verified for every value they can return.

use vstd::prelude::*;
use crate::geometry::Rect;
use rand::seq::IteratorRandom;
use rand::seq::SliceRandom;

verus! {

#[verifier::external_type_specification]
#[verifier::external_body]
pub struct ExRandomNumberGenerator(rltk::RandomNumberGenerator);

/// Relies on `rltk::RandomNumberGenerator::range`: the result is uniform in
/// `[min, max)`; the call panics when the range is empty.
#[verifier::external_body]
pub fn rng_range(rng: &mut rltk::RandomNumberGenerator, min: i32, max: i32) -> (r: i32)
    requires
        min < max,
    ensures
        min <= r < max,
{
    rng.range(min, max)
}

/// Relies on `rltk::RandomNumberGenerator::roll_dice`: the sum of `n` dice,
/// each uniform in `[1, die_type]`. The callee draws from `[1, die_type + 1)`,
/// so the die size must leave room for that increment.
#[verifier::external_body]
pub fn rng_roll_dice(rng: &mut rltk::RandomNumberGenerator, n: i32, die_type: i32) -> (r: i32)
    requires
        1 <= n,
        1 <= die_type < i32::MAX,
        n * die_type <= i32::MAX,
    ensures
        n <= r <= n * die_type,
{
    rng.roll_dice(n, die_type)
}

/// Relies on `rand::seq::SliceRandom::shuffle`, applied to the generator's
/// underlying stream: the slice is permuted in place.
#[verifier::external_body]
pub fn rng_shuffle_rects(rng: &mut rltk::RandomNumberGenerator, v: &mut Vec<Rect>)
    ensures
        final(v)@.len() == old(v)@.len(),
        final(v)@.to_multiset() == old(v)@.to_multiset(),
{
    v.shuffle(rng.get_rng());
}

/// Relies on `rand::seq::IteratorRandom::choose`, applied to the generator's
/// underlying stream: a uniform pick from `0..len`, `None` iff that range is
/// empty.
#[verifier::external_body]
pub fn rng_choose_index(rng: &mut rltk::RandomNumberGenerator, len: usize) -> (r: Option<usize>)
    ensures
        r is Some <==> len > 0,
        r is Some ==> r->0 < len,
{
    (0..len).choose(rng.get_rng())
}

} // verus!
