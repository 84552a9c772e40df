//! Random draws for the simulated stages of the experiments.

use vstd::prelude::*;
use rand::rngs::ThreadRng;

verus! {

#[verifier::external_type_specification]
#[verifier::external_body]
pub struct ExThreadRng(rand::rngs::ThreadRng);

/// Calls `rand::thread_rng`: the thread-local generator, seeded by the system.
/// Nothing is claimed of it.
#[verifier::external_body]
fn new_rng() -> ThreadRng {
    rand::thread_rng()
}

/// Calls `rand::Rng::gen_range` with the range `0..=upper`, which is never
/// empty. The contract claims only that the draw lies in the range; which value
/// comes out rests on chance.
#[verifier::external_body]
fn draw_up_to(rng: &mut ThreadRng, upper: u64) -> (r: u64)
    ensures
        r <= upper,
{
    rand::Rng::gen_range(rng, 0..=upper)
}

/// A random number from `0` to `upper`, both included, drawn from the
/// thread-local generator.
pub fn random_up_to(upper: u64) -> (r: u64)
    ensures
        r <= upper,
{
    let mut rng = new_rng();
    draw_up_to(&mut rng, upper)
}

/// Whether a draw in `0..10000` falls under a probability given in basis points
/// (10000 = certain).
pub open spec fn hits(draw: u64, p_bp: u64) -> bool {
    draw < p_bp
}

/// Whether a draw in `0..10000` falls under a probability in basis points.
pub fn hit_from_draw(draw: u64, p_bp: u64) -> (hit: bool)
    ensures
        hit == hits(draw, p_bp),
{
    draw < p_bp
}

/// An event that happens with probability `p_bp` basis points: certain at 10000
/// or more, impossible at 0.
pub fn chance_bp(p_bp: u64) -> (hit: bool)
    ensures
        exists|draw: u64| draw <= 9999 && hit == hits(draw, p_bp),
        p_bp >= 10000 ==> hit,
        p_bp == 0 ==> !hit,
{
    let draw = random_up_to(9999);
    let hit = hit_from_draw(draw, p_bp);
    assert(draw <= 9999 && hit == hits(draw, p_bp));
    hit
}

} // verus!
