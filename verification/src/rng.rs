use vstd::prelude::*;

verus! {

/// Relies on `rand::Rng::gen_range` on a `rand::rngs::ThreadRng`: for a
/// non-empty inclusive range `min..=max` it returns a uniformly distributed
/// integer within that range. Nothing beyond membership in the range can be
/// promised of a random draw.
#[verifier::external_body]
pub(crate) fn random_int(min: i32, max: i32) -> (r: i32)
    requires
        min <= max,
    ensures
        min <= r <= max,
{
    rand::Rng::gen_range(&mut rand::thread_rng(), min..=max)
}

} // verus!
