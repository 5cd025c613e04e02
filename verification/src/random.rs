use vstd::prelude::*;
use rand::Rng;
use crate::game::GRID_MAX;

verus! {

/// Relies on rand::Rng::gen_range: a value drawn uniformly from the given
/// inclusive range. Nothing beyond the bounds can be promised of a random
/// draw.
#[verifier::external_body]
pub(crate) fn random_coord() -> (r: u32)
    ensures
        1 <= r <= GRID_MAX,
{
    rand::thread_rng().gen_range(1..=GRID_MAX)
}

} // verus!
