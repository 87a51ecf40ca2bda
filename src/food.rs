use vstd::prelude::*;
use crate::grid::{Arena, Coords};

verus! {

/// Relies on rand's `Rng::gen_range` on `thread_rng()`: a value in
/// `[low, high)`; it panics when `low >= high`.
#[verifier::external_body]
fn random_in(low: usize, high: usize) -> (r: usize)
    requires
        low < high,
    ensures
        low <= r < high,
{
    rand::Rng::gen_range(&mut rand::thread_rng(), low, high)
}

/// A random cell of the playing field for the next food. It may fall on the
/// snake.
pub fn spawn_food(arena: &Arena) -> (r: Coords)
    requires
        arena.wf(),
    ensures
        arena.contains(r),
{
    let x = random_in(0, arena.width);
    let y = random_in(1, arena.height);
    Coords { x, y }
}

} // verus!
