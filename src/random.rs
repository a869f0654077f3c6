use vstd::prelude::*;
use rand::Rng;
use crate::grid::Direction;

verus! {

/// Relies on rand's `thread_rng` and `Rng::gen_range(0..4)`: a draw from the
/// half-open range 0..4, uniform, seeded by the system in each process.
#[verifier::external_body]
fn random_index() -> (r: u32)
    ensures
        r < 4,
{
    rand::thread_rng().gen_range(0..4u32)
}

/// `n` directions, each drawn independently and uniformly from the four.
pub fn draw_directions(n: usize) -> (r: Vec<Direction>)
    ensures
        r@.len() == n,
{
    let mut r: Vec<Direction> = Vec::with_capacity(n);
    let mut i: usize = 0;
    while i < n
        invariant
            i <= n,
            r@.len() == i,
        decreases n - i,
    {
        let k = random_index();
        r.push(Direction::from_index(k));
        i = i + 1;
    }
    r
}

} // verus!
