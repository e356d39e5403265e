//! Placing food on the grid, at a given cell or at a random one.

use vstd::prelude::*;
use crate::game::Game;
use crate::grid::Position;

verus! {

/// The cell index that a sample stands for on an axis of `bound` cells:
/// the sample, read as a fraction of the whole 32-bit range, times the
/// number of cells, rounded down.
pub open spec fn scaled(sample: u32, bound: i32) -> int {
    (sample * bound) / 0x1_0000_0000
}

/// Draws one 32-bit sample from `rand::random`, which reads the
/// thread-local generator of the `rand` crate. Nothing is claimed of the
/// value: every `u32` may come back, and two calls may differ.
#[verifier::external_body]
fn random_sample() -> (sample: u32) {
    rand::random::<u32>()
}

/// Maps a sample to a cell index on an axis of `bound` cells.
pub fn cell_from_sample(sample: u32, bound: i32) -> (cell: i32)
    requires
        bound > 0,
    ensures
        cell == scaled(sample, bound),
        0 <= cell < bound,
{
    assert(0 <= sample * bound < 0x1_0000_0000 * bound) by (nonlinear_arith)
        requires
            0 <= sample < 0x1_0000_0000,
            bound > 0,
    ;
    let product: u64 = sample as u64 * bound as u64;
    let cell: u64 = product / 0x1_0000_0000u64;
    cell as i32
}

impl Game {
    /// Puts a food item on `position`. Food already there, or elsewhere,
    /// stays.
    pub fn spawn_food(&mut self, position: Position)
        ensures
            final(self)@ == old(self)@.with_food(position),
    {
        self.foods.push(position);
    }

    /// Puts a food item on a randomly drawn cell of the grid. Food that
    /// was there before stays, so items can pile up unless they are eaten.
    pub fn food_spawner(&mut self)
        requires
            old(self).width > 0,
            old(self).height > 0,
        ensures
            final(self)@.foods.len() == old(self)@.foods.len() + 1,
            final(self)@ == old(self)@.with_food(final(self)@.foods.last()),
            final(self)@.foods.last().in_bounds(old(self).width, old(self).height),
    {
        let x = cell_from_sample(random_sample(), self.width);
        let y = cell_from_sample(random_sample(), self.height);
        self.spawn_food(Position { x, y });
    }
}

} // verus!
