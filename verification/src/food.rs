//! The food: a single grid cell chosen at random, re-rolled after a meal.
use vstd::prelude::*;

use rand::Rng;

use crate::grid::HEIGHT;
use crate::grid::WIDTH;

verus! {

/// Relies on rand::Rng::gen_range on the range `0..bound`: it returns a
/// value drawn uniformly from that range, and panics only when the range is
/// empty. Nothing more than the bound can be promised of a random draw.
#[verifier::external_body]
fn random_below(bound: usize) -> (r: usize)
    requires
        bound >= 1,
    ensures
        r < bound,
{
    rand::thread_rng().gen_range(0..bound)
}

/// A single cell holding the food. It may coincide with a snake cell: the
/// draw is independent of the snake's occupancy.
pub struct Food {
    pub position: (usize, usize),
}

impl Food {
    /// A food cell is well formed when it lies inside the grid.
    pub open spec fn wf(self) -> bool {
        self.position.0 < WIDTH && self.position.1 < HEIGHT
    }

    /// Places the food at a uniformly random cell of the grid.
    pub fn new() -> (f: Food)
        ensures
            f.wf(),
    {
        let x = random_below(WIDTH);
        let y = random_below(HEIGHT);
        Food { position: (x, y) }
    }

    /// Re-rolls the food to a uniformly random cell of the grid; the new
    /// cell may equal the old one.
    pub fn spawn(&mut self)
        ensures
            final(self).wf(),
    {
        let x = random_below(WIDTH);
        let y = random_below(HEIGHT);
        self.position = (x, y);
    }
}

} // verus!
