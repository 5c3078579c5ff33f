//! The play area: its size and where the food lies.

use crate::game::BLOCK_SIZE;
use rand::Rng;
use vstd::prelude::*;

verus! {

#[derive(Clone, Copy, Debug, PartialEq, Eq, Structural)]
pub struct Environment {
    pub width: u32,
    pub height: u32,
    /// Position of the food. It means something only while the game says
    /// that food is present.
    pub food_x: i64,
    pub food_y: i64,
}

/// A draw from the thread-local generator of the `rand` crate,
/// `thread_rng().gen_range(0..limit)`: some number below `limit`. The call
/// panics on an empty range, which the precondition leaves out.
#[verifier::external_body]
fn random_below(limit: u32) -> (n: u32)
    requires
        limit > 0,
    ensures
        n < limit,
{
    rand::thread_rng().gen_range(0..limit)
}

impl Environment {
    /// Both sides are positive and a whole number of blocks long.
    pub open spec fn wf(&self) -> bool {
        &&& self.width > 0
        &&& self.height > 0
        &&& self.width as int % BLOCK_SIZE as int == 0
        &&& self.height as int % BLOCK_SIZE as int == 0
    }

    /// Number of grid columns.
    pub open spec fn cols(&self) -> int {
        self.width as int / BLOCK_SIZE as int
    }

    /// Number of grid rows.
    pub open spec fn rows(&self) -> int {
        self.height as int / BLOCK_SIZE as int
    }

    /// The food lies on a cell of the grid: inside the area and aligned to
    /// the blocks.
    pub open spec fn food_on_grid(&self) -> bool {
        &&& 0 <= self.food_x < self.width
        &&& 0 <= self.food_y < self.height
        &&& self.food_x as int % BLOCK_SIZE as int == 0
        &&& self.food_y as int % BLOCK_SIZE as int == 0
    }

    /// An area of the given size, with the food position zeroed.
    pub fn new(width: u32, height: u32) -> (e: Self)
        requires
            width > 0,
            height > 0,
            width as int % BLOCK_SIZE as int == 0,
            height as int % BLOCK_SIZE as int == 0,
        ensures
            e == (Environment { width, height, food_x: 0, food_y: 0 }),
            e.wf(),
    {
        Self { width, height, food_x: 0, food_y: 0 }
    }

    /// Puts the food on the cell in column `col` and row `row`, counted from
    /// zero.
    pub fn put_food(&mut self, col: u32, row: u32)
        ensures
            final(self).food_x == col * BLOCK_SIZE,
            final(self).food_y == row * BLOCK_SIZE,
            final(self).width == old(self).width,
            final(self).height == old(self).height,
            old(self).wf() && col < old(self).cols() && row < old(self).rows()
                ==> final(self).food_on_grid(),
    {
        self.food_x = col as i64 * BLOCK_SIZE;
        self.food_y = row as i64 * BLOCK_SIZE;
    }

    /// Puts the food on a cell of the grid picked at random. Whether the
    /// snake lies there is not looked at.
    pub fn add_food(&mut self)
        requires
            old(self).wf(),
        ensures
            final(self).width == old(self).width,
            final(self).height == old(self).height,
            final(self).food_on_grid(),
    {
        let max_x: u32 = self.width / (BLOCK_SIZE as u32);
        let max_y: u32 = self.height / (BLOCK_SIZE as u32);

        let new_x: u32 = random_below(max_x);
        let new_y: u32 = random_below(max_y);

        self.put_food(new_x, new_y);
    }
}

} // verus!
