use vstd::prelude::*;
use rand::Rng;
use crate::grid::{Coords, BOARD_WIDTH, BOARD_HEIGHT};

verus! {

/// Relies on rand::thread_rng and rand::Rng::gen_range: a value drawn from
/// `0..bound`, which gen_range rejects (panics on) only when it is empty.
#[verifier::external_body]
fn random_below(bound: usize) -> (r: usize)
    requires
        bound > 0,
    ensures
        r < bound,
{
    rand::thread_rng().gen_range(0..bound)
}

/// The single piece of food on a `width` by `height` field.
#[derive(Clone, Copy, Debug, PartialEq, Eq, Structural)]
pub struct Food {
    pub x: usize,
    pub y: usize,
    pub width: usize,
    pub height: usize,
}

impl Food {
    /// The field is non-empty and the food lies on it.
    pub open spec fn wf(&self) -> bool {
        &&& self.width > 0
        &&& self.height > 0
        &&& self.x < self.width
        &&& self.y < self.height
    }

    pub open spec fn position(&self) -> Coords {
        Coords { x: self.x, y: self.y }
    }

    /// Food at a random cell of the standard field.
    pub fn new() -> (f: Food)
        ensures
            f.wf(),
            f.width == BOARD_WIDTH,
            f.height == BOARD_HEIGHT,
    {
        Food::with_size(BOARD_WIDTH, BOARD_HEIGHT)
    }

    /// Food at a random cell of a `width` by `height` field.
    pub fn with_size(width: usize, height: usize) -> (f: Food)
        requires
            width > 0,
            height > 0,
        ensures
            f.wf(),
            f.width == width,
            f.height == height,
    {
        let mut f = Food { x: 0, y: 0, width, height };
        f.rand();
        f
    }

    /// Moves the food to a random cell of its field, which may be under the
    /// snake.
    pub fn rand(&mut self)
        requires
            old(self).width > 0,
            old(self).height > 0,
        ensures
            final(self).wf(),
            final(self).width == old(self).width,
            final(self).height == old(self).height,
    {
        let y: usize = random_below(self.height);
        let x: usize = random_below(self.width);
        self.x = x;
        self.y = y;
    }
}

} // verus!
