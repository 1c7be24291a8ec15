//! The food that the snake is after.

use crate::cell::{Cell, Spot};
use bracket_lib::random::RandomNumberGenerator;
use vstd::prelude::*;

verus! {

/// Food turns up in the square of this many cells a side that lies at the
/// board's origin, not anywhere on the board.
pub const FOOD_SPAN: i32 = 12;

impl Spot {
    /// The spot lies where food can turn up.
    pub open spec fn in_food_patch(self) -> bool {
        0 <= self.x < FOOD_SPAN && 0 <= self.y < FOOD_SPAN
    }
}

/// The random number generator of `bracket-lib`. Nothing is known of its
/// state.
#[verifier::external_type_specification]
#[verifier::external_body]
pub struct ExRandomNumberGenerator(bracket_lib::random::RandomNumberGenerator);

/// `RandomNumberGenerator::new`: a generator seeded from the system's source
/// of randomness. Nothing is claimed of it.
#[verifier::external_body]
fn fresh_generator() -> (rng: RandomNumberGenerator) {
    RandomNumberGenerator::new()
}

/// `RandomNumberGenerator::range`: the next random number of the generator
/// that is at least `min` and less than `max`. The call panics on an empty
/// range, hence the precondition. Which number comes is not claimed.
#[verifier::external_body]
fn draw(rng: &mut RandomNumberGenerator, min: i32, max: i32) -> (n: i32)
    requires
        min < max,
    ensures
        min <= n < max,
{
    rng.range(min, max)
}

/// A piece of food and the generator that places it.
pub struct Food {
    pub pos: Cell,
    pub pos_gen: RandomNumberGenerator,
}

impl View for Food {
    type V = Spot;

    /// Where the food lies.
    open spec fn view(&self) -> Spot {
        self.pos@
    }
}

impl Food {
    /// The food lies where food can turn up.
    pub open spec fn inv(&self) -> bool {
        self@.in_food_patch()
    }

    /// Food at a random spot of the food patch, with a generator of its own.
    pub fn new() -> (food: Food)
        ensures
            food.inv(),
    {
        let mut rng_new = fresh_generator();
        let x = draw(&mut rng_new, 0, FOOD_SPAN);
        let y = draw(&mut rng_new, 0, FOOD_SPAN);
        Food { pos: Cell::new(x, y), pos_gen: rng_new }
    }

    /// Moves the food to a random spot of the food patch, drawn from the
    /// generator that the food was made with. The new spot may be the old
    /// one, and may lie under the snake.
    pub fn respawn(&mut self)
        ensures
            final(self).inv(),
    {
        let x = draw(&mut self.pos_gen, 0, FOOD_SPAN);
        let y = draw(&mut self.pos_gen, 0, FOOD_SPAN);
        self.pos = Cell::new(x, y);
    }
}

} // verus!
