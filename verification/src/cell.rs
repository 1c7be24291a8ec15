//! Board coordinates and the four directional steps.

use vstd::prelude::*;

verus! {

/// The board's width in cells.
pub const SCREEN_WIDTH: i32 = 48;

/// The board's height in cells.
pub const SCREEN_HEIGHT: i32 = 48;

/// The way the snake is heading. `Static` is the heading of a snake that has
/// not been steered yet.
#[derive(Clone, Copy, Debug, PartialEq, Eq, Structural)]
pub enum Dir {
    Static,
    Left,
    Right,
    Up,
    Down,
}

impl Dir {
    /// The heading that undoes a step made with this one.
    pub open spec fn opposite(self) -> Dir {
        match self {
            Dir::Static => Dir::Static,
            Dir::Left => Dir::Right,
            Dir::Right => Dir::Left,
            Dir::Up => Dir::Down,
            Dir::Down => Dir::Up,
        }
    }
}

/// A board coordinate over the mathematical integers: what a [`Cell`] stands
/// for in contracts.
pub struct Spot {
    pub x: int,
    pub y: int,
}

impl Spot {
    /// One step in the heading `Left`. On this board that is towards larger
    /// `x`: the names of the horizontal steps are mirrored.
    pub open spec fn left(self) -> Spot {
        Spot { x: self.x + 1, y: self.y }
    }

    /// One step in the heading `Right`, towards smaller `x`.
    pub open spec fn right(self) -> Spot {
        Spot { x: self.x - 1, y: self.y }
    }

    /// One step in the heading `Up`, towards smaller `y`.
    pub open spec fn up(self) -> Spot {
        Spot { x: self.x, y: self.y - 1 }
    }

    /// One step in the heading `Down`, towards larger `y`.
    pub open spec fn down(self) -> Spot {
        Spot { x: self.x, y: self.y + 1 }
    }

    /// One step in the heading `dir`; `Static` stays in place.
    pub open spec fn step(self, dir: Dir) -> Spot {
        match dir {
            Dir::Static => self,
            Dir::Left => self.left(),
            Dir::Right => self.right(),
            Dir::Up => self.up(),
            Dir::Down => self.down(),
        }
    }

    /// Both coordinates are values of `i32`, so that a [`Cell`] can hold them.
    pub open spec fn fits(self) -> bool {
        i32::MIN <= self.x <= i32::MAX && i32::MIN <= self.y <= i32::MAX
    }

    /// The surface coordinates of the 2 x 2 block that shows this spot fit
    /// `i32`.
    pub open spec fn drawable(self) -> bool {
        &&& i32::MIN <= 2 * self.x && 2 * self.x + 1 <= i32::MAX
        &&& i32::MIN <= 2 * self.y && 2 * self.y + 1 <= i32::MAX
    }

    /// The `i`-th of the four surface positions that show this spot. Each
    /// cell is drawn two positions wide and two high, and the four are
    /// counted row by row.
    pub open spec fn pixel(self, i: int) -> (int, int) {
        (2 * self.x + i % 2, 2 * self.y + i / 2)
    }
}

/// One discrete board coordinate.
#[derive(Clone, Copy, Debug, PartialEq, Eq, Structural)]
pub struct Cell {
    pub x: i32,
    pub y: i32,
}

impl View for Cell {
    type V = Spot;

    open spec fn view(&self) -> Spot {
        Spot { x: self.x as int, y: self.y as int }
    }
}

impl Cell {
    pub fn new(x: i32, y: i32) -> (cell: Cell)
        ensures
            cell.x == x,
            cell.y == y,
    {
        Cell { x: x, y: y }
    }

    /// The cell one step from `curr` in the heading `Right`: `x` is one less.
    pub fn right(curr: Cell) -> (cell: Cell)
        requires
            curr@.right().fits(),
        ensures
            cell@ == curr@.right(),
    {
        Cell::new(curr.x - 1, curr.y)
    }

    /// The cell one step from `curr` in the heading `Left`: `x` is one more.
    pub fn left(curr: Cell) -> (cell: Cell)
        requires
            curr@.left().fits(),
        ensures
            cell@ == curr@.left(),
    {
        Cell::new(curr.x + 1, curr.y)
    }

    /// The cell one step from `curr` in the heading `Up`: `y` is one less.
    pub fn up(curr: Cell) -> (cell: Cell)
        requires
            curr@.up().fits(),
        ensures
            cell@ == curr@.up(),
    {
        Cell::new(curr.x, curr.y - 1)
    }

    /// The cell one step from `curr` in the heading `Down`: `y` is one more.
    pub fn down(curr: Cell) -> (cell: Cell)
        requires
            curr@.down().fits(),
        ensures
            cell@ == curr@.down(),
    {
        Cell::new(curr.x, curr.y + 1)
    }

    /// Whether the cell can be drawn: whether [`Cell::pixel_block`] can be
    /// called on it.
    pub fn is_drawable(&self) -> (ok: bool)
        ensures
            ok == self@.drawable(),
    {
        let low: i32 = i32::MIN / 2;
        let high: i32 = i32::MAX / 2;
        low <= self.x && self.x <= high && low <= self.y && self.y <= high
    }

    /// The surface positions at which this cell is drawn, as `(x, y)` pairs.
    pub fn pixel_block(&self) -> (block: [(i32, i32); 4])
        requires
            self@.drawable(),
        ensures
            forall|i: int|
                0 <= i < 4 ==> (#[trigger] block@[i]).0 == self@.pixel(i).0 && block@[i].1
                    == self@.pixel(i).1,
    {
        let x_pixel: i32 = 2 * self.x;
        let y_pixel: i32 = 2 * self.y;
        [
            (x_pixel, y_pixel),
            (x_pixel + 1, y_pixel),
            (x_pixel, y_pixel + 1),
            (x_pixel + 1, y_pixel + 1),
        ]
    }
}

/// A step and then a step in the opposite heading lead back to where one
/// started, whatever the spot and the heading.
pub proof fn lemma_step_and_back(spot: Spot, dir: Dir)
    ensures
        spot.step(dir).step(dir.opposite()) == spot,
{
}

} // verus!
