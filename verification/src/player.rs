//! The snake: its head, its tail and its heading.

use crate::cell::{Cell, Dir, Spot, SCREEN_HEIGHT, SCREEN_WIDTH};
use std::collections::VecDeque;
use vstd::prelude::*;

verus! {

/// A key press, as far as the game tells keys apart.
#[derive(Clone, Copy, Debug, PartialEq, Eq, Structural)]
pub enum Key {
    A,
    D,
    W,
    S,
    P,
    Q,
    /// Any key the game has no use for.
    Other,
}

/// The snake over mathematical values: what a [`Player`] stands for in
/// contracts.
#[verifier::ext_equal]
pub struct Snake {
    pub head: Spot,
    /// The segments behind the head, the one at index 0 first.
    pub tail: Seq<Spot>,
    pub dir: Dir,
}

impl Snake {
    /// The snake after the key press of one tick, if there was one. `D`, `A`,
    /// `W` and `S` set the heading to `Left`, `Right`, `Up` and `Down`; any
    /// other key, and no key, leave it as it is. Turning straight back is
    /// not prevented.
    pub open spec fn steered(self, key: Option<Key>) -> Snake {
        Snake {
            dir: match key {
                Some(Key::D) => Dir::Left,
                Some(Key::A) => Dir::Right,
                Some(Key::W) => Dir::Up,
                Some(Key::S) => Dir::Down,
                _ => self.dir,
            },
            ..self
        }
    }

    /// The snake after one movement step. The head goes one step in the
    /// current heading. A tail of two or more segments follows it: the spot
    /// that the head leaves comes in front, and the last segment is dropped.
    /// A shorter tail stays as it is, so a single segment does not follow.
    pub open spec fn advanced(self) -> Snake {
        Snake {
            head: self.head.step(self.dir),
            tail: if self.tail.len() > 1 {
                seq![self.head] + self.tail.drop_last()
            } else {
                self.tail
            },
            dir: self.dir,
        }
    }

    /// The snake's rear end: the last segment of the tail, or the head where
    /// there is no tail.
    pub open spec fn rear(self) -> Spot {
        if self.tail.len() > 0 {
            self.tail.last()
        } else {
            self.head
        }
    }

    /// Where the next segment would be put: one step from the rear end in
    /// the current heading.
    pub open spec fn bud(self) -> Spot {
        self.rear().step(self.dir)
    }

    /// The snake after growing: one segment more, at [`Snake::bud`], behind
    /// all the others. A snake that is not heading anywhere does not grow.
    pub open spec fn grown(self) -> Snake {
        if self.dir == Dir::Static {
            self
        } else {
            Snake { tail: self.tail.push(self.bud()), ..self }
        }
    }

    /// The head has left the playable region. A coordinate is in the region
    /// when, counted up by one, it is above 0 and below the board's size: the
    /// region is one cell narrower than the board on each axis.
    pub open spec fn out_of_bounds(self) -> bool {
        ||| self.head.x + 1 <= 0
        ||| self.head.x + 1 >= SCREEN_WIDTH
        ||| self.head.y + 1 <= 0
        ||| self.head.y + 1 >= SCREEN_HEIGHT
    }
}

/// The snake that the player steers.
#[derive(Debug, PartialEq, Eq)]
pub struct Player {
    pub head: Cell,
    pub tail: VecDeque<Cell>,
    pub dir: Dir,
}

impl View for Player {
    type V = Snake;

    open spec fn view(&self) -> Snake {
        Snake { head: self.head@, tail: self.tail@.map_values(|c: Cell| c@), dir: self.dir }
    }
}

impl Player {
    /// A snake of a head alone at `(x, y)`, not heading anywhere yet.
    pub fn new(x: i32, y: i32) -> (player: Player)
        ensures
            player@ == (Snake { head: Spot { x: x as int, y: y as int }, tail: Seq::empty(), dir: Dir::Static }),
    {
        Player { head: Cell::new(x, y), tail: VecDeque::new(), dir: Dir::Static }
    }

    /// Takes the key press of this tick, if there was one.
    pub fn update_direction(&mut self, key: Option<Key>)
        ensures
            final(self)@ == old(self)@.steered(key),
    {
        if let Some(key) = key {
            match key {
                Key::D => self.dir = Dir::Left,
                Key::A => self.dir = Dir::Right,
                Key::W => self.dir = Dir::Up,
                Key::S => self.dir = Dir::Down,
                _ => (),
            };
        }
    }

    /// Moves the snake by one step.
    ///
    /// A tail of two or more segments gets the head's cell put in front and
    /// loses its last segment. Then the head moves.
    pub fn update_position(&mut self)
        requires
            old(self)@.head.step(old(self)@.dir).fits(),
        ensures
            final(self)@ == old(self)@.advanced(),
    {
        if self.tail.len() > 1 {
            self.tail.push_front(self.head);
            self.tail.pop_back();
        }
        match self.dir {
            Dir::Left => self.head = Cell::left(self.head),
            Dir::Right => self.head = Cell::right(self.head),
            Dir::Up => self.head = Cell::up(self.head),
            Dir::Down => self.head = Cell::down(self.head),
            Dir::Static => (),
        }
    }

    /// The cells of the tail in their order, for the host to draw.
    pub fn segments(&self) -> (cells: Vec<Cell>)
        ensures
            cells@ == self.tail@,
    {
        let mut cells: Vec<Cell> = Vec::new();
        let mut i: usize = 0;
        while i < self.tail.len()
            invariant
                i <= self.tail.len(),
                cells@ == self.tail@.subrange(0, i as int),
            decreases self.tail.len() - i,
        {
            cells.push(self.tail[i]);
            i += 1;
        }
        cells
    }

    /// Whether the head has left the playable region.
    pub fn is_out_of_bounds(&self) -> (out: bool)
        ensures
            out == self@.out_of_bounds(),
    {
        self.head.x <= -1 || self.head.x >= SCREEN_WIDTH - 1 || self.head.y <= -1 || self.head.y
            >= SCREEN_HEIGHT - 1
    }

    /// Adds one segment behind the tail, one step from the rear end in the
    /// current heading. A snake that is not heading anywhere stays as it is.
    pub fn grow(&mut self)
        requires
            old(self)@.bud().fits(),
        ensures
            final(self)@ == old(self)@.grown(),
    {
        let last_cell = if self.tail.len() > 0 {
            self.tail[self.tail.len() - 1]
        } else {
            self.head
        };
        match self.dir {
            Dir::Left => self.tail.push_back(Cell::left(last_cell)),
            Dir::Right => self.tail.push_back(Cell::right(last_cell)),
            Dir::Up => self.tail.push_back(Cell::up(last_cell)),
            Dir::Down => self.tail.push_back(Cell::down(last_cell)),
            Dir::Static => (),
        }
    }
}

/// The playable region is the square of the cells with both coordinates from
/// 0 to 46: with a coordinate of -1 or 47 the head is out of bounds, on a
/// board of 48 cells a side.
pub proof fn lemma_playable_region(snake: Snake)
    ensures
        snake.out_of_bounds() <==> !(0 <= snake.head.x <= 46 && 0 <= snake.head.y <= 46),
{
}

/// A tail of two or more segments follows the head: after a movement step it
/// is as long as before, its first segment lies where the head was, and every
/// other segment lies where the one before it was.
pub proof fn lemma_tail_follows_head(snake: Snake)
    requires
        snake.tail.len() > 1,
    ensures
        snake.advanced().tail.len() == snake.tail.len(),
        snake.advanced().tail[0] == snake.head,
        forall|i: int|
            1 <= i < snake.tail.len() ==> #[trigger] snake.advanced().tail[i] == snake.tail[i - 1],
{
}

} // verus!
