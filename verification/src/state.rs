//! The game: the tick that drives it and the two modes it is in.

use crate::cell::{Cell, Dir, Spot, SCREEN_HEIGHT, SCREEN_WIDTH};
use crate::food::{Food, FOOD_SPAN};
use crate::player::{Key, Player, Snake};
use vstd::prelude::*;

verus! {

/// The snake moves on every tick whose number is a multiple of this one.
pub const MOVE_EVERY: u64 = 5;

/// The longest tail that the game carries. With no more segments than this,
/// every segment can be drawn: see [`Spot::drawable`] and [`Game::inv`].
pub const MAX_TAIL: usize = 1_073_741_776;

/// The game is played, or it is over.
#[derive(Clone, Copy, Debug, PartialEq, Eq, Structural)]
pub enum GameMode {
    Playing,
    Dead,
}

impl Spot {
    /// The spot lies on the board or no more than `margin` cells off it.
    pub open spec fn within(self, margin: int) -> bool {
        &&& -margin <= self.x < SCREEN_WIDTH + margin
        &&& -margin <= self.y < SCREEN_HEIGHT + margin
    }
}

/// What one tick puts on the screen, over mathematical values: what a
/// [`Frame`] stands for in contracts.
#[verifier::ext_equal]
pub enum Scene {
    Board { food: Spot, head: Spot, tail: Seq<Spot> },
    GameOver,
    Quit,
    Cleared,
}

/// What one tick puts on the screen, for the host to draw.
#[derive(Debug, PartialEq, Eq)]
pub enum Frame {
    /// The board: the food, the snake's head and the segments of its tail.
    Board { food: Cell, head: Cell, tail: Vec<Cell> },
    /// The prompt that tells the player that the snake is dead and offers
    /// to play again or to quit.
    GameOver,
    /// The same prompt, and the host is asked to end its loop.
    Quit,
    /// A cleared surface: the prompt was wiped for a new game.
    Cleared,
}

impl View for Frame {
    type V = Scene;

    open spec fn view(&self) -> Scene {
        match *self {
            Frame::Board { food, head, tail } => Scene::Board {
                food: food@,
                head: head@,
                tail: tail@.map_values(|c: Cell| c@),
            },
            Frame::GameOver => Scene::GameOver,
            Frame::Quit => Scene::Quit,
            Frame::Cleared => Scene::Cleared,
        }
    }
}

impl Scene {
    /// Every cell of the scene can be drawn.
    pub open spec fn drawable(self) -> bool {
        match self {
            Scene::Board { food, head, tail } => {
                &&& food.drawable()
                &&& head.drawable()
                &&& forall|i: int| 0 <= i < tail.len() ==> (#[trigger] tail[i]).drawable()
            },
            _ => true,
        }
    }
}

/// The game over mathematical values: what a [`State`] stands for in
/// contracts.
#[verifier::ext_equal]
pub struct Game {
    pub mode: GameMode,
    pub player: Snake,
    /// The number of ticks since the game began or began anew.
    pub ticks: nat,
    /// Where the food lies.
    pub food: Spot,
    pub score: int,
}

impl Game {
    /// The game as it begins, with the food at `food`: in play, no tick
    /// taken, nothing scored, the snake a head alone at (2, 2).
    pub open spec fn opening(food: Spot) -> Game {
        Game {
            mode: GameMode::Playing,
            player: Snake { head: Spot { x: 2, y: 2 }, tail: Seq::empty(), dir: Dir::Static },
            ticks: 0,
            food: food,
            score: 0,
        }
    }

    /// The game set back, with the food at `food`: no tick taken, nothing
    /// scored, the snake a head alone at (20, 20), which is not where it
    /// stands when the game first begins. The mode is left as it is.
    pub open spec fn restarted(self, food: Spot) -> Game {
        Game {
            mode: self.mode,
            player: Snake { head: Spot { x: 20, y: 20 }, tail: Seq::empty(), dir: Dir::Static },
            ticks: 0,
            food: food,
            score: 0,
        }
    }

    /// The snake moves on this tick, if the game is in play.
    pub open spec fn move_due(self) -> bool {
        self.ticks % (MOVE_EVERY as nat) == 0
    }

    /// The snake as a tick in play draws it: steered by the key, and moved
    /// if a move is due.
    pub open spec fn placed(self, key: Option<Key>) -> Snake {
        let snake = self.player.steered(key);
        if self.move_due() {
            snake.advanced()
        } else {
            snake
        }
    }

    /// On a tick in play with this key the head comes to lie on the food.
    pub open spec fn eats(self, key: Option<Key>) -> bool {
        self.placed(key).head == self.food
    }

    /// The game after the work of one tick in play, before the tick is
    /// counted. The snake is steered and, if due, moved. With its head out of
    /// bounds the game is over. With its head on the food the snake grows,
    /// the score becomes the number of its segments, and the food turns up
    /// again at `spawn`.
    pub open spec fn play(self, key: Option<Key>, spawn: Spot) -> Game {
        let snake = self.placed(key);
        Game {
            mode: if snake.out_of_bounds() {
                GameMode::Dead
            } else {
                self.mode
            },
            player: if self.eats(key) {
                snake.grown()
            } else {
                snake
            },
            ticks: self.ticks,
            food: if self.eats(key) {
                spawn
            } else {
                self.food
            },
            score: if self.eats(key) {
                snake.grown().tail.len() as int
            } else {
                self.score
            },
        }
    }

    /// The game after the work of one tick while it is over, before the tick
    /// is counted. `P` starts a new game in play, with the food at `spawn`;
    /// any other key, and no key, change nothing.
    pub open spec fn dead(self, key: Option<Key>, spawn: Spot) -> Game {
        if key == Some(Key::P) {
            Game { mode: GameMode::Playing, ..self }.restarted(spawn)
        } else {
            self
        }
    }

    /// The game after one tick with this key: the work of the mode the game
    /// is in, and then the tick is counted. Where the tick places food anew,
    /// it places it at `spawn`.
    pub open spec fn tick(self, key: Option<Key>, spawn: Spot) -> Game {
        let next = match self.mode {
            GameMode::Playing => self.play(key, spawn),
            GameMode::Dead => self.dead(key, spawn),
        };
        Game { ticks: next.ticks + 1, ..next }
    }

    /// What a tick in play with this key draws: the food where it lay when
    /// the tick began, and the snake as [`Game::placed`] has it, so before
    /// it grows.
    pub open spec fn board(self, key: Option<Key>) -> Scene {
        Scene::Board {
            food: self.food,
            head: self.placed(key).head,
            tail: self.placed(key).tail,
        }
    }

    /// What a tick draws while the game is over: the prompt; with `Q` the
    /// prompt and the wish to end; with `P` a cleared surface.
    pub open spec fn prompt(key: Option<Key>) -> Scene {
        match key {
            Some(Key::P) => Scene::Cleared,
            Some(Key::Q) => Scene::Quit,
            _ => Scene::GameOver,
        }
    }

    /// What one tick with this key puts on the screen.
    pub open spec fn scene(self, key: Option<Key>) -> Scene {
        match self.mode {
            GameMode::Playing => self.board(key),
            GameMode::Dead => Game::prompt(key),
        }
    }

    /// What holds of the game at every tick.
    ///
    /// The food lies in the food patch. The score is the number of tail
    /// segments, which is at most [`MAX_TAIL`]. The head is at most two cells
    /// off the board, and at most one while the game is in play. The segment
    /// at index `i` of the tail is at most `i + 1` cells off the board.
    pub open spec fn inv(self) -> bool {
        &&& self.food.in_food_patch()
        &&& self.score == self.player.tail.len()
        &&& self.player.tail.len() <= MAX_TAIL
        &&& self.player.head.within(2)
        &&& self.mode == GameMode::Playing ==> self.player.head.within(1)
        &&& forall|i: int|
            0 <= i < self.player.tail.len() ==> (#[trigger] self.player.tail[i]).within(i + 1)
    }

    /// The tail has room for one more segment.
    pub open spec fn can_grow(self) -> bool {
        self.player.tail.len() < MAX_TAIL
    }

    /// The work of a tick in play with this key stays within the numbers of
    /// the machine: the head's coordinates after a move that is due fit
    /// `i32`, and so do, at a meal, the coordinates of the new segment and
    /// the number of segments, which becomes the score.
    pub open spec fn can_play(self, key: Option<Key>) -> bool {
        &&& self.placed(key).head.fits()
        &&& self.eats(key) ==> {
            &&& self.placed(key).bud().fits()
            &&& self.placed(key).grown().tail.len() <= i32::MAX
        }
    }

    /// A tick with this key stays within the numbers of the machine. In play
    /// that is [`Game::can_play`] and a tick counter that can count one more.
    /// While the game is over only the counter matters, and not even that
    /// with `P`, which sets it to 0 first.
    pub open spec fn can_tick(self, key: Option<Key>) -> bool {
        match self.mode {
            GameMode::Playing => self.can_play(key) && self.ticks < u64::MAX,
            GameMode::Dead => key == Some(Key::P) || self.ticks < u64::MAX,
        }
    }

    /// A tick with this key places the food anew: it is a meal, or it
    /// restarts the game.
    pub open spec fn places_food(self, key: Option<Key>) -> bool {
        match self.mode {
            GameMode::Playing => self.eats(key),
            GameMode::Dead => key == Some(Key::P),
        }
    }
}

/// A game of which [`Game::inv`] holds, with room for one more segment and
/// for one more tick, can take a tick with any key.
pub proof fn lemma_inv_allows_tick(game: Game, key: Option<Key>)
    requires
        game.inv(),
        game.can_grow(),
        game.ticks < u64::MAX,
    ensures
        game.can_play(key),
        game.can_tick(key),
{
}

/// Of a game of which [`Game::inv`] holds, every tick draws a scene whose
/// cells can all be drawn.
pub proof fn lemma_inv_draws(game: Game, key: Option<Key>)
    requires
        game.inv(),
    ensures
        game.board(key).drawable(),
        game.scene(key).drawable(),
{
}

/// A tick keeps what [`Game::inv`] states, wherever in the food patch it
/// places the food, as long as the tail has room for one more segment.
pub proof fn lemma_tick_keeps_inv(game: Game, key: Option<Key>, spawn: Spot)
    requires
        game.inv(),
        game.can_grow(),
        spawn.in_food_patch(),
    ensures
        game.tick(key, spawn).inv(),
        game.mode == GameMode::Playing ==> game.play(key, spawn).inv(),
        game.dead(key, spawn).inv(),
{
}

/// The snake moves only on the ticks on which a move is due. On any other
/// tick in play the head stays where it is, and the tail changes only by
/// growing.
pub proof fn lemma_rest_tick_holds_snake(game: Game, key: Option<Key>, spawn: Spot)
    requires
        game.mode == GameMode::Playing,
        !game.move_due(),
    ensures
        game.tick(key, spawn).player.head == game.player.head,
        !game.eats(key) ==> game.tick(key, spawn).player.tail == game.player.tail,
        game.eats(key) ==> game.tick(key, spawn).player.tail == game.player.steered(
            key,
        ).grown().tail,
{
}

/// On a tick in play on which a move is due, the head goes one step in the
/// heading that the key of that tick leaves the snake with.
pub proof fn lemma_due_tick_moves_head(game: Game, key: Option<Key>, spawn: Spot)
    requires
        game.mode == GameMode::Playing,
        game.move_due(),
    ensures
        game.tick(key, spawn).player.head == game.player.head.step(game.player.steered(key).dir),
{
}

/// A tick in play ends the game exactly when it leaves the head out of
/// bounds. So a head that is out of bounds when the tick begins ends the
/// game, unless the tick moves it back in.
pub proof fn lemma_out_of_bounds_ends_play(game: Game, key: Option<Key>, spawn: Spot)
    requires
        game.mode == GameMode::Playing,
    ensures
        game.tick(key, spawn).mode == GameMode::Dead <==> game.placed(key).out_of_bounds(),
        game.player.out_of_bounds() && !game.move_due() ==> game.tick(key, spawn).mode
            == GameMode::Dead,
{
}

/// While the game is over, `P` brings it back into play with nothing scored
/// and a new snake. The tick counter is set to 0 and then counts the tick
/// that restarted the game, so it stands at 1 after that tick. Any other
/// key, and no key, leave everything but the tick counter as it is.
pub proof fn lemma_restart_resets(game: Game, key: Option<Key>, spawn: Spot)
    requires
        game.mode == GameMode::Dead,
    ensures
        game.dead(Some(Key::P), spawn).ticks == 0,
        game.tick(Some(Key::P), spawn) == (Game {
            mode: GameMode::Playing,
            ticks: 1,
            ..game.restarted(spawn)
        }),
        game.tick(Some(Key::P), spawn).mode == GameMode::Playing,
        game.tick(Some(Key::P), spawn).score == 0,
        key != Some(Key::P) ==> game.tick(key, spawn) == (Game { ticks: game.ticks + 1, ..game }),
{
}

/// When a tick in play brings the head onto the food, the snake grows once
/// and the food is placed anew on that same tick. The new spot is whatever
/// was drawn: it may be the old one. A snake that is not heading anywhere
/// does not grow, so its tail stays as long as it was.
pub proof fn lemma_meal_grows_and_respawns(game: Game, key: Option<Key>, spawn: Spot)
    requires
        game.mode == GameMode::Playing,
        game.eats(key),
    ensures
        game.tick(key, spawn).player == game.placed(key).grown(),
        game.tick(key, spawn).food == spawn,
        game.tick(key, spawn).player.tail.len() == game.player.tail.len() + (if game.placed(
            key,
        ).dir == Dir::Static {
            0int
        } else {
            1int
        }),
{
}

/// Without a meal a tick in play leaves the food and the length of the
/// tail as they are.
pub proof fn lemma_no_meal_no_change(game: Game, key: Option<Key>, spawn: Spot)
    requires
        game.mode == GameMode::Playing,
        !game.eats(key),
    ensures
        game.tick(key, spawn).food == game.food,
        game.tick(key, spawn).player == game.placed(key),
        game.tick(key, spawn).player.tail.len() == game.player.tail.len(),
        game.tick(key, spawn).score == game.score,
{
}

/// Whether `cell` lies on the board or no more than `margin` cells off it.
fn is_within(cell: Cell, margin: i32) -> (ok: bool)
    requires
        0 <= margin <= MAX_TAIL,
    ensures
        ok == cell@.within(margin as int),
{
    -margin <= cell.x && cell.x < SCREEN_WIDTH + margin && -margin <= cell.y && cell.y
        < SCREEN_HEIGHT + margin
}

/// Whether a step from `cell` in the heading `dir` stays within `i32`.
fn step_fits(cell: Cell, dir: Dir) -> (ok: bool)
    ensures
        ok == cell@.step(dir).fits(),
{
    match dir {
        Dir::Static => true,
        Dir::Left => cell.x < i32::MAX,
        Dir::Right => cell.x > i32::MIN,
        Dir::Up => cell.y > i32::MIN,
        Dir::Down => cell.y < i32::MAX,
    }
}

/// The game: the single value that the host hands to every tick.
pub struct State {
    pub mode: GameMode,
    pub player: Player,
    pub ticks: u64,
    pub food: Food,
    pub score: i32,
}

impl View for State {
    type V = Game;

    open spec fn view(&self) -> Game {
        Game {
            mode: self.mode,
            player: self.player@,
            ticks: self.ticks as nat,
            food: self.food@,
            score: self.score as int,
        }
    }
}

impl State {
    /// What holds of the game at every tick: see [`Game::inv`].
    pub open spec fn inv(&self) -> bool {
        self@.inv()
    }

    /// The invariant holds, the tick counter can count one more tick and the
    /// tail has room for one more segment. Then a tick can be taken with any
    /// key, and the invariant holds after it.
    pub open spec fn ready(&self) -> bool {
        &&& self.inv()
        &&& self.ticks < u64::MAX
        &&& self@.can_grow()
    }

    /// Whether a tick with this key stays within the numbers of the machine:
    /// whether [`State::tick`] can be called with it.
    pub fn can_tick(&self, key: Option<Key>) -> (ok: bool)
        ensures
            ok == self@.can_tick(key),
    {
        if self.mode == GameMode::Dead {
            return key == Some(Key::P) || self.ticks < u64::MAX;
        }
        if self.ticks == u64::MAX {
            return false;
        }
        let dir = match key {
            Some(Key::D) => Dir::Left,
            Some(Key::A) => Dir::Right,
            Some(Key::W) => Dir::Up,
            Some(Key::S) => Dir::Down,
            _ => self.player.dir,
        };
        let due = self.ticks % MOVE_EVERY == 0;
        let len = self.player.tail.len();
        let mut head = self.player.head;
        if due {
            if !step_fits(head, dir) {
                return false;
            }
            head = match dir {
                Dir::Static => head,
                Dir::Left => Cell::left(head),
                Dir::Right => Cell::right(head),
                Dir::Up => Cell::up(head),
                Dir::Down => Cell::down(head),
            };
        }
        if head != self.food.pos {
            return true;
        }
        let rear = if len == 0 {
            head
        } else if due && len > 1 {
            self.player.tail[len - 2]
        } else {
            self.player.tail[len - 1]
        };
        let longest: usize = 2_147_483_647;
        let grows = dir != Dir::Static;
        step_fits(rear, dir) && len <= longest && (!grows || len < longest)
    }

    /// Whether [`State::ready`] holds: whether the invariant holds with room
    /// for one more tick and one more segment.
    pub fn is_ready(&self) -> (ok: bool)
        ensures
            ok == self.ready(),
    {
        let len = self.player.tail.len();
        let head = self.player.head;
        let food = self.food.pos;
        if self.ticks == u64::MAX || len >= MAX_TAIL {
            return false;
        }
        if self.score < 0 || self.score as usize != len {
            return false;
        }
        if !(0 <= food.x && food.x < FOOD_SPAN && 0 <= food.y && food.y < FOOD_SPAN) {
            return false;
        }
        let reach: i32 = match self.mode {
            GameMode::Playing => 1,
            GameMode::Dead => 2,
        };
        if !is_within(head, reach) {
            return false;
        }
        let mut i: usize = 0;
        while i < len
            invariant
                len == self.player.tail.len(),
                len < MAX_TAIL,
                i <= len,
                forall|j: int| 0 <= j < i ==> (#[trigger] self@.player.tail[j]).within(j + 1),
            decreases len - i,
        {
            if !is_within(self.player.tail[i], i as i32 + 1) {
                assert(!self@.player.tail[i as int].within(i + 1));
                return false;
            }
            i += 1;
        }
        true
    }

    /// The game as it begins, with food at a random spot of the food patch.
    pub fn new() -> (state: State)
        ensures
            state@ == Game::opening(state@.food),
            state.ready(),
    {
        State {
            mode: GameMode::Playing,
            player: Player::new(2, 2),
            ticks: 0,
            food: Food::new(),
            score: 0,
        }
    }

    /// Sets the game back: a new snake, no tick taken, nothing scored, and
    /// new food at a random spot of the food patch. The mode stays.
    pub fn restart(&mut self)
        ensures
            final(self)@ == old(self)@.restarted(final(self)@.food),
            final(self).ready(),
    {
        self.player = Player::new(20, 20);
        self.ticks = 0;
        self.food = Food::new();
        self.score = 0;
    }

    /// The work of one tick in play.
    ///
    /// The snake takes the key and, on every fifth tick, moves; then it is
    /// drawn. A head out of bounds ends the game. A head on the food makes
    /// the snake grow and the food turn up again at a random spot of the
    /// food patch, which shows from the next tick on.
    pub fn play(&mut self, key: Option<Key>) -> (frame: Frame)
        requires
            old(self)@.can_play(key),
        ensures
            final(self)@ == old(self)@.play(key, final(self)@.food),
            old(self)@.eats(key) ==> final(self)@.food.in_food_patch(),
            frame@ == old(self)@.board(key),
            old(self).inv() ==> frame@.drawable(),
            old(self).inv() && old(self)@.can_grow() && old(self).mode == GameMode::Playing
                ==> final(self).inv(),
    {
        let food = self.food.pos;
        self.player.update_direction(key);
        if self.ticks % MOVE_EVERY == 0 {
            self.player.update_position();
        }
        let frame = Frame::Board { food: food, head: self.player.head, tail: self.player.segments() };
        if self.player.is_out_of_bounds() {
            self.mode = GameMode::Dead;
        }
        if self.player.head == self.food.pos {
            self.player.grow();
            self.score = self.player.tail.len() as i32;
            self.food.respawn();
        }
        proof {
            if old(self).inv() {
                lemma_inv_draws(old(self)@, key);
                if old(self)@.can_grow() {
                    lemma_tick_keeps_inv(old(self)@, key, final(self)@.food);
                }
            }
        }
        frame
    }

    /// The work of one tick while the game is over.
    ///
    /// `P` starts a new game, `Q` asks the host to end, and with any other
    /// key, or none, the game stays as it is.
    pub fn dead(&mut self, key: Option<Key>) -> (frame: Frame)
        ensures
            final(self)@ == old(self)@.dead(key, final(self)@.food),
            frame@ == Game::prompt(key),
            old(self).inv() ==> final(self).inv(),
            key == Some(Key::P) ==> final(self).ready(),
    {
        match key {
            Some(Key::P) => {
                self.mode = GameMode::Playing;
                self.restart();
                Frame::Cleared
            },
            Some(Key::Q) => Frame::Quit,
            _ => Frame::GameOver,
        }
    }

    /// One tick of the game with the key that was pressed, if any. The host
    /// calls this once for each frame and draws what comes back.
    pub fn tick(&mut self, key: Option<Key>) -> (frame: Frame)
        requires
            old(self)@.can_tick(key),
        ensures
            final(self)@ == old(self)@.tick(key, final(self)@.food),
            old(self)@.places_food(key) ==> final(self)@.food.in_food_patch(),
            frame@ == old(self)@.scene(key),
            old(self).inv() ==> frame@.drawable(),
            old(self).inv() && old(self)@.can_grow() ==> final(self).inv(),
    {
        let frame = match self.mode {
            GameMode::Playing => self.play(key),
            GameMode::Dead => self.dead(key),
        };
        self.ticks += 1;
        frame
    }
}

} // verus!
