//! Runs of several ticks, and what the tail's length says of them.

use crate::cell::{Dir, Spot};
use crate::player::Key;
use crate::state::{Game, GameMode, MOVE_EVERY};
use vstd::prelude::*;

verus! {

impl Game {
    /// The game after one tick for each key of `keys`, in their order. The
    /// tick of `keys[i]` places the food, where it places it anew, at
    /// `spawns[i]`.
    pub open spec fn run(self, keys: Seq<Option<Key>>, spawns: Seq<Spot>) -> Game
        recommends
            keys.len() == spawns.len(),
        decreases keys.len(),
    {
        if keys.len() == 0 {
            self
        } else {
            self.run(keys.drop_last(), spawns.drop_last()).tick(keys.last(), spawns.last())
        }
    }

    /// The tick with this key is a meal: the game is in play and the head
    /// comes to lie on the food.
    pub open spec fn meal(self, key: Option<Key>) -> bool {
        self.mode == GameMode::Playing && self.eats(key)
    }

    /// The tick with this key is a meal of a snake that is not heading
    /// anywhere, so that it does not grow.
    pub open spec fn still_meal(self, key: Option<Key>) -> bool {
        self.meal(key) && self.placed(key).dir == Dir::Static
    }

    /// The number of meals in the run of `keys` and `spawns`.
    pub open spec fn meals(self, keys: Seq<Option<Key>>, spawns: Seq<Spot>) -> nat
        recommends
            keys.len() == spawns.len(),
        decreases keys.len(),
    {
        if keys.len() == 0 {
            0
        } else {
            let before = self.run(keys.drop_last(), spawns.drop_last());
            self.meals(keys.drop_last(), spawns.drop_last()) + if before.meal(keys.last()) {
                1nat
            } else {
                0nat
            }
        }
    }

    /// The number of meals in the run of `keys` and `spawns` at which the
    /// snake was not heading anywhere.
    pub open spec fn still_meals(self, keys: Seq<Option<Key>>, spawns: Seq<Spot>) -> nat
        recommends
            keys.len() == spawns.len(),
        decreases keys.len(),
    {
        if keys.len() == 0 {
            0
        } else {
            let before = self.run(keys.drop_last(), spawns.drop_last());
            self.still_meals(keys.drop_last(), spawns.drop_last()) + if before.still_meal(
                keys.last(),
            ) {
                1nat
            } else {
                0nat
            }
        }
    }
}

/// As long as the game is not restarted, the tail gains one segment with
/// every meal at which the snake is heading somewhere, and changes its
/// length at no other time.
pub proof fn lemma_tail_counts_moving_meals(game: Game, keys: Seq<Option<Key>>, spawns: Seq<Spot>)
    requires
        keys.len() == spawns.len(),
        forall|i: int| 0 <= i < keys.len() ==> keys[i] != Some(Key::P),
    ensures
        game.still_meals(keys, spawns) <= game.meals(keys, spawns),
        game.run(keys, spawns).player.tail.len() == game.player.tail.len() + game.meals(
            keys,
            spawns,
        ) - game.still_meals(keys, spawns),
    decreases keys.len(),
{
    if keys.len() > 0 {
        lemma_tail_counts_moving_meals(game, keys.drop_last(), spawns.drop_last());
    }
}

/// After a number of meals, the tail is longer by that number of segments:
/// a snake that starts without a tail has as many segments as it had meals.
/// This holds of every run in which the game is not restarted and no meal
/// is one of a snake that is not heading anywhere.
pub proof fn lemma_tail_counts_meals(game: Game, keys: Seq<Option<Key>>, spawns: Seq<Spot>)
    requires
        keys.len() == spawns.len(),
        forall|i: int| 0 <= i < keys.len() ==> keys[i] != Some(Key::P),
        game.still_meals(keys, spawns) == 0,
    ensures
        game.run(keys, spawns).player.tail.len() == game.player.tail.len() + game.meals(
            keys,
            spawns,
        ),
        game.player.tail.len() == 0 ==> game.run(keys, spawns).player.tail.len() == game.meals(
            keys,
            spawns,
        ),
{
    lemma_tail_counts_moving_meals(game, keys, spawns);
}

/// A run is its first tick and then the run of the other keys.
pub proof fn lemma_run_from_first_tick(game: Game, keys: Seq<Option<Key>>, spawns: Seq<Spot>)
    requires
        keys.len() == spawns.len(),
        keys.len() > 0,
    ensures
        game.run(keys, spawns) == game.tick(keys.first(), spawns.first()).run(
            keys.drop_first(),
            spawns.drop_first(),
        ),
    decreases keys.len(),
{
    let after_first = game.tick(keys.first(), spawns.first());
    if keys.len() == 1 {
        assert(game.run(keys.drop_last(), spawns.drop_last()) == game);
        assert(after_first.run(keys.drop_first(), spawns.drop_first()) == after_first);
    } else {
        lemma_run_from_first_tick(game, keys.drop_last(), spawns.drop_last());
        assert(keys.drop_last().drop_first() =~= keys.drop_first().drop_last());
        assert(spawns.drop_last().drop_first() =~= spawns.drop_first().drop_last());
        assert(keys.drop_last().first() == keys.first());
        assert(spawns.drop_last().first() == spawns.first());
        assert(keys.drop_first().last() == keys.last());
        assert(spawns.drop_first().last() == spawns.last());
    }
}

/// Between two moves the head rests. Over a run in play that begins after a
/// move and ends before the next one is due, with the head in bounds, the
/// head stays where it is whatever the keys, and the game stays in play.
pub proof fn lemma_head_rests_between_moves(
    game: Game,
    keys: Seq<Option<Key>>,
    spawns: Seq<Spot>,
)
    requires
        keys.len() == spawns.len(),
        game.mode == GameMode::Playing,
        !game.player.out_of_bounds(),
        1 <= game.ticks % (MOVE_EVERY as nat),
        game.ticks % (MOVE_EVERY as nat) + keys.len() <= MOVE_EVERY,
    ensures
        game.run(keys, spawns).player.head == game.player.head,
        game.run(keys, spawns).mode == GameMode::Playing,
        game.run(keys, spawns).ticks == game.ticks + keys.len(),
    decreases keys.len(),
{
    if keys.len() > 0 {
        lemma_head_rests_between_moves(game, keys.drop_last(), spawns.drop_last());
    }
}

/// The snake moves on every fifth tick and on no other. Take five ticks in
/// play, the first of them one on which a move is due and which leaves the
/// head in bounds. The first tick moves the head one step in the heading
/// that its key leaves the snake with; after each of the four ticks that
/// follow, whatever their keys, the head is still there. The game is still
/// in play, and the next move is due.
pub proof fn lemma_one_move_in_five_ticks(game: Game, keys: Seq<Option<Key>>, spawns: Seq<Spot>)
    requires
        keys.len() == MOVE_EVERY,
        spawns.len() == MOVE_EVERY,
        game.mode == GameMode::Playing,
        game.move_due(),
        !game.placed(keys[0]).out_of_bounds(),
    ensures
        forall|n: int|
            1 <= n <= MOVE_EVERY ==> (#[trigger] game.run(
                keys.subrange(0, n),
                spawns.subrange(0, n),
            )).player.head == game.player.head.step(game.player.steered(keys[0]).dir),
        game.run(keys, spawns).mode == GameMode::Playing,
        game.run(keys, spawns).ticks == game.ticks + MOVE_EVERY,
        game.run(keys, spawns).move_due(),
{
    let moved = game.tick(keys[0], spawns[0]);
    assert forall|n: int| 1 <= n <= MOVE_EVERY implies {
        let end = #[trigger] game.run(keys.subrange(0, n), spawns.subrange(0, n));
        &&& end.player.head == game.player.head.step(game.player.steered(keys[0]).dir)
        &&& end.mode == GameMode::Playing
        &&& end.ticks == game.ticks + n
    } by {
        let ks = keys.subrange(0, n);
        let ss = spawns.subrange(0, n);
        lemma_run_from_first_tick(game, ks, ss);
        lemma_head_rests_between_moves(moved, ks.drop_first(), ss.drop_first());
    }
    assert(keys.subrange(0, MOVE_EVERY as int) =~= keys);
    assert(spawns.subrange(0, MOVE_EVERY as int) =~= spawns);
}

/// A run keeps what [`Game::inv`] states, and with it the score equal to the
/// number of tail segments, as long as the food is placed in the food patch
/// and the tail stays short of [`crate::state::MAX_TAIL`] segments.
pub proof fn lemma_run_keeps_inv(game: Game, keys: Seq<Option<Key>>, spawns: Seq<Spot>)
    requires
        keys.len() == spawns.len(),
        game.inv(),
        forall|i: int| 0 <= i < spawns.len() ==> (#[trigger] spawns[i]).in_food_patch(),
        game.player.tail.len() + keys.len() <= crate::state::MAX_TAIL,
    ensures
        game.run(keys, spawns).inv(),
        game.run(keys, spawns).score == game.run(keys, spawns).player.tail.len(),
        game.run(keys, spawns).player.tail.len() <= game.player.tail.len() + keys.len(),
    decreases keys.len(),
{
    if keys.len() > 0 {
        lemma_run_keeps_inv(game, keys.drop_last(), spawns.drop_last());
        crate::state::lemma_tick_keeps_inv(
            game.run(keys.drop_last(), spawns.drop_last()),
            keys.last(),
            spawns.last(),
        );
    }
}

} // verus!
