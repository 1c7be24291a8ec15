use bracket_lib::random::RandomNumberGenerator;
use snek::{Cell, Food, FOOD_SPAN};

fn in_patch(cell: Cell) -> bool {
    0 <= cell.x && cell.x < 12 && 0 <= cell.y && cell.y < 12
}

#[test]
fn the_food_patch_is_12_cells_a_side() {
    assert_eq!(FOOD_SPAN, 12);
}

#[test]
fn new_food_lies_in_the_food_patch() {
    for _ in 0..500 {
        assert!(in_patch(Food::new().pos));
    }
}

#[test]
fn respawned_food_lies_in_the_food_patch() {
    let mut food = Food::new();
    for _ in 0..2000 {
        food.respawn();
        assert!(in_patch(food.pos));
    }
}

#[test]
fn respawning_reaches_many_spots() {
    let mut food = Food::new();
    let mut xs = [false; 12];
    let mut ys = [false; 12];
    for _ in 0..5000 {
        food.respawn();
        xs[food.pos.x as usize] = true;
        ys[food.pos.y as usize] = true;
    }
    assert!(xs.iter().all(|&seen| seen));
    assert!(ys.iter().all(|&seen| seen));
}

#[test]
fn new_food_does_not_always_lie_on_one_spot() {
    let first = Food::new().pos;
    let mut other = false;
    for _ in 0..500 {
        if Food::new().pos != first {
            other = true;
        }
    }
    assert!(other);
}

#[test]
fn respawn_draws_x_and_then_y_from_its_own_generator() {
    for seed in 0..50u64 {
        let mut twin = RandomNumberGenerator::seeded(seed);
        let mut food = Food { pos: Cell::new(0, 0), pos_gen: RandomNumberGenerator::seeded(seed) };
        for _ in 0..20 {
            food.respawn();
            let x = twin.range(0, 12);
            let y = twin.range(0, 12);
            assert_eq!(food.pos, Cell::new(x, y));
        }
    }
}

#[test]
fn respawn_may_leave_the_food_where_it_was() {
    let mut food = Food { pos: Cell::new(0, 0), pos_gen: RandomNumberGenerator::seeded(1) };
    let mut stayed = false;
    for _ in 0..20000 {
        let before = food.pos;
        food.respawn();
        if food.pos == before {
            stayed = true;
        }
    }
    assert!(stayed);
}
