use snek::{Cell, SCREEN_HEIGHT, SCREEN_WIDTH};

#[test]
fn new_keeps_both_coordinates() {
    let cell = Cell::new(7, -3);
    assert_eq!(cell.x, 7);
    assert_eq!(cell.y, -3);
}

#[test]
fn cells_are_equal_by_value() {
    assert_eq!(Cell::new(4, 9), Cell::new(4, 9));
    assert_ne!(Cell::new(4, 9), Cell::new(9, 4));
    assert_ne!(Cell::new(4, 9), Cell::new(4, 8));
}

#[test]
fn the_board_is_48_cells_a_side() {
    assert_eq!(SCREEN_WIDTH, 48);
    assert_eq!(SCREEN_HEIGHT, 48);
}

#[test]
fn left_adds_one_to_x() {
    assert_eq!(Cell::left(Cell::new(5, 8)), Cell::new(6, 8));
}

#[test]
fn right_takes_one_from_x() {
    assert_eq!(Cell::right(Cell::new(5, 8)), Cell::new(4, 8));
}

#[test]
fn up_takes_one_from_y() {
    assert_eq!(Cell::up(Cell::new(5, 8)), Cell::new(5, 7));
}

#[test]
fn down_adds_one_to_y() {
    assert_eq!(Cell::down(Cell::new(5, 8)), Cell::new(5, 9));
}

#[test]
fn steps_cross_zero() {
    assert_eq!(Cell::right(Cell::new(0, 0)), Cell::new(-1, 0));
    assert_eq!(Cell::up(Cell::new(0, 0)), Cell::new(0, -1));
    assert_eq!(Cell::left(Cell::new(-1, 0)), Cell::new(0, 0));
    assert_eq!(Cell::down(Cell::new(0, -1)), Cell::new(0, 0));
}

#[test]
fn a_step_and_the_opposite_step_lead_back() {
    let cells = [Cell::new(0, 0), Cell::new(5, 8), Cell::new(-7, 46), Cell::new(47, -1)];
    for c in cells {
        assert_eq!(Cell::right(Cell::left(c)), c);
        assert_eq!(Cell::left(Cell::right(c)), c);
        assert_eq!(Cell::down(Cell::up(c)), c);
        assert_eq!(Cell::up(Cell::down(c)), c);
    }
}

#[test]
fn steps_reach_the_ends_of_the_number_range() {
    assert_eq!(Cell::left(Cell::new(i32::MAX - 1, 0)), Cell::new(i32::MAX, 0));
    assert_eq!(Cell::right(Cell::new(i32::MIN + 1, 0)), Cell::new(i32::MIN, 0));
    assert_eq!(Cell::down(Cell::new(0, i32::MAX - 1)), Cell::new(0, i32::MAX));
    assert_eq!(Cell::up(Cell::new(0, i32::MIN + 1)), Cell::new(0, i32::MIN));
}

#[test]
fn a_cell_is_drawn_as_a_block_of_two_by_two() {
    assert_eq!(Cell::new(3, 4).pixel_block(), [(6, 8), (7, 8), (6, 9), (7, 9)]);
    assert_eq!(Cell::new(0, 0).pixel_block(), [(0, 0), (1, 0), (0, 1), (1, 1)]);
    assert_eq!(Cell::new(47, 47).pixel_block(), [(94, 94), (95, 94), (94, 95), (95, 95)]);
}

#[test]
fn a_cell_off_the_board_is_drawn_at_negative_positions() {
    assert_eq!(Cell::new(-1, 2).pixel_block(), [(-2, 4), (-1, 4), (-2, 5), (-1, 5)]);
}

#[test]
fn the_outermost_drawable_cells() {
    let high = i32::MAX / 2;
    let low = i32::MIN / 2;
    assert!(Cell::new(high, high).is_drawable());
    assert!(Cell::new(low, low).is_drawable());
    assert!(!Cell::new(high + 1, 0).is_drawable());
    assert!(!Cell::new(0, high + 1).is_drawable());
    assert!(!Cell::new(low - 1, 0).is_drawable());
    assert!(!Cell::new(0, low - 1).is_drawable());
    assert_eq!(
        Cell::new(high, low).pixel_block(),
        [
            (i32::MAX - 1, i32::MIN),
            (i32::MAX, i32::MIN),
            (i32::MAX - 1, i32::MIN + 1),
            (i32::MAX, i32::MIN + 1)
        ]
    );
}
