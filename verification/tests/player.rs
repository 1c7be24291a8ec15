use snek::{Cell, Dir, Key, Player};
use std::collections::VecDeque;

fn snake(head: (i32, i32), tail: &[(i32, i32)], dir: Dir) -> Player {
    let mut cells = VecDeque::new();
    for &(x, y) in tail {
        cells.push_back(Cell::new(x, y));
    }
    Player { head: Cell::new(head.0, head.1), tail: cells, dir }
}

fn tail_of(player: &Player) -> Vec<(i32, i32)> {
    player.tail.iter().map(|c| (c.x, c.y)).collect()
}

#[test]
fn a_new_player_is_a_head_alone_heading_nowhere() {
    let player = Player::new(2, 2);
    assert_eq!(player.head, Cell::new(2, 2));
    assert!(player.tail.is_empty());
    assert_eq!(player.dir, Dir::Static);
}

#[test]
fn d_a_w_s_steer_left_right_up_down() {
    let mut player = Player::new(2, 2);
    player.update_direction(Some(Key::D));
    assert_eq!(player.dir, Dir::Left);
    player.update_direction(Some(Key::A));
    assert_eq!(player.dir, Dir::Right);
    player.update_direction(Some(Key::W));
    assert_eq!(player.dir, Dir::Up);
    player.update_direction(Some(Key::S));
    assert_eq!(player.dir, Dir::Down);
}

#[test]
fn other_keys_and_no_key_leave_the_heading() {
    for dir in [Dir::Static, Dir::Left, Dir::Right, Dir::Up, Dir::Down] {
        for key in [None, Some(Key::P), Some(Key::Q), Some(Key::Other)] {
            let mut player = snake((5, 5), &[(6, 5)], dir);
            player.update_direction(key);
            assert_eq!(player, snake((5, 5), &[(6, 5)], dir));
        }
    }
}

#[test]
fn steering_touches_neither_head_nor_tail() {
    let mut player = snake((5, 5), &[(6, 5), (7, 5)], Dir::Up);
    player.update_direction(Some(Key::S));
    assert_eq!(player, snake((5, 5), &[(6, 5), (7, 5)], Dir::Down));
}

#[test]
fn turning_straight_back_is_not_prevented() {
    let mut player = snake((5, 5), &[(4, 5), (3, 5)], Dir::Left);
    player.update_direction(Some(Key::A));
    assert_eq!(player.dir, Dir::Right);
    let mut player = snake((5, 5), &[], Dir::Up);
    player.update_direction(Some(Key::S));
    assert_eq!(player.dir, Dir::Down);
}

#[test]
fn the_head_moves_one_cell_in_its_heading() {
    let moves = [
        (Dir::Left, (6, 5)),
        (Dir::Right, (4, 5)),
        (Dir::Up, (5, 4)),
        (Dir::Down, (5, 6)),
        (Dir::Static, (5, 5)),
    ];
    for (dir, to) in moves {
        let mut player = snake((5, 5), &[], dir);
        player.update_position();
        assert_eq!(player, snake(to, &[], dir));
    }
}

#[test]
fn a_snake_heading_nowhere_stays_in_place() {
    let mut player = Player::new(2, 2);
    player.update_position();
    player.update_position();
    assert_eq!(player, Player::new(2, 2));
}

#[test]
fn a_tail_of_one_segment_stays_behind() {
    let mut player = snake((5, 5), &[(9, 9)], Dir::Left);
    player.update_position();
    assert_eq!(player, snake((6, 5), &[(9, 9)], Dir::Left));
    player.update_position();
    assert_eq!(player, snake((7, 5), &[(9, 9)], Dir::Left));
}

#[test]
fn a_tail_of_two_follows_the_head() {
    let mut player = snake((5, 5), &[(6, 5), (7, 5)], Dir::Right);
    player.update_position();
    assert_eq!(player, snake((4, 5), &[(5, 5), (6, 5)], Dir::Right));
    let mut player = snake((5, 5), &[(1, 1), (2, 2)], Dir::Down);
    player.update_position();
    assert_eq!(player, snake((5, 6), &[(5, 5), (1, 1)], Dir::Down));
}

#[test]
fn every_segment_of_a_longer_tail_moves_up_one_place() {
    let mut player = snake((5, 5), &[(1, 1), (2, 2), (3, 3), (4, 4)], Dir::Right);
    player.update_position();
    assert_eq!(player, snake((4, 5), &[(5, 5), (1, 1), (2, 2), (3, 3)], Dir::Right));
    player.update_position();
    assert_eq!(player, snake((3, 5), &[(4, 5), (5, 5), (1, 1), (2, 2)], Dir::Right));
}

#[test]
fn a_long_snake_trails_behind_its_head() {
    let mut player = snake((10, 10), &[(11, 10), (12, 10), (13, 10)], Dir::Right);
    for x in (5..10).rev() {
        player.update_position();
        assert_eq!(player, snake((x, 10), &[(x + 1, 10), (x + 2, 10), (x + 3, 10)], Dir::Right));
    }
    player.update_direction(Some(Key::W));
    player.update_position();
    assert_eq!(player, snake((5, 9), &[(5, 10), (6, 10), (7, 10)], Dir::Up));
    player.update_position();
    assert_eq!(player, snake((5, 8), &[(5, 9), (5, 10), (6, 10)], Dir::Up));
}

#[test]
fn a_snake_heading_nowhere_still_hands_its_cell_to_the_tail() {
    let mut player = snake((5, 5), &[(1, 1), (2, 2), (3, 3)], Dir::Static);
    player.update_position();
    assert_eq!(player, snake((5, 5), &[(5, 5), (1, 1), (2, 2)], Dir::Static));
}

#[test]
fn moving_keeps_the_length_of_the_tail() {
    for n in 0..6 {
        let cells: Vec<(i32, i32)> = (0..n).map(|i| (10 + i, 10)).collect();
        let mut player = snake((5, 5), &cells, Dir::Up);
        player.update_position();
        assert_eq!(player.tail.len(), cells.len());
    }
}

#[test]
fn the_head_is_out_of_bounds_at_minus_1_and_at_47() {
    assert!(Player::new(-1, 5).is_out_of_bounds());
    assert!(Player::new(47, 5).is_out_of_bounds());
    assert!(Player::new(5, -1).is_out_of_bounds());
    assert!(Player::new(5, 47).is_out_of_bounds());
}

#[test]
fn the_head_is_in_bounds_from_0_to_46() {
    for x in 0..=46 {
        for y in 0..=46 {
            assert!(!Player::new(x, y).is_out_of_bounds());
        }
    }
}

#[test]
fn the_corners_of_the_playable_region() {
    assert!(!Player::new(0, 0).is_out_of_bounds());
    assert!(!Player::new(46, 46).is_out_of_bounds());
    assert!(!Player::new(0, 46).is_out_of_bounds());
    assert!(!Player::new(46, 0).is_out_of_bounds());
    assert!(Player::new(-1, -1).is_out_of_bounds());
    assert!(Player::new(47, 47).is_out_of_bounds());
}

#[test]
fn far_off_heads_are_out_of_bounds() {
    assert!(Player::new(i32::MAX, 0).is_out_of_bounds());
    assert!(Player::new(i32::MIN, 0).is_out_of_bounds());
    assert!(Player::new(0, i32::MAX).is_out_of_bounds());
    assert!(Player::new(0, i32::MIN).is_out_of_bounds());
    assert!(Player::new(48, 10).is_out_of_bounds());
    assert!(Player::new(10, -2).is_out_of_bounds());
}

#[test]
fn only_the_head_counts_for_the_bounds() {
    assert!(!snake((5, 5), &[(-4, 100)], Dir::Left).is_out_of_bounds());
    assert!(snake((-1, 5), &[(5, 5)], Dir::Left).is_out_of_bounds());
}

#[test]
fn the_first_segment_is_put_one_step_from_the_head() {
    let grown = [
        (Dir::Left, (6, 5)),
        (Dir::Right, (4, 5)),
        (Dir::Up, (5, 4)),
        (Dir::Down, (5, 6)),
    ];
    for (dir, at) in grown {
        let mut player = snake((5, 5), &[], dir);
        player.grow();
        assert_eq!(player, snake((5, 5), &[at], dir));
    }
}

#[test]
fn a_further_segment_is_put_one_step_from_the_last() {
    let grown = [
        (Dir::Left, (10, 9)),
        (Dir::Right, (8, 9)),
        (Dir::Up, (9, 8)),
        (Dir::Down, (9, 10)),
    ];
    for (dir, at) in grown {
        let mut player = snake((5, 5), &[(1, 1), (9, 9)], dir);
        player.grow();
        assert_eq!(player, snake((5, 5), &[(1, 1), (9, 9), at], dir));
    }
}

#[test]
fn a_snake_heading_nowhere_does_not_grow() {
    let mut player = Player::new(2, 2);
    player.grow();
    assert_eq!(player, Player::new(2, 2));
    let mut player = snake((5, 5), &[(1, 1)], Dir::Static);
    player.grow();
    assert_eq!(player, snake((5, 5), &[(1, 1)], Dir::Static));
}

#[test]
fn n_growths_from_an_empty_tail_make_n_segments() {
    let mut player = snake((5, 5), &[], Dir::Down);
    for n in 1..=20 {
        player.grow();
        assert_eq!(player.tail.len(), n);
    }
    let expected: Vec<(i32, i32)> = (1..=20).map(|i| (5, 5 + i)).collect();
    assert_eq!(tail_of(&player), expected);
}

#[test]
fn growths_and_moves_in_turn_count_every_growth() {
    let mut player = snake((5, 5), &[], Dir::Left);
    for n in 1..=10 {
        player.grow();
        player.update_position();
        assert_eq!(player.tail.len(), n);
    }
    assert_eq!(player.head, Cell::new(15, 5));
}

#[test]
fn the_second_segment_shows_what_the_first_does_not() {
    let mut player = snake((5, 5), &[], Dir::Left);
    player.grow();
    assert_eq!(tail_of(&player), vec![(6, 5)]);
    player.update_position();
    assert_eq!(tail_of(&player), vec![(6, 5)]);
    player.grow();
    assert_eq!(tail_of(&player), vec![(6, 5), (7, 5)]);
    player.update_position();
    assert_eq!(player.head, Cell::new(7, 5));
    assert_eq!(tail_of(&player), vec![(6, 5), (6, 5)]);
    player.update_position();
    assert_eq!(player.head, Cell::new(8, 5));
    assert_eq!(tail_of(&player), vec![(7, 5), (6, 5)]);
}

#[test]
fn segments_lists_the_tail_in_order() {
    assert_eq!(Player::new(2, 2).segments(), Vec::<Cell>::new());
    let player = snake((5, 5), &[(1, 1), (2, 2), (3, 3)], Dir::Up);
    assert_eq!(player.segments(), vec![Cell::new(1, 1), Cell::new(2, 2), Cell::new(3, 3)]);
}
