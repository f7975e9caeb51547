use snake_core::magic_numbers::{CELL_COLS, CELL_ROWS};
use snake_core::snake::{Direction, Ordinance};

fn ord(left: i8, top: i8) -> Ordinance {
    Ordinance { parent_abs_pos_left: left, parent_abs_pos_top: top }
}

#[test]
fn step_moves_one_cell_in_each_direction() {
    let p = ord(5, 5);
    assert_eq!(p.step(Direction::Up), ord(5, 4));
    assert_eq!(p.step(Direction::Down), ord(5, 6));
    assert_eq!(p.step(Direction::Left), ord(4, 5));
    assert_eq!(p.step(Direction::Right), ord(6, 5));
}

#[test]
fn step_wraps_around_every_edge() {
    assert_eq!(ord(0, 0).step(Direction::Up), ord(0, CELL_ROWS - 1));
    assert_eq!(ord(0, CELL_ROWS - 1).step(Direction::Down), ord(0, 0));
    assert_eq!(ord(0, 3).step(Direction::Left), ord(CELL_COLS - 1, 3));
    assert_eq!(ord(CELL_COLS - 1, 3).step(Direction::Right), ord(0, 3));
}

#[test]
fn directional_getters_match_step() {
    let p = ord(7, 9);
    assert_eq!(p.get_top(), p.step(Direction::Up));
    assert_eq!(p.get_bottom(), p.step(Direction::Down));
    assert_eq!(p.get_left(), p.step(Direction::Left));
    assert_eq!(p.get_right(), p.step(Direction::Right));
}

#[test]
fn step_stays_in_bounds_for_every_cell_and_direction() {
    for left in 0..CELL_COLS {
        for top in 0..CELL_ROWS {
            for d in [Direction::Up, Direction::Down, Direction::Left, Direction::Right] {
                let q = ord(left, top).step(d);
                assert!(0 <= q.parent_abs_pos_left && q.parent_abs_pos_left < CELL_COLS);
                assert!(0 <= q.parent_abs_pos_top && q.parent_abs_pos_top < CELL_ROWS);
            }
        }
    }
}

#[test]
fn each_direction_has_an_exact_inverse() {
    for left in 0..CELL_COLS {
        for top in 0..CELL_ROWS {
            let p = ord(left, top);
            for d in [Direction::Up, Direction::Down, Direction::Left, Direction::Right] {
                assert_eq!(p.step(d).step(d.opposite()), p);
            }
        }
    }
}

#[test]
fn four_step_round_trip_holds_from_a_mid_grid_cell() {
    // Up then Down undo each other, and so do Left then Right, so this
    // particular composition returns to the start even across wraps.
    let p = ord(0, 0);
    let q = p
        .step(Direction::Up)
        .step(Direction::Down)
        .step(Direction::Left)
        .step(Direction::Right);
    assert_eq!(q, p);
}

#[test]
fn opposite_is_an_involution() {
    for d in [Direction::Up, Direction::Down, Direction::Left, Direction::Right] {
        assert_eq!(d.opposite().opposite(), d);
        assert_ne!(d.opposite(), d);
    }
}
