use snake_core::apple::Apple;
use snake_core::magic_numbers::{CELL_COLS, CELL_ROWS, INITIAL_ADVANCE_MS};
use snake_core::snake::{contains_position, Direction, Ordinance, Snake};
use snake_core::state_events::GameState;

fn ord(left: i8, top: i8) -> Ordinance {
    Ordinance { parent_abs_pos_left: left, parent_abs_pos_top: top }
}

#[test]
fn a_fresh_apple_is_always_in_bounds() {
    for _ in 0..100 {
        let a = Apple::new(None);
        assert!(0 <= a.left() && a.left() < CELL_COLS);
        assert!(0 <= a.top() && a.top() < CELL_ROWS);
    }
}

#[test]
fn an_apple_is_never_placed_on_the_snake() {
    let snake = Snake::new(&ord(0, 0));
    for _ in 0..100 {
        let a = Apple::new(Some(&snake));
        assert!(!snake.body.contains(&a.0));
    }
}

#[test]
fn an_apple_avoids_even_a_body_that_covers_almost_the_grid() {
    // Occupy every cell except (12, 15); placement must find that one.
    let mut body = Vec::new();
    for top in 0..CELL_ROWS {
        for left in 0..CELL_COLS {
            if !(left == CELL_COLS - 1 && top == CELL_ROWS - 1) {
                body.push(ord(left, top));
            }
        }
    }
    let snake = Snake {
        body,
        direction: Direction::Up,
        timer_ms: INITIAL_ADVANCE_MS,
        state: GameState::Running,
    };
    let a = Apple::new(Some(&snake));
    assert_eq!(a.0, ord(CELL_COLS - 1, CELL_ROWS - 1));
}

#[test]
fn apple_getters_expose_its_cell() {
    let a = Apple(ord(7, 11));
    assert_eq!(a.left(), 7);
    assert_eq!(a.top(), 11);
}

#[test]
fn a_new_snake_has_three_distinct_in_bounds_segments() {
    for _ in 0..100 {
        let avoid = ord(6, 8);
        let s = Snake::new(&avoid);
        assert_eq!(s.body.len(), 3);
        assert_ne!(s.body[0], s.body[1]);
        assert_ne!(s.body[1], s.body[2]);
        assert_ne!(s.body[0], s.body[2]);
        for seg in &s.body {
            assert!(0 <= seg.parent_abs_pos_left && seg.parent_abs_pos_left < CELL_COLS);
            assert!(0 <= seg.parent_abs_pos_top && seg.parent_abs_pos_top < CELL_ROWS);
        }
    }
}

#[test]
fn a_new_snake_never_touches_the_avoided_cell() {
    for left in 0..CELL_COLS {
        for top in 0..CELL_ROWS {
            let avoid = ord(left, top);
            let s = Snake::new(&avoid);
            assert!(!s.body.contains(&avoid));
        }
    }
}

#[test]
fn a_new_snake_trails_away_from_its_heading() {
    for _ in 0..50 {
        let s = Snake::new(&ord(0, 0));
        let back = s.direction.opposite();
        assert_eq!(s.body[1], s.body[0].step(back));
        assert_eq!(s.body[2], s.body[1].step(back));
    }
}

#[test]
fn a_new_snake_starts_running_at_the_slowest_speed_with_score_zero() {
    let s = Snake::new(&ord(3, 3));
    assert_eq!(s.timer_ms, INITIAL_ADVANCE_MS);
    assert_eq!(s.state, GameState::Running);
    assert_eq!(s.score(), 0);
}

#[test]
fn default_snakes_vary_but_always_satisfy_the_construction_shape() {
    for _ in 0..100 {
        let s = Snake::default();
        assert_eq!(s.body.len(), 3);
        assert_ne!(s.body[0], s.body[1]);
        assert_ne!(s.body[1], s.body[2]);
        assert_ne!(s.body[0], s.body[2]);
        assert_eq!(s.timer_ms, INITIAL_ADVANCE_MS);
        assert_eq!(s.state, GameState::Running);
    }
}

#[test]
fn contains_position_reports_membership() {
    let body = vec![ord(1, 1), ord(2, 1), ord(3, 1)];
    assert!(contains_position(&body, &ord(2, 1)));
    assert!(!contains_position(&body, &ord(2, 2)));
    assert!(!contains_position(&Vec::new(), &ord(0, 0)));
}

#[test]
fn random_directions_cover_all_four_values() {
    let mut seen = [false; 4];
    for _ in 0..500 {
        match Direction::default() {
            Direction::Up => seen[0] = true,
            Direction::Down => seen[1] = true,
            Direction::Left => seen[2] = true,
            Direction::Right => seen[3] = true,
        }
    }
    assert!(seen.iter().all(|&s| s));
}
