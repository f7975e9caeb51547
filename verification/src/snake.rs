//! The snake entity: grid coordinates, the body with its movement,
//! growth and self-collision rules, and the tick state machine.

use vstd::prelude::*;

use crate::apple::Apple;
use crate::magic_numbers::{CELL_COLS, CELL_ROWS, FAST_ADVANCE_MS, INITIAL_ADVANCE_MS};
use crate::rng::random_below;
use crate::state_events::{GameEvent, GameState};

verus! {

/// Current heading of the snake. A snake always has exactly one.
#[derive(Debug, Clone, Copy, PartialEq, Eq, Structural)]
pub enum Direction {
    Up,
    Down,
    Left,
    Right,
}

impl Direction {
    /// The exact reverse of this heading.
    pub open spec fn spec_opposite(self) -> Direction {
        match self {
            Direction::Up => Direction::Down,
            Direction::Down => Direction::Up,
            Direction::Left => Direction::Right,
            Direction::Right => Direction::Left,
        }
    }

    /// Returns the exact reverse of this heading.
    pub fn opposite(self) -> (r: Direction)
        ensures
            r == self.spec_opposite(),
    {
        match self {
            Direction::Up => Direction::Down,
            Direction::Down => Direction::Up,
            Direction::Left => Direction::Right,
            Direction::Right => Direction::Left,
        }
    }
}

impl Default for Direction {
    /// Draws one of the four headings uniformly at random.
    fn default() -> Direction {
        match random_below(4) {
            0 => Direction::Up,
            1 => Direction::Down,
            2 => Direction::Left,
            _ => Direction::Right,
        }
    }
}

/// A grid cell coordinate pair: column (`parent_abs_pos_left`) and row
/// (`parent_abs_pos_top`). By invariant a position is always within
/// `[0, CELL_COLS) x [0, CELL_ROWS)`; stepping wraps around the grid's
/// edges rather than clamping or failing.
#[derive(Debug, Clone, Copy, Default, PartialEq, Eq, Structural)]
pub struct Ordinance {
    pub parent_abs_pos_left: i8,
    pub parent_abs_pos_top: i8,
}

/// One coordinate moved down by one, wrapped into `[0, n)`.
pub open spec fn wrap_dec(v: i8, n: i8) -> i8 {
    if v - 1 < 0 {
        (v - 1 + n) as i8
    } else {
        (v - 1) as i8
    }
}

/// One coordinate moved up by one, wrapped into `[0, n)`.
pub open spec fn wrap_inc(v: i8, n: i8) -> i8 {
    if v + 1 >= n {
        (v + 1 - n) as i8
    } else {
        (v + 1) as i8
    }
}

impl Ordinance {
    /// The position lies within the grid.
    pub open spec fn wf(self) -> bool {
        &&& 0 <= self.parent_abs_pos_left < CELL_COLS
        &&& 0 <= self.parent_abs_pos_top < CELL_ROWS
    }

    /// The position one cell away in direction `d`, wrapping around the
    /// opposite edge when a coordinate would leave the grid.
    pub open spec fn spec_step(self, d: Direction) -> Ordinance {
        match d {
            Direction::Up => Ordinance {
                parent_abs_pos_left: self.parent_abs_pos_left,
                parent_abs_pos_top: wrap_dec(self.parent_abs_pos_top, CELL_ROWS),
            },
            Direction::Down => Ordinance {
                parent_abs_pos_left: self.parent_abs_pos_left,
                parent_abs_pos_top: wrap_inc(self.parent_abs_pos_top, CELL_ROWS),
            },
            Direction::Left => Ordinance {
                parent_abs_pos_left: wrap_dec(self.parent_abs_pos_left, CELL_COLS),
                parent_abs_pos_top: self.parent_abs_pos_top,
            },
            Direction::Right => Ordinance {
                parent_abs_pos_left: wrap_inc(self.parent_abs_pos_left, CELL_COLS),
                parent_abs_pos_top: self.parent_abs_pos_top,
            },
        }
    }

    /// The neighbouring cell to the left, wrapping to the right edge.
    pub fn get_left(&self) -> (r: Ordinance)
        requires
            self.wf(),
        ensures
            r == self.spec_step(Direction::Left),
            r.wf(),
    {
        let mut left = self.parent_abs_pos_left - 1;
        if left < 0 {
            left += CELL_COLS;
        }

        Ordinance { parent_abs_pos_left: left, parent_abs_pos_top: self.parent_abs_pos_top }
    }

    /// The neighbouring cell above, wrapping to the bottom edge.
    pub fn get_top(&self) -> (r: Ordinance)
        requires
            self.wf(),
        ensures
            r == self.spec_step(Direction::Up),
            r.wf(),
    {
        let mut top = self.parent_abs_pos_top - 1;
        if top < 0 {
            top += CELL_ROWS;
        }

        Ordinance { parent_abs_pos_left: self.parent_abs_pos_left, parent_abs_pos_top: top }
    }

    /// The neighbouring cell to the right, wrapping to the left edge.
    pub fn get_right(&self) -> (r: Ordinance)
        requires
            self.wf(),
        ensures
            r == self.spec_step(Direction::Right),
            r.wf(),
    {
        let mut right = self.parent_abs_pos_left + 1;
        if right >= CELL_COLS {
            right -= CELL_COLS;
        }

        Ordinance { parent_abs_pos_left: right, parent_abs_pos_top: self.parent_abs_pos_top }
    }

    /// The neighbouring cell below, wrapping to the top edge.
    pub fn get_bottom(&self) -> (r: Ordinance)
        requires
            self.wf(),
        ensures
            r == self.spec_step(Direction::Down),
            r.wf(),
    {
        let mut bottom = self.parent_abs_pos_top + 1;
        if bottom >= CELL_ROWS {
            bottom -= CELL_ROWS;
        }

        Ordinance { parent_abs_pos_left: self.parent_abs_pos_left, parent_abs_pos_top: bottom }
    }

    /// The position one cell away in direction `d`, with wraparound.
    pub fn step(&self, d: Direction) -> (r: Ordinance)
        requires
            self.wf(),
        ensures
            r == self.spec_step(d),
            r.wf(),
    {
        match d {
            Direction::Up => self.get_top(),
            Direction::Down => self.get_bottom(),
            Direction::Left => self.get_left(),
            Direction::Right => self.get_right(),
        }
    }
}

/// Stepping never leaves the grid: from any in-bounds position, in any
/// direction, the result is in bounds again.
pub proof fn lemma_step_stays_in_bounds(p: Ordinance, d: Direction)
    requires
        p.wf(),
    ensures
        p.spec_step(d).wf(),
{
}

/// Every direction has an exact inverse: one step in direction `d`
/// followed by one step in the reverse direction returns to the start.
pub proof fn lemma_step_opposite_inverse(p: Ordinance, d: Direction)
    requires
        p.wf(),
    ensures
        p.spec_step(d).spec_step(d.spec_opposite()) == p,
{
}

/// Stepping moves to a different cell, and stepping twice in the same
/// direction visits three pairwise distinct cells (the grid is wider and
/// taller than two cells, so a wrapped step cannot come back that fast).
pub proof fn lemma_two_steps_distinct(p: Ordinance, d: Direction)
    requires
        p.wf(),
    ensures
        p.spec_step(d) != p,
        p.spec_step(d).spec_step(d) != p.spec_step(d),
        p.spec_step(d).spec_step(d) != p,
{
}

/// Marker attached by a host program to the entities it renders the
/// snake's body cells with. Carries no data of its own.
pub struct SnakeRenderMarker;

/// Advance interval for a body of the given length: the configured
/// speed-up policy is a single step, from the slowest interval at the
/// initial length of three down to the fast interval once the snake has
/// grown at all. The interval never increases as the body grows.
pub open spec fn spec_advance_interval_ms(len: nat) -> u32 {
    if len <= 3 {
        INITIAL_ADVANCE_MS
    } else {
        FAST_ADVANCE_MS
    }
}

/// Returns the advance interval for a body of length `len`.
pub fn advance_interval_ms(len: usize) -> (r: u32)
    ensures
        r == spec_advance_interval_ms(len as nat),
{
    if len <= 3 {
        INITIAL_ADVANCE_MS
    } else {
        FAST_ADVANCE_MS
    }
}

/// A longer body never slows the snake down: the advance interval is
/// monotonically non-increasing in the body length.
pub proof fn lemma_interval_monotonic(a: nat, b: nat)
    requires
        a <= b,
    ensures
        spec_advance_interval_ms(a) >= spec_advance_interval_ms(b),
{
}

/// The score derived from a body of length `len`: how far the snake has
/// grown beyond its initial three segments.
pub open spec fn spec_score_of(len: nat) -> int {
    len - 3
}

/// Whether any of the first `n` entries of `body` equals `p`.
pub fn prefix_contains(body: &Vec<Ordinance>, n: usize, p: &Ordinance) -> (b: bool)
    requires
        n <= body@.len(),
    ensures
        b == exists|i: int| 0 <= i < n && body@[i] == *p,
{
    let mut i: usize = 0;
    while i < n
        invariant
            0 <= i <= n,
            n <= body@.len(),
            forall|j: int| 0 <= j < i ==> body@[j] != *p,
        decreases n - i,
    {
        if body[i].parent_abs_pos_left == p.parent_abs_pos_left
            && body[i].parent_abs_pos_top == p.parent_abs_pos_top {
            return true;
        }
        i += 1;
    }
    false
}

/// Whether `body` holds `p` as one of its segments.
pub fn contains_position(body: &Vec<Ordinance>, p: &Ordinance) -> (b: bool)
    ensures
        b == body@.contains(*p),
{
    let r = prefix_contains(body, body.len(), p);
    proof {
        if body@.contains(*p) {
            let i = choose|i: int| 0 <= i < body@.len() && body@[i] == *p;
            assert(0 <= i < body@.len() && body@[i] == *p);
        }
    }
    r
}

/// Number of random placements tried before construction falls back to a
/// deterministic position clear of the avoided cell.
const CONSTRUCT_RETRIES: u8 = 32;

/// The snake: an ordered body of grid cells with the head at index zero,
/// a current heading, the countdown that gates how often the body may
/// advance, and the gating state of the simulation.
#[derive(Debug)]
pub struct Snake {
    pub body: Vec<Ordinance>,
    pub direction: Direction,
    pub timer_ms: u32,
    pub state: GameState,
}

impl Snake {
    /// The snake's invariant: at least three segments, all in bounds.
    pub open spec fn wf(self) -> bool {
        &&& self.body@.len() >= 3
        &&& forall|i: int| 0 <= i < self.body@.len() ==> (#[trigger] self.body@[i]).wf()
    }

    /// Whether the head currently stands on the apple, so that the coming
    /// move retains the tail.
    pub open spec fn spec_eating(self, apple: Ordinance) -> bool {
        self.body@[0] == apple
    }

    /// The segments still occupied during the coming move: the whole body
    /// when eating, the body without its vacated tail cell otherwise.
    pub open spec fn spec_retained(self, apple: Ordinance) -> Seq<Ordinance> {
        if self.spec_eating(apple) {
            self.body@
        } else {
            self.body@.drop_last()
        }
    }

    /// The cell the head moves into: one step in the current heading.
    pub open spec fn spec_new_head(self) -> Ordinance {
        self.body@[0].spec_step(self.direction)
    }

    /// Whether the coming move runs the head into a retained segment.
    pub open spec fn spec_collides(self, apple: Ordinance) -> bool {
        self.spec_retained(apple).contains(self.spec_new_head())
    }

    /// The body after a collision-free move: the new head cell in front of
    /// the retained segments.
    pub open spec fn spec_next_body(self, apple: Ordinance) -> Seq<Ordinance> {
        seq![self.spec_new_head()] + self.spec_retained(apple)
    }

    /// Builds a fresh snake whose body avoids `apple_spawned`. Random
    /// placements are tried first; if an unlucky streak keeps hitting the
    /// avoided cell, the snake is laid out vertically in the column right
    /// of that cell, which its body then cannot touch.
    pub fn new(apple_spawned: &Ordinance) -> (s: Snake)
        requires
            apple_spawned.wf(),
        ensures
            s.wf(),
            s.body@.len() == 3,
            s.body@[0] != s.body@[1] && s.body@[1] != s.body@[2] && s.body@[0] != s.body@[2],
            forall|i: int| 0 <= i < s.body@.len() ==> s.body@[i] != *apple_spawned,
            s.timer_ms == INITIAL_ADVANCE_MS,
            s.state == GameState::Running,
    {
        let mut tries: u8 = 0;
        while tries < CONSTRUCT_RETRIES
            decreases CONSTRUCT_RETRIES - tries,
        {
            let snake = Snake::default();
            if !contains_position(&snake.body, apple_spawned) {
                return snake;
            }
            tries += 1;
        }

        let head = Ordinance {
            parent_abs_pos_left: apple_spawned.get_right().parent_abs_pos_left,
            parent_abs_pos_top: 0,
        };
        let abdomen = head.get_bottom();
        let tail = abdomen.get_bottom();
        proof {
            lemma_two_steps_distinct(head, Direction::Down);
        }
        Snake {
            body: vec![head, abdomen, tail],
            direction: Direction::Up,
            timer_ms: INITIAL_ADVANCE_MS,
            state: GameState::Running,
        }
    }

    /// The derived score: how many segments the snake has grown beyond its
    /// initial three. Never negative.
    pub fn score(&self) -> (r: u32)
        requires
            self.wf(),
            self.body@.len() - 3 <= u32::MAX,
        ensures
            r as int == spec_score_of(self.body@.len()),
    {
        (self.body.len() - 3) as u32
    }

    /// Restarts the advance countdown at the interval appropriate to the
    /// current body length.
    pub fn reset_timer(&mut self)
        ensures
            final(self).body@ == old(self).body@,
            final(self).direction == old(self).direction,
            final(self).state == old(self).state,
            final(self).timer_ms == spec_advance_interval_ms(old(self).body@.len()),
    {
        let ms = advance_interval_ms(self.body.len());
        self.timer_ms = ms;
    }

    /// Accepts a direction-change request. The new heading is taken unless
    /// it is the exact reverse of the current one, in which case the
    /// request is silently ignored: a snake cannot turn back into itself.
    pub fn set_direction(&mut self, new_direction: Direction)
        ensures
            final(self).body@ == old(self).body@,
            final(self).timer_ms == old(self).timer_ms,
            final(self).state == old(self).state,
            final(self).direction == (if new_direction == old(self).direction.spec_opposite() {
                old(self).direction
            } else {
                new_direction
            }),
    {
        let reverse = self.direction.opposite();
        if new_direction != reverse {
            self.direction = new_direction;
        }
    }

    /// Pauses the game. Only a running snake becomes paused; a collided
    /// one stays collided until an external reset.
    pub fn pause(&mut self)
        ensures
            final(self).body@ == old(self).body@,
            final(self).direction == old(self).direction,
            final(self).timer_ms == old(self).timer_ms,
            final(self).state == (if old(self).state == GameState::Running {
                GameState::Paused
            } else {
                old(self).state
            }),
    {
        if self.state == GameState::Running {
            self.state = GameState::Paused;
        }
    }

    /// Advances the body by one cell in the current heading. When the head
    /// stands on the apple the tail is retained, so the body grows; else
    /// the tail cell is vacated first, which makes it legal to move into
    /// the cell the tail just left. If the new head cell equals any
    /// retained segment the move is discarded whole: the body is left
    /// exactly as it was and a collision is reported.
    pub fn advance(&mut self, apple: &Apple) -> (e: GameEvent)
        requires
            old(self).wf(),
        ensures
            final(self).wf(),
            final(self).direction == old(self).direction,
            final(self).state == old(self).state,
            old(self).spec_collides(apple.0) ==> ({
                &&& e == GameEvent::Collision
                &&& final(self).body@ == old(self).body@
                &&& final(self).timer_ms == old(self).timer_ms
            }),
            !old(self).spec_collides(apple.0) ==> ({
                &&& final(self).body@ == old(self).spec_next_body(apple.0)
                &&& final(self).timer_ms == spec_advance_interval_ms(
                    old(self).spec_next_body(apple.0).len(),
                )
                &&& e == (if old(self).spec_eating(apple.0) {
                    GameEvent::EatApple
                } else {
                    GameEvent::Continue
                })
            }),
    {
        let eating = self.body[0] == apple.0;
        let new_head = self.body[0].step(self.direction);
        let retained_len: usize = if eating {
            self.body.len()
        } else {
            self.body.len() - 1
        };
        let collides = prefix_contains(&self.body, retained_len, &new_head);
        proof {
            let retained = old(self).spec_retained(apple.0);
            assert(retained.len() == retained_len);
            assert(forall|j: int|
                0 <= j < retained_len ==> retained[j] == old(self).body@[j]);
            if collides {
                let i = choose|i: int| 0 <= i < retained_len && old(self).body@[i] == new_head;
                assert(retained[i] == new_head);
                assert(old(self).spec_collides(apple.0));
            } else if retained.contains(new_head) {
                let i = choose|i: int| 0 <= i < retained.len() && retained[i] == new_head;
                assert(old(self).body@[i] == new_head);
                assert(false);
            }
        }
        if collides {
            return GameEvent::Collision;
        }

        if !eating {
            self.body.pop();
        }
        self.body.insert(0, new_head);
        proof {
            assert(self.body@ =~= old(self).spec_next_body(apple.0));
            assert forall|i: int| 0 <= i < self.body@.len() implies (#[trigger] self.body@[i]).wf()
            by {
                if i > 0 {
                    assert(self.body@[i] == old(self).body@[i - 1]);
                }
            }
        }
        self.reset_timer();
        if eating {
            GameEvent::EatApple
        } else {
            GameEvent::Continue
        }
    }

    /// One tick of the state machine. A paused or collided snake is left
    /// untouched and reports the corresponding event. Otherwise the
    /// elapsed time is taken off the advance countdown; while time
    /// remains, nothing moves. Once the countdown has expired the body
    /// advances, and a collision detected there halts the snake until an
    /// external reset.
    pub fn tick(&mut self, elapsed_ms: u32, apple: &Apple) -> (e: GameEvent)
        requires
            old(self).wf(),
        ensures
            final(self).wf(),
            final(self).direction == old(self).direction,
            old(self).state == GameState::Paused ==> ({
                &&& e == GameEvent::Paused
                &&& final(self).body@ == old(self).body@
                &&& final(self).timer_ms == old(self).timer_ms
                &&& final(self).state == old(self).state
            }),
            old(self).state == GameState::Collided ==> ({
                &&& e == GameEvent::Collision
                &&& final(self).body@ == old(self).body@
                &&& final(self).timer_ms == old(self).timer_ms
                &&& final(self).state == old(self).state
            }),
            old(self).state == GameState::Running && elapsed_ms < old(self).timer_ms ==> ({
                &&& e == GameEvent::Continue
                &&& final(self).body@ == old(self).body@
                &&& final(self).timer_ms == old(self).timer_ms - elapsed_ms
                &&& final(self).state == GameState::Running
            }),
            old(self).state == GameState::Running && elapsed_ms >= old(self).timer_ms ==> ({
                if old(self).spec_collides(apple.0) {
                    &&& e == GameEvent::Collision
                    &&& final(self).body@ == old(self).body@
                    &&& final(self).timer_ms == old(self).timer_ms
                    &&& final(self).state == GameState::Collided
                } else {
                    &&& final(self).body@ == old(self).spec_next_body(apple.0)
                    &&& final(self).timer_ms == spec_advance_interval_ms(
                        old(self).spec_next_body(apple.0).len(),
                    )
                    &&& final(self).state == GameState::Running
                    &&& e == (if old(self).spec_eating(apple.0) {
                        GameEvent::EatApple
                    } else {
                        GameEvent::Continue
                    })
                }
            }),
    {
        match self.state {
            GameState::Paused => {
                return GameEvent::Paused;
            },
            GameState::Collided => {
                return GameEvent::Collision;
            },
            GameState::Running => {},
        }
        if elapsed_ms < self.timer_ms {
            self.timer_ms = self.timer_ms - elapsed_ms;
            return GameEvent::Continue;
        }
        let e = self.advance(apple);
        if e == GameEvent::Collision {
            self.state = GameState::Collided;
        }
        e
    }

    /// Resumes a paused game. Any other state is left as it is.
    pub fn resume(&mut self)
        ensures
            final(self).body@ == old(self).body@,
            final(self).direction == old(self).direction,
            final(self).timer_ms == old(self).timer_ms,
            final(self).state == (if old(self).state == GameState::Paused {
                GameState::Running
            } else {
                old(self).state
            }),
    {
        if self.state == GameState::Paused {
            self.state = GameState::Running;
        }
    }
}

impl Default for Snake {
    /// Builds a snake of length three at a random position with a random
    /// heading; the two trailing segments extend away from the heading, as
    /// if the snake had been moving that way all along. The countdown
    /// starts at the slowest interval and the snake is running.
    fn default() -> (s: Snake)
        ensures
            s.wf(),
            s.body@.len() == 3,
            s.body@[1] == s.body@[0].spec_step(s.direction.spec_opposite()),
            s.body@[2] == s.body@[1].spec_step(s.direction.spec_opposite()),
            s.body@[0] != s.body@[1] && s.body@[1] != s.body@[2] && s.body@[0] != s.body@[2],
            s.timer_ms == INITIAL_ADVANCE_MS,
            s.state == GameState::Running,
    {
        let head = Ordinance {
            parent_abs_pos_left: random_below(CELL_COLS),
            parent_abs_pos_top: random_below(CELL_ROWS),
        };
        let direction = Direction::default();
        let trail = direction.opposite();
        let abdomen = head.step(trail);
        let tail = abdomen.step(trail);
        proof {
            lemma_two_steps_distinct(head, direction.spec_opposite());
        }
        Snake {
            body: vec![head, abdomen, tail],
            direction,
            timer_ms: INITIAL_ADVANCE_MS,
            state: GameState::Running,
        }
    }
}

/// Moving without eating preserves the body length; moving while eating
/// grows it by exactly one segment.
pub proof fn lemma_advance_growth(s: Snake, apple: Ordinance)
    requires
        s.wf(),
    ensures
        s.spec_eating(apple) ==> s.spec_next_body(apple).len() == s.body@.len() + 1,
        !s.spec_eating(apple) ==> s.spec_next_body(apple).len() == s.body@.len(),
{
}

/// The derived score of a well-formed snake is never negative, is zero at
/// the initial length of three, and a collision-free move raises it by
/// one exactly when the snake eats.
pub proof fn lemma_score_invariant(s: Snake, apple: Ordinance)
    requires
        s.wf(),
    ensures
        spec_score_of(s.body@.len()) >= 0,
        s.body@.len() == 3 ==> spec_score_of(s.body@.len()) == 0,
        spec_score_of(s.spec_next_body(apple).len()) == spec_score_of(s.body@.len()) + (
        if s.spec_eating(apple) {
            1int
        } else {
            0int
        }),
{
}

} // verus!
