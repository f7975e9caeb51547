//! Tick outcomes and the gating state of the simulation.

use vstd::prelude::*;

verus! {

/// Outcome of one tick evaluation, consumed by the orchestrator.
#[derive(Clone, Copy, Debug, PartialEq, Eq, Structural)]
pub enum GameEvent {
    /// The tick ran without anything notable: the snake either waited on
    /// its timer or moved onto a free cell.
    Continue,
    /// The snake's head stood on the apple, so the move retained the tail:
    /// the orchestrator must relocate the apple before the next tick.
    EatApple,
    /// The computed new head hit a retained body segment: the snake is
    /// halted until an external reset.
    Collision,
    /// The game is paused; nothing was evaluated.
    Paused,
}

/// Gating state of the snake: whether tick evaluation may advance the body.
#[derive(Clone, Copy, Debug, PartialEq, Eq, Structural)]
pub enum GameState {
    /// Ticks are evaluated normally.
    Running,
    /// Ticks are skipped until the game is resumed.
    Paused,
    /// A self-collision happened; ticks are skipped until an external reset.
    Collided,
}

} // verus!
