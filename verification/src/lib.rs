//! Rules engine for a grid-based snake game: movement directions, the
//! snake's body with its advance and grow algorithms, a board with
//! randomized entity placement, collision detection and the game
//! lifecycle state machine. Rendering and input devices are left to the
//! caller, which drives the engine one logical tick at a time.

pub mod driver;
pub mod entities;
pub mod game;
pub mod random;
pub mod snake_obj;

use vstd::prelude::*;

verus! {

/// Lifecycle of a game session.
#[derive(Debug, PartialEq, Eq, Structural)]
pub enum SnakeGameState {
    /// A new game that has not started yet.
    New,
    /// The game is currently in progress and the ticker should be counting.
    Playing,
    /// The game is paused; the ticker should not be counting.
    Paused,
    /// The game has ended; points can be saved and a new game can start.
    Ended,
}

/// A bare game session record: lifecycle state, score and grid size.
/// The full engine, with the snake, the board and the entities, lives in
/// [`game::SnakeGame`].
pub struct SnakeGame {
    pub state: SnakeGameState,
    pub current_score: u16,
    pub columns: u16,
    pub rows: u16,
}

impl SnakeGame {
    /// Returns a new session in [`SnakeGameState::New`] with the desired
    /// dimensions and a score of zero.
    pub fn new(columns: u16, rows: u16) -> (g: SnakeGame)
        ensures
            g.state == SnakeGameState::New,
            g.current_score == 0,
            g.columns == columns,
            g.rows == rows,
    {
        SnakeGame { state: SnakeGameState::New, current_score: 0, columns, rows }
    }

    /// Returns the pair (columns, rows).
    pub fn dimensions(&self) -> (r: (u16, u16))
        ensures
            r == (self.columns, self.rows),
    {
        (self.columns, self.rows)
    }
}

} // verus!
