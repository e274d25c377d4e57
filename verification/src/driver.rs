//! Driver-side decision logic: what one logical tick does to the game,
//! how a key press is applied, and what each body segment looks like
//! when drawn. The front-end only reads devices, paints glyphs and
//! paces the ticks; every decision is made here.

use vstd::prelude::*;

use crate::entities::EntityKind;
use crate::game::{
    spec_empty_spots, spec_first_hit, spec_hits_self, spec_hits_wall, GameState, SnakeGame,
};
use crate::snake_obj::{
    spec_advanced_body, spec_can_advance, spec_can_grow, spec_grow_tail, Snake, SnakeBodyPoint,
    SnakeDirection,
};

verus! {

/// What the driver should do after one round of input handling.
#[derive(Debug, PartialEq, Eq, Structural, Clone, Copy)]
pub enum InputAction {
    /// Keep playing the current game.
    Continue,
    /// Tear the current game down and start a new one.
    Restart,
    /// Leave the program.
    Quit,
}

/// A key press, already stripped of device detail by the front-end.
#[derive(Debug, PartialEq, Eq, Structural, Clone, Copy)]
pub enum GameKey {
    /// The left arrow.
    Left,
    /// The right arrow.
    Right,
    /// The up arrow.
    Up,
    /// The down arrow.
    Down,
    /// The pause toggle.
    Pause,
    /// The quit request.
    Quit,
    /// The new-game request.
    Restart,
    /// Any other key.
    Other,
}

/// The direction an arrow key requests. The grid's y axis grows
/// downward on screen, so the up arrow asks for Down and vice versa.
pub open spec fn spec_requested_direction(key: GameKey) -> SnakeDirection {
    match key {
        GameKey::Left => SnakeDirection::Left,
        GameKey::Right => SnakeDirection::Right,
        GameKey::Up => SnakeDirection::Down,
        GameKey::Down => SnakeDirection::Up,
        _ => SnakeDirection::Right,
    }
}

/// Applies one key press to the game: quit and restart requests are
/// only reported back, arrows request a direction change (subject to
/// the no-reversal rule), and the pause key toggles between Playing and
/// Paused.
pub fn apply_input(game: &mut SnakeGame, key: GameKey) -> (action: InputAction)
    ensures
        key == GameKey::Quit ==> *final(game) == *old(game) && action == InputAction::Quit,
        key == GameKey::Other ==> *final(game) == *old(game) && action == InputAction::Continue,
        key == GameKey::Restart ==> *final(game) == *old(game) && action == (
        if old(game).state == GameState::Ended {
            InputAction::Restart
        } else {
            InputAction::Continue
        }),
        (key == GameKey::Left || key == GameKey::Right || key == GameKey::Up || key
            == GameKey::Down) ==> {
            &&& action == InputAction::Continue
            &&& final(game).snake.direction == ({
                let requested = spec_requested_direction(key);
                if requested == old(game).snake.direction.opposite() {
                    old(game).snake.direction
                } else {
                    requested
                }
            })
            &&& final(game).snake.body == old(game).snake.body
            &&& final(game).state == old(game).state
            &&& final(game).score == old(game).score
            &&& final(game).columns == old(game).columns
            &&& final(game).rows == old(game).rows
            &&& final(game).entities == old(game).entities
            &&& final(game).game_board == old(game).game_board
        },
        key == GameKey::Pause ==> {
            &&& action == InputAction::Continue
            &&& final(game).state == (if old(game).state == GameState::Playing {
                GameState::Paused
            } else if old(game).state == GameState::Paused {
                GameState::Playing
            } else {
                old(game).state
            })
            &&& final(game).snake == old(game).snake
            &&& final(game).score == old(game).score
            &&& final(game).columns == old(game).columns
            &&& final(game).rows == old(game).rows
            &&& final(game).entities == old(game).entities
            &&& final(game).game_board == old(game).game_board
        },
{
    match key {
        GameKey::Quit => InputAction::Quit,
        GameKey::Left => {
            game.snake.set_direction(SnakeDirection::Left);
            InputAction::Continue
        },
        GameKey::Right => {
            game.snake.set_direction(SnakeDirection::Right);
            InputAction::Continue
        },
        GameKey::Up => {
            game.snake.set_direction(SnakeDirection::Down);
            InputAction::Continue
        },
        GameKey::Down => {
            game.snake.set_direction(SnakeDirection::Up);
            InputAction::Continue
        },
        GameKey::Pause => {
            if game.get_state() == GameState::Playing {
                let _ = game.set_state(GameState::Paused);
            } else if game.get_state() == GameState::Paused {
                let _ = game.set_state(GameState::Playing);
            }
            InputAction::Continue
        },
        GameKey::Restart => {
            if game.get_state() == GameState::Ended {
                InputAction::Restart
            } else {
                InputAction::Continue
            }
        },
        GameKey::Other => InputAction::Continue,
    }
}

/// Everything one playing tick does to the game and the tick interval.
/// After the snake advances: on a wall or self collision the game ends
/// unchanged otherwise; a first entity sitting on the new head is
/// consumed, and when it is an apple the snake grows, the score rises
/// by one and an interval above 100 shrinks by 10; finally, an empty
/// entity pool is refilled with an apple on a random empty cell, and
/// the game ends when no empty cell is left.
pub open spec fn spec_tick_rel(g0: SnakeGame, t0: u64, g1: SnakeGame, t1: u64) -> bool {
    let d = g0.snake.direction;
    let body1 = spec_advanced_body(g0.snake.body@, d);
    let collided = spec_hits_wall(body1, g0.columns, g0.rows) || spec_hits_self(body1);
    if collided {
        &&& g1.state == GameState::Ended
        &&& g1.snake.direction == d
        &&& g1.snake.body@ == body1
        &&& g1.score == g0.score
        &&& g1.entities == g0.entities
        &&& g1.columns == g0.columns
        &&& g1.rows == g0.rows
        &&& g1.game_board == g0.game_board
        &&& t1 == t0
    } else {
        let hit = spec_first_hit(g0.entities@, body1[0]);
        let ate = match hit {
            Some(i) => g0.entities@[i].kind == EntityKind::Apple,
            None => false,
        };
        let entities1 = match hit {
            Some(i) => g0.entities@.remove(i),
            None => g0.entities@,
        };
        let body2 = if ate {
            body1.push(spec_grow_tail(body1, d))
        } else {
            body1
        };
        &&& g1.snake.direction == d
        &&& g1.snake.body@ == body2
        &&& g1.score == (if ate {
            (g0.score + 1) as u16
        } else {
            g0.score
        })
        &&& t1 == (if ate && t0 > 100 {
            (t0 - 10) as u64
        } else {
            t0
        })
        &&& g1.columns == g0.columns
        &&& g1.rows == g0.rows
        &&& g1.game_board == g0.game_board
        &&& if entities1.len() == 0 {
            let spots = spec_empty_spots(g0.game_board@, body2);
            if spots.len() == 0 {
                &&& g1.state == GameState::Ended
                &&& g1.entities@ == entities1
            } else {
                &&& g1.state == GameState::Playing
                &&& g1.entities@.len() == 1
                &&& g1.entities@[0].kind == EntityKind::Apple
                &&& spots.contains((g1.entities@[0].x, g1.entities@[0].y))
            }
        } else {
            &&& g1.state == GameState::Playing
            &&& g1.entities@ == entities1
        }
    }
}

/// Law: one logical game tick, exactly as the driver composes it from
/// the engine primitives. A game that is not playing is left untouched;
/// a playing game and the tick interval change as [`spec_tick_rel`]
/// describes.
pub fn game_logic(game: &mut SnakeGame, timer: &mut u64)
    requires
        old(game).state == GameState::Playing ==> spec_can_advance(
            old(game).snake.body@,
            old(game).snake.direction,
        ),
        old(game).state == GameState::Playing ==> ({
            let body1 = spec_advanced_body(old(game).snake.body@, old(game).snake.direction);
            let collided = spec_hits_wall(body1, old(game).columns, old(game).rows)
                || spec_hits_self(body1);
            !collided ==> match spec_first_hit(old(game).entities@, body1[0]) {
                Some(i) => old(game).entities@[i].kind == EntityKind::Apple ==> (spec_can_grow(
                    body1,
                    old(game).snake.direction,
                ) && old(game).score < u16::MAX),
                None => true,
            }
        }),
    ensures
        old(game).state != GameState::Playing ==> *final(game) == *old(game) && *final(timer)
            == *old(timer),
        old(game).state == GameState::Playing ==> spec_tick_rel(
            *old(game),
            *old(timer),
            *final(game),
            *final(timer),
        ),
{
    if game.get_state() == GameState::Playing {
        game.snake.advance();
        if game.check_collisions() {
            let _ = game.set_state(GameState::Ended);
            return ;
        }
        match game.check_entity_collision() {
            Some(hit) => {
                match hit.downcast_ref() {
                    Some(_apple) => {
                        game.snake.grow();
                        game.score = game.score + 1;
                        if *timer > 100 {
                            *timer = *timer - 10;
                        }
                    },
                    None => {},
                }
            },
            None => {},
        }
        if game.entities.len() == 0 {
            if !game.generate_entity(EntityKind::Apple) {
                let _ = game.set_state(GameState::Ended);
                return ;
            }
        }
    }
}

/// The glyph body segment `i` is drawn with: the head is an arrow for
/// the current direction (the y axis grows downward on screen), a trunk
/// segment is '|' when vertically aligned with its predecessor, '-'
/// when horizontally aligned, and 's' on a bend.
pub open spec fn spec_segment_glyph(body: Seq<SnakeBodyPoint>, d: SnakeDirection, i: int) -> char {
    if i == 0 {
        match d {
            SnakeDirection::Up => 'v',
            SnakeDirection::Down => '^',
            SnakeDirection::Left => '<',
            SnakeDirection::Right => '>',
        }
    } else if body[i].x == body[i - 1].x {
        '|'
    } else if body[i].y == body[i - 1].y {
        '-'
    } else {
        's'
    }
}

/// The glyph to draw for body segment `i` of the snake.
pub fn segment_glyph(snake: &Snake, i: usize) -> (c: char)
    requires
        i < snake.body@.len(),
    ensures
        c == spec_segment_glyph(snake.body@, snake.direction, i as int),
{
    if i == 0 {
        match snake.direction {
            SnakeDirection::Up => 'v',
            SnakeDirection::Down => '^',
            SnakeDirection::Left => '<',
            SnakeDirection::Right => '>',
        }
    } else {
        let current = snake.body[i];
        let prev = snake.body[i - 1];
        if current.x == prev.x {
            '|'
        } else if current.y == prev.y {
            '-'
        } else {
            's'
        }
    }
}

/// The playing field carved out of a terminal of the given size. The
/// terminal must offer at least 84 columns and 24 rows; one column is
/// then kept back so a wall collision shows without an extra frame, and
/// four rows are kept for the info text below the field.
pub fn playfield_dimensions(cols: u16, rows: u16) -> (r: Option<(u16, u16)>)
    ensures
        r is Some <==> (cols >= 84 && rows >= 24),
        r matches Some(p) ==> p == ((cols - 1) as u16, (rows - 4) as u16),
{
    if cols < 84 || rows < 24 {
        None
    } else {
        Some((cols - 1, rows - 4))
    }
}

} // verus!
