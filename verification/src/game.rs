//! The board and game lifecycle: grid cell enumeration, wall and self
//! collision detection, entity placement on a random empty cell, entity
//! pickup, and the New / Playing / Paused / Ended state machine.

use vstd::prelude::*;

use crate::entities::{Entity, EntityKind};
use crate::random::random_below;
use crate::snake_obj::{Snake, SnakeBodyPoint, SnakeDirection};

verus! {

use vstd::arithmetic::div_mod::lemma_fundamental_div_mod_converse;

/// Represents the state of the game.
#[derive(Debug, PartialEq, Eq, Structural, Copy, Clone)]
pub enum GameState {
    /// A new game that has not started yet.
    New,
    /// The game is currently in progress and the ticker should be counting.
    Playing,
    /// The game is paused; the ticker should not be counting.
    Paused,
    /// The game has ended due to player failure or a perfect run;
    /// at this point, points should be saved and a new game can start.
    Ended,
}

/// A caller error: a game constructed outside its grid, or a lifecycle
/// transition the state machine forbids.
#[derive(Debug, PartialEq, Eq, Structural, Copy, Clone)]
pub enum GameError {
    /// The starting position lies outside the inclusive grid bounds.
    StartOutOfBounds,
    /// No transition may enter the New state.
    TransitionToNew,
    /// Ended is terminal: no transition leaves it.
    TransitionFromEnded,
    /// A transition to the state already held is forbidden.
    TransitionToSameState,
}

/// The enumeration of all grid cells, column by column: for positive
/// dimensions, cell `k` is `(k / rows, k % rows)`; otherwise empty.
pub open spec fn spec_game_board(columns: int, rows: int) -> Seq<(i16, i16)> {
    if columns <= 0 || rows <= 0 {
        Seq::empty()
    } else {
        Seq::new((columns * rows) as nat, |k: int| ((k / rows) as i16, (k % rows) as i16))
    }
}

/// The head lies outside the inclusive bounds: a coordinate is strictly
/// negative or strictly greater than columns / rows. Position == columns
/// or == rows still counts as in bounds.
pub open spec fn spec_hits_wall(body: Seq<SnakeBodyPoint>, columns: i16, rows: i16) -> bool {
    body[0].x > columns || body[0].y > rows || body[0].x < 0 || body[0].y < 0
}

/// The head coordinates match some other body segment's coordinates.
pub open spec fn spec_hits_self(body: Seq<SnakeBodyPoint>) -> bool {
    exists|i: int|
        1 <= i < body.len() && (#[trigger] body[i]).x == body[0].x && body[i].y == body[0].y
}

/// Some snake segment sits on the given cell.
pub open spec fn spec_occupies(body: Seq<SnakeBodyPoint>, pos: (i16, i16)) -> bool {
    exists|i: int| 0 <= i < body.len() && (#[trigger] body[i]).x == pos.0 && body[i].y == pos.1
}

/// The board cells not occupied by any snake segment, in board order.
pub open spec fn spec_empty_spots(board: Seq<(i16, i16)>, body: Seq<SnakeBodyPoint>) -> Seq<
    (i16, i16),
> {
    board.filter(|pos: (i16, i16)| !spec_occupies(body, pos))
}

/// The entity sits exactly on the given head position.
pub open spec fn spec_entity_at(e: Entity, head: SnakeBodyPoint) -> bool {
    e.x == head.x && e.y == head.y
}

/// Index of the first entity, in collection order, sitting on `head`.
pub open spec fn spec_first_hit(entities: Seq<Entity>, head: SnakeBodyPoint) -> Option<int>
    decreases entities.len(),
{
    if entities.len() == 0 {
        None
    } else if spec_entity_at(entities[0], head) {
        Some(0int)
    } else {
        match spec_first_hit(entities.drop_first(), head) {
            None => None,
            Some(i) => Some(i + 1),
        }
    }
}

/// A forward scan that saw no hit before `i`, and a hit at `i` unless it
/// ran off the end, has found the first hit (or shown there is none).
proof fn lemma_first_hit_scan(entities: Seq<Entity>, head: SnakeBodyPoint, i: int)
    requires
        0 <= i <= entities.len(),
        forall|j: int| 0 <= j < i ==> !spec_entity_at(#[trigger] entities[j], head),
        i < entities.len() ==> spec_entity_at(entities[i], head),
    ensures
        spec_first_hit(entities, head) == if i < entities.len() {
            Some(i)
        } else {
            Option::<int>::None
        },
    decreases entities.len(),
{
    if entities.len() == 0 {
    } else if i == 0 {
    } else {
        assert(!spec_entity_at(entities[0], head));
        assert forall|j: int| 0 <= j < i - 1 implies !spec_entity_at(
            #[trigger] entities.drop_first()[j],
            head,
        ) by {
            assert(entities.drop_first()[j] == entities[j + 1]);
        }
        if i < entities.len() {
            assert(entities.drop_first()[i - 1] == entities[i]);
        }
        lemma_first_hit_scan(entities.drop_first(), head, i - 1);
    }
}

/// Appending a cell to the board keeps the empty spots and appends the
/// cell exactly when no snake segment occupies it.
proof fn lemma_empty_spots_push(board: Seq<(i16, i16)>, body: Seq<SnakeBodyPoint>, pos: (i16, i16))
    ensures
        spec_empty_spots(board.push(pos), body) == if !spec_occupies(body, pos) {
            spec_empty_spots(board, body).push(pos)
        } else {
            spec_empty_spots(board, body)
        },
{
    reveal(Seq::<_>::filter);
    assert(board.push(pos).drop_last() =~= board);
    assert(board.push(pos).last() == pos);
}

/// The starting position lies within the inclusive bounds
/// [0, columns] x [0, rows].
pub open spec fn spec_start_in_bounds(columns: i16, rows: i16, start: (i16, i16)) -> bool {
    0 <= start.0 <= columns && 0 <= start.1 <= rows
}

/// Construction succeeds: an explicit start must lie in bounds, the
/// default mid-board start needs only non-negative dimensions.
pub open spec fn spec_new_ok(
    columns: i16,
    rows: i16,
    starting_position: Option<(i16, i16)>,
) -> bool {
    match starting_position {
        Some(p) => spec_start_in_bounds(columns, rows, p),
        None => columns >= 0 && rows >= 0,
    }
}

/// The starting cell a successful construction uses: the explicit one,
/// or mid-board by default.
pub open spec fn spec_start_position(
    columns: i16,
    rows: i16,
    starting_position: Option<(i16, i16)>,
) -> (int, int) {
    match starting_position {
        Some(p) => (p.0 as int, p.1 as int),
        None => (columns as int / 2, rows as int / 2),
    }
}

/// Holds all the data related to a game.
pub struct SnakeGame {
    pub state: GameState,
    pub score: u16,
    pub columns: i16,
    pub rows: i16,
    pub snake: Snake,
    pub entities: Vec<Entity>,
    pub game_board: Vec<(i16, i16)>,
}

impl SnakeGame {
    /// Enumerates every legal grid cell, column by column: `(x, y)` for
    /// 0 <= x < columns and 0 <= y < rows.
    pub fn game_board(columns: &i16, rows: &i16) -> (board: Vec<(i16, i16)>)
        ensures
            board@ == spec_game_board(*columns as int, *rows as int),
    {
        let cols: i16 = *columns;
        let rws: i16 = *rows;
        let mut board: Vec<(i16, i16)> = Vec::new();
        if cols <= 0 || rws <= 0 {
            proof {
                assert(board@ =~= spec_game_board(cols as int, rws as int));
            }
            return board;
        }
        let mut x: i16 = 0;
        while x < cols
            invariant
                0 <= x <= cols,
                0 < cols,
                0 < rws,
                board@.len() == x as int * rws as int,
                forall|k: int|
                    0 <= k < board@.len() ==> #[trigger] board@[k] == (
                        (k / (rws as int)) as i16,
                        (k % (rws as int)) as i16,
                    ),
            decreases cols - x,
        {
            let mut y: i16 = 0;
            while y < rws
                invariant
                    0 <= y <= rws,
                    0 <= x < cols,
                    0 < rws,
                    board@.len() == x as int * rws as int + y as int,
                    forall|k: int|
                        0 <= k < board@.len() ==> #[trigger] board@[k] == (
                            (k / (rws as int)) as i16,
                            (k % (rws as int)) as i16,
                        ),
                decreases rws - y,
            {
                board.push((x, y));
                proof {
                    lemma_fundamental_div_mod_converse(
                        x as int * rws as int + y as int,
                        rws as int,
                        x as int,
                        y as int,
                    );
                }
                y = y + 1;
            }
            proof {
                assert((x as int + 1) * rws as int == x as int * rws as int + rws as int)
                    by (nonlinear_arith);
            }
            x = x + 1;
        }
        proof {
            assert(board@ =~= spec_game_board(cols as int, rws as int));
        }
        board
    }

    /// Builds a new game in [`GameState::New`] with the desired
    /// dimensions, the cell enumeration, an empty entity collection and
    /// a one-segment snake at the starting position (mid-board unless
    /// given) facing `snake_direction` (Right unless given). Fails with
    /// [`GameError::StartOutOfBounds`] exactly when the starting
    /// position lies outside [0, columns] x [0, rows].
    pub fn new(
        columns: i16,
        rows: i16,
        snake_direction: Option<SnakeDirection>,
        starting_position: Option<(i16, i16)>,
    ) -> (r: Result<SnakeGame, GameError>)
        ensures
            r is Ok <==> spec_new_ok(columns, rows, starting_position),
            r matches Err(e) ==> e == GameError::StartOutOfBounds,
            r matches Ok(g) ==> {
                &&& g.state == GameState::New
                &&& g.score == 0
                &&& g.columns == columns
                &&& g.rows == rows
                &&& g.entities@.len() == 0
                &&& g.game_board@ == spec_game_board(columns as int, rows as int)
                &&& g.snake.direction == match snake_direction {
                    Some(d) => d,
                    None => SnakeDirection::Right,
                }
                &&& g.snake.body@.len() == 1
                &&& (g.snake.body@[0].x as int, g.snake.body@[0].y as int)
                    == spec_start_position(columns, rows, starting_position)
            },
    {
        let start: (i16, i16) = match starting_position {
            Some(p) => p,
            None => {
                if columns < 0 || rows < 0 {
                    return Err(GameError::StartOutOfBounds);
                }
                (((columns as u16) / 2) as i16, ((rows as u16) / 2) as i16)
            },
        };
        if start.0 < 0 || start.0 > columns || start.1 < 0 || start.1 > rows {
            return Err(GameError::StartOutOfBounds);
        }
        let direction = match snake_direction {
            Some(d) => d,
            None => SnakeDirection::Right,
        };
        Ok(
            SnakeGame {
                state: GameState::New,
                score: 0,
                snake: Snake::new(start, direction),
                entities: Vec::new(),
                game_board: SnakeGame::game_board(&columns, &rows),
                columns,
                rows,
            },
        )
    }

    /// Returns the pair (columns, rows).
    pub fn dimensions(&self) -> (r: (i16, i16))
        ensures
            r == (self.columns, self.rows),
    {
        (self.columns, self.rows)
    }

    /// Law: the lifecycle state machine. A transition succeeds exactly
    /// when it does not enter New, does not leave the terminal Ended
    /// state and does not re-enter the state already held; on failure
    /// the game is unchanged and the error names the violated rule, on
    /// success only the state changes.
    pub fn set_state(&mut self, state: GameState) -> (r: Result<(), GameError>)
        ensures
            r is Ok <==> (state != GameState::New && old(self).state != GameState::Ended
                && old(self).state != state),
            r is Err ==> *final(self) == *old(self),
            state == GameState::New ==> r == Err::<(), GameError>(GameError::TransitionToNew),
            state != GameState::New && old(self).state == GameState::Ended ==> r == Err::<
                (),
                GameError,
            >(GameError::TransitionFromEnded),
            state != GameState::New && old(self).state != GameState::Ended && old(
                self,
            ).state == state ==> r == Err::<(), GameError>(GameError::TransitionToSameState),
            r is Ok ==> {
                &&& final(self).state == state
                &&& final(self).score == old(self).score
                &&& final(self).columns == old(self).columns
                &&& final(self).rows == old(self).rows
                &&& final(self).snake == old(self).snake
                &&& final(self).entities == old(self).entities
                &&& final(self).game_board == old(self).game_board
            },
    {
        if state == GameState::New {
            return Err(GameError::TransitionToNew);
        }
        if self.state == GameState::Ended {
            return Err(GameError::TransitionFromEnded);
        }
        if self.state == state {
            return Err(GameError::TransitionToSameState);
        }
        self.state = state;
        Ok(())
    }

    /// Returns the current state of the game.
    pub fn get_state(&self) -> (s: GameState)
        ensures
            s == self.state,
    {
        self.state
    }

    /// Law: true iff the head lies outside the inclusive bounds (a
    /// coordinate strictly negative or strictly greater than columns /
    /// rows) or matches another body segment's coordinates. Pure query.
    pub fn check_collisions(&self) -> (r: bool)
        requires
            self.snake.body@.len() >= 1,
        ensures
            r == (spec_hits_wall(self.snake.body@, self.columns, self.rows) || spec_hits_self(
                self.snake.body@,
            )),
    {
        let head = self.snake.body[0];
        if head.x > self.columns || head.y > self.rows || head.x < 0 || head.y < 0 {
            return true;
        }
        let mut i: usize = 1;
        while i < self.snake.body.len()
            invariant
                1 <= i <= self.snake.body@.len(),
                head == self.snake.body@[0],
                forall|j: int|
                    1 <= j < i ==> !((#[trigger] self.snake.body@[j]).x == head.x
                        && self.snake.body@[j].y == head.y),
            decreases self.snake.body@.len() - i,
        {
            let p = self.snake.body[i];
            if p.x == head.x && p.y == head.y {
                return true;
            }
            i = i + 1;
        }
        false
    }

    /// True when some snake segment sits on the given cell.
    fn position_occupied(body: &Vec<SnakeBodyPoint>, pos: (i16, i16)) -> (r: bool)
        ensures
            r == spec_occupies(body@, pos),
    {
        let mut i: usize = 0;
        while i < body.len()
            invariant
                0 <= i <= body@.len(),
                forall|j: int|
                    0 <= j < i ==> !((#[trigger] body@[j]).x == pos.0 && body@[j].y == pos.1),
            decreases body@.len() - i,
        {
            let p = body[i];
            if p.x == pos.0 && p.y == pos.1 {
                return true;
            }
            i = i + 1;
        }
        false
    }

    /// The grid cells not occupied by any snake segment, in board
    /// order.
    pub fn empty_spots(&self) -> (spots: Vec<(i16, i16)>)
        ensures
            spots@ == spec_empty_spots(self.game_board@, self.snake.body@),
    {
        let mut spots: Vec<(i16, i16)> = Vec::new();
        let mut i: usize = 0;
        while i < self.game_board.len()
            invariant
                0 <= i <= self.game_board@.len(),
                spots@ == spec_empty_spots(self.game_board@.take(i as int), self.snake.body@),
            decreases self.game_board@.len() - i,
        {
            let pos = self.game_board[i];
            proof {
                assert(self.game_board@.take(i as int + 1) =~= self.game_board@.take(
                    i as int,
                ).push(pos));
                lemma_empty_spots_push(
                    self.game_board@.take(i as int),
                    self.snake.body@,
                    pos,
                );
            }
            if !SnakeGame::position_occupied(&self.snake.body, pos) {
                spots.push(pos);
            }
            i = i + 1;
        }
        proof {
            assert(self.game_board@.take(self.game_board@.len() as int) =~= self.game_board@);
        }
        spots
    }

    /// Law: placement fails, changing nothing, exactly when no empty
    /// cell is left; otherwise it appends one entity of the given kind
    /// on some empty cell, chosen uniformly at random by the injected
    /// source, and changes nothing else.
    pub fn generate_entity(&mut self, kind: EntityKind) -> (r: bool)
        ensures
            r == (spec_empty_spots(old(self).game_board@, old(self).snake.body@).len() > 0),
            !r ==> *final(self) == *old(self),
            r ==> {
                &&& final(self).entities@.len() == old(self).entities@.len() + 1
                &&& final(self).entities@.subrange(0, old(self).entities@.len() as int) == old(
                    self,
                ).entities@
                &&& final(self).entities@.last().kind == kind
                &&& spec_empty_spots(old(self).game_board@, old(self).snake.body@).contains(
                    (final(self).entities@.last().x, final(self).entities@.last().y),
                )
                &&& final(self).state == old(self).state
                &&& final(self).score == old(self).score
                &&& final(self).columns == old(self).columns
                &&& final(self).rows == old(self).rows
                &&& final(self).snake == old(self).snake
                &&& final(self).game_board == old(self).game_board
            },
    {
        let empty_spots = self.empty_spots();
        if empty_spots.len() == 0 {
            return false;
        }
        let idx = random_below(empty_spots.len());
        let new_position = empty_spots[idx];
        proof {
            assert(spec_empty_spots(self.game_board@, self.snake.body@)[idx as int]
                == new_position);
        }
        self.entities.push(Entity { kind, x: new_position.0, y: new_position.1 });
        proof {
            assert(self.entities@.subrange(0, old(self).entities@.len() as int) =~= old(
                self,
            ).entities@);
        }
        true
    }

    /// Law: scans the entities in collection order; removes and returns
    /// the first one sitting on the head position, leaving the others
    /// untouched in order; returns nothing, changing nothing, when no
    /// entity matches.
    pub fn check_entity_collision(&mut self) -> (r: Option<Entity>)
        requires
            old(self).snake.body@.len() >= 1,
        ensures
            ({
                let head = old(self).snake.body@[0];
                match spec_first_hit(old(self).entities@, head) {
                    None => r is None && *final(self) == *old(self),
                    Some(i) => {
                        &&& r == Some(old(self).entities@[i])
                        &&& final(self).entities@ == old(self).entities@.remove(i)
                        &&& final(self).state == old(self).state
                        &&& final(self).score == old(self).score
                        &&& final(self).columns == old(self).columns
                        &&& final(self).rows == old(self).rows
                        &&& final(self).snake == old(self).snake
                        &&& final(self).game_board == old(self).game_board
                    },
                }
            }),
    {
        let head = self.snake.body[0];
        let mut i: usize = 0;
        while i < self.entities.len()
            invariant
                0 <= i <= self.entities@.len(),
                head == self.snake.body@[0],
                self == old(self),
                forall|j: int| 0 <= j < i ==> !spec_entity_at(#[trigger] self.entities@[j], head),
            decreases self.entities@.len() - i,
        {
            let e = self.entities[i];
            if head.x == e.x && head.y == e.y {
                proof {
                    lemma_first_hit_scan(self.entities@, head, i as int);
                }
                let removed = self.entities.remove(i);
                return Some(removed);
            }
            i = i + 1;
        }
        proof {
            lemma_first_hit_scan(self.entities@, head, self.entities@.len() as int);
        }
        None
    }
}

} // verus!
