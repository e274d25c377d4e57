//! The snake itself: its movement directions, its body as an ordered
//! sequence of grid points (head first), and the advance and grow
//! algorithms.

use vstd::prelude::*;

verus! {

/// Every tick of the game the snake moves one cell in the direction it
/// currently points at; the player changes this between ticks.
#[derive(Debug, PartialEq, Eq, Structural, Clone, Copy)]
pub enum SnakeDirection {
    Up,
    Down,
    Left,
    Right,
}

impl SnakeDirection {
    /// The direction pointing the opposite way (Up and Down, Left and
    /// Right form the two opposite pairs).
    pub open spec fn opposite(self) -> SnakeDirection {
        match self {
            SnakeDirection::Up => SnakeDirection::Down,
            SnakeDirection::Down => SnakeDirection::Up,
            SnakeDirection::Left => SnakeDirection::Right,
            SnakeDirection::Right => SnakeDirection::Left,
        }
    }

    /// True exactly when `other` is the opposite of `self`.
    pub fn is_opposite(&self, other: &SnakeDirection) -> (r: bool)
        ensures
            r == (*other == self.opposite()),
    {
        match (*self, *other) {
            (SnakeDirection::Up, SnakeDirection::Down) => true,
            (SnakeDirection::Down, SnakeDirection::Up) => true,
            (SnakeDirection::Left, SnakeDirection::Right) => true,
            (SnakeDirection::Right, SnakeDirection::Left) => true,
            _ => false,
        }
    }
}

/// Law: the opposite-pair relation is total, symmetric and irreflexive.
/// Every direction is the opposite of its own opposite, and no direction
/// is its own opposite; hence `is_opposite(d, d.opposite())` holds and
/// `is_opposite(d, d)` never does.
pub proof fn lemma_opposite_pairs(d: SnakeDirection)
    ensures
        d.opposite() != d,
        d.opposite().opposite() == d,
{
}

/// Point of the snake on the game grid.
#[derive(Clone, Copy, PartialEq, Eq, Structural, Debug)]
pub struct SnakeBodyPoint {
    pub x: i16,
    pub y: i16,
}

/// The head position after one step along `d` from `head`: Up increases
/// y, Down decreases it, Left decreases x, Right increases x.
pub open spec fn spec_new_head(head: SnakeBodyPoint, d: SnakeDirection) -> SnakeBodyPoint {
    match d {
        SnakeDirection::Up => SnakeBodyPoint { x: head.x, y: (head.y + 1) as i16 },
        SnakeDirection::Down => SnakeBodyPoint { x: head.x, y: (head.y - 1) as i16 },
        SnakeDirection::Left => SnakeBodyPoint { x: (head.x - 1) as i16, y: head.y },
        SnakeDirection::Right => SnakeBodyPoint { x: (head.x + 1) as i16, y: head.y },
    }
}

/// The body is non-empty and the stepped head coordinate stays
/// representable, so one advance cannot overflow.
pub open spec fn spec_can_advance(body: Seq<SnakeBodyPoint>, d: SnakeDirection) -> bool {
    &&& body.len() >= 1
    &&& match d {
        SnakeDirection::Up => body[0].y < i16::MAX,
        SnakeDirection::Down => body[0].y > i16::MIN,
        SnakeDirection::Left => body[0].x > i16::MIN,
        SnakeDirection::Right => body[0].x < i16::MAX,
    }
}

/// The body after one advance: the stepped head in front, every other
/// segment shifted to its predecessor's place, the old tail gone.
pub open spec fn spec_advanced_body(body: Seq<SnakeBodyPoint>, d: SnakeDirection) -> Seq<
    SnakeBodyPoint,
> {
    seq![spec_new_head(body[0], d)] + body.drop_last()
}

/// The segment appended by one grow. With a single segment there is no
/// second segment to infer travel from, so the tail is offset one step
/// opposite the current heading (behind the snake); with two or more
/// segments it extrapolates the line through the last two segments.
pub open spec fn spec_grow_tail(body: Seq<SnakeBodyPoint>, d: SnakeDirection) -> SnakeBodyPoint {
    if body.len() < 2 {
        let t = body[0];
        match d {
            SnakeDirection::Up => SnakeBodyPoint { x: t.x, y: (t.y - 1) as i16 },
            SnakeDirection::Down => SnakeBodyPoint { x: t.x, y: (t.y + 1) as i16 },
            SnakeDirection::Left => SnakeBodyPoint { x: (t.x + 1) as i16, y: t.y },
            SnakeDirection::Right => SnakeBodyPoint { x: (t.x - 1) as i16, y: t.y },
        }
    } else {
        let last = body[body.len() - 1];
        let prev = body[body.len() - 2];
        SnakeBodyPoint {
            x: (last.x + (last.x - prev.x)) as i16,
            y: (last.y + (last.y - prev.y)) as i16,
        }
    }
}

/// The body is non-empty and the appended tail computation stays within
/// i16, so one grow cannot overflow.
pub open spec fn spec_can_grow(body: Seq<SnakeBodyPoint>, d: SnakeDirection) -> bool {
    &&& body.len() >= 1
    &&& if body.len() < 2 {
        match d {
            SnakeDirection::Up => body[0].y > i16::MIN,
            SnakeDirection::Down => body[0].y < i16::MAX,
            SnakeDirection::Left => body[0].x < i16::MAX,
            SnakeDirection::Right => body[0].x > i16::MIN,
        }
    } else {
        let last = body[body.len() - 1];
        let prev = body[body.len() - 2];
        &&& i16::MIN <= last.x - prev.x <= i16::MAX
        &&& i16::MIN <= last.y - prev.y <= i16::MAX
        &&& i16::MIN <= last.x + (last.x - prev.x) <= i16::MAX
        &&& i16::MIN <= last.y + (last.y - prev.y) <= i16::MAX
    }
}

/// Player: current direction and the ordered body, head first, tail
/// last, never empty while handled through the methods below.
pub struct Snake {
    pub direction: SnakeDirection,
    pub body: Vec<SnakeBodyPoint>,
}

impl Snake {
    /// A snake with exactly one body segment at `starting_position`,
    /// facing `initial_direction`. Grid bounds are the caller's concern.
    pub fn new(starting_position: (i16, i16), initial_direction: SnakeDirection) -> (s: Snake)
        ensures
            s.direction == initial_direction,
            s.body@ =~= seq![
                SnakeBodyPoint { x: starting_position.0, y: starting_position.1 },
            ],
    {
        let (x, y) = starting_position;
        let first_body_part = SnakeBodyPoint { x, y };
        Snake { direction: initial_direction, body: vec![first_body_part] }
    }

    /// The direction the snake currently points at.
    pub fn get_direction(&self) -> (d: SnakeDirection)
        ensures
            d == self.direction,
    {
        self.direction
    }

    /// Law: requests to reverse into the exact opposite of the current
    /// direction are silently ignored; any other direction is taken.
    pub fn set_direction(&mut self, new_direction: SnakeDirection)
        ensures
            final(self).body == old(self).body,
            final(self).direction == if new_direction == old(self).direction.opposite() {
                old(self).direction
            } else {
                new_direction
            },
    {
        if !self.direction.is_opposite(&new_direction) {
            self.direction = new_direction;
        }
    }

    /// Law: advancing keeps the body length, puts the stepped head in
    /// front and shifts every non-head segment to the position its
    /// predecessor held before the call.
    pub fn advance(&mut self)
        requires
            spec_can_advance(old(self).body@, old(self).direction),
        ensures
            final(self).direction == old(self).direction,
            final(self).body@ == spec_advanced_body(old(self).body@, old(self).direction),
            final(self).body@.len() == old(self).body@.len(),
            final(self).body@[0] == spec_new_head(old(self).body@[0], old(self).direction),
            forall|i: int|
                1 <= i < final(self).body@.len() ==> final(self).body@[i] == old(self).body@[i
                    - 1],
    {
        let head: SnakeBodyPoint = self.body[0];
        let new_head = match self.direction {
            SnakeDirection::Up => SnakeBodyPoint { x: head.x, y: head.y + 1 },
            SnakeDirection::Down => SnakeBodyPoint { x: head.x, y: head.y - 1 },
            SnakeDirection::Left => SnakeBodyPoint { x: head.x - 1, y: head.y },
            SnakeDirection::Right => SnakeBodyPoint { x: head.x + 1, y: head.y },
        };
        self.body.insert(0, new_head);
        self.body.pop();
        proof {
            assert(self.body@ =~= spec_advanced_body(old(self).body@, old(self).direction));
        }
    }

    /// Law: growing appends exactly one segment and changes nothing
    /// else. For a body of two or more segments the new tail lies on
    /// the line extrapolated through the last two prior segments; for a
    /// single segment it is placed one step behind the heading.
    pub fn grow(&mut self)
        requires
            spec_can_grow(old(self).body@, old(self).direction),
        ensures
            final(self).direction == old(self).direction,
            final(self).body@ == old(self).body@.push(
                spec_grow_tail(old(self).body@, old(self).direction),
            ),
            final(self).body@.len() == old(self).body@.len() + 1,
    {
        if self.body.len() < 2 {
            let tail = self.body[0];
            let new_tail = match self.direction {
                SnakeDirection::Up => SnakeBodyPoint { x: tail.x, y: tail.y - 1 },
                SnakeDirection::Down => SnakeBodyPoint { x: tail.x, y: tail.y + 1 },
                SnakeDirection::Left => SnakeBodyPoint { x: tail.x + 1, y: tail.y },
                SnakeDirection::Right => SnakeBodyPoint { x: tail.x - 1, y: tail.y },
            };
            self.body.push(new_tail);
        } else {
            let last = self.body[self.body.len() - 1];
            let before_last = self.body[self.body.len() - 2];
            let dx = last.x - before_last.x;
            let dy = last.y - before_last.y;
            let new_tail = SnakeBodyPoint { x: last.x + dx, y: last.y + dy };
            self.body.push(new_tail);
        }
    }
}

} // verus!
