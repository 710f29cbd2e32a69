//! The snake: a body of cells, head first, and the heading it moves in.

use vstd::prelude::*;
use std::collections::VecDeque;
use crate::direction::{turned, request_turn, Direction, Key};
use crate::grid::{Grid, Position, Square};

verus! {

/// Why a body could not be moved.
#[derive(Clone, Copy, Debug, PartialEq, Eq, Structural)]
pub enum MotionError {
    /// The body has no segment, so there is no head to move.
    EmptyBody,
}

impl MotionError {
    /// Returns the diagnostic that names the cause.
    pub fn message(&self) -> (text: &'static str)
        ensures
            text@ == "empty snake body"@,
    {
        "empty snake body"
    }
}

/// The snake's segments from head to tail, and its heading.
#[derive(Clone, Debug, PartialEq, Eq)]
pub struct Snake {
    pub body: VecDeque<Position>,
    pub direction: Direction,
}

/// The body one tick later: the cell one step ahead of the head in front,
/// then every segment but the last, in the order they had.
pub open spec fn advanced(body: Seq<Position>, heading: Direction, grid: Grid) -> Seq<Position>
    recommends
        body.len() > 0,
{
    seq![grid.spec_step(body[0], heading)] + body.drop_last()
}

/// Whether every segment of `body` is a cell of `grid`.
pub open spec fn on_grid(body: Seq<Position>, grid: Grid) -> bool {
    forall|i: int| 0 <= i < body.len() ==> grid.contains(#[trigger] body[i])
}

/// A tick neither lengthens nor shortens the body.
pub proof fn lemma_advanced_keeps_length(body: Seq<Position>, heading: Direction, grid: Grid)
    requires
        body.len() > 0,
    ensures
        advanced(body, heading, grid).len() == body.len(),
{
}

/// After a tick the head is one step ahead of where it was, and every other
/// segment is where the segment before it was.
pub proof fn lemma_advanced_shifts(body: Seq<Position>, heading: Direction, grid: Grid)
    requires
        body.len() > 0,
    ensures
        advanced(body, heading, grid)[0] == grid.spec_step(body[0], heading),
        forall|i: int|
            1 <= i < body.len() ==> #[trigger] advanced(body, heading, grid)[i] == body[i - 1],
{
}

/// A body that lies on the grid still lies on it after a tick.
pub proof fn lemma_advanced_stays_on_grid(body: Seq<Position>, heading: Direction, grid: Grid)
    requires
        body.len() > 0,
        on_grid(body, grid),
    ensures
        on_grid(advanced(body, heading, grid), grid),
{
    let next = advanced(body, heading, grid);
    assert forall|i: int| 0 <= i < next.len() implies grid.contains(#[trigger] next[i]) by {
        if i > 0 {
            assert(next[i] == body[i - 1]);
        }
    }
}

/// Moves `body` one cell towards `heading`, wrapping at the edges of `grid`.
///
/// The new head is one step ahead of the old one; every other segment takes
/// the place of the one before it, and the old tail leaves. The length stays
/// the same, and a body that lay on the grid still does.
pub fn advance(body: &mut VecDeque<Position>, heading: Direction, grid: Grid)
    requires
        old(body)@.len() > 0,
    ensures
        final(body)@ == advanced(old(body)@, heading, grid),
        final(body)@.len() == old(body)@.len(),
        final(body)@[0] == grid.spec_step(old(body)@[0], heading),
        forall|i: int| 1 <= i < old(body)@.len() ==> final(body)@[i] == old(body)@[i - 1],
        on_grid(old(body)@, grid) ==> on_grid(final(body)@, grid),
{
    let head: Position = body[0];
    let new_head: Position = grid.step(head, heading);
    body.push_front(new_head);
    let _ = body.pop_back();
    proof {
        assert(body@ =~= advanced(old(body)@, heading, grid));
        if on_grid(old(body)@, grid) {
            lemma_advanced_stays_on_grid(old(body)@, heading, grid);
        }
    }
}

/// Moves `body` as `advance` does, or reports that it has no segment.
///
/// An empty body is an error and is left as it was; any other body is moved
/// by one cell.
pub fn try_advance(
    body: &mut VecDeque<Position>,
    heading: Direction,
    grid: Grid,
) -> (r: Result<(), MotionError>)
    ensures
        r is Err <==> old(body)@.len() == 0,
        r is Err ==> r == Err::<(), MotionError>(MotionError::EmptyBody),
        r is Err ==> final(body)@ == old(body)@,
        r is Ok ==> final(body)@ == advanced(old(body)@, heading, grid),
        final(body)@.len() == old(body)@.len(),
        on_grid(old(body)@, grid) ==> on_grid(final(body)@, grid),
{
    if body.len() == 0 {
        Err(MotionError::EmptyBody)
    } else {
        advance(body, heading, grid);
        Ok(())
    }
}

impl Snake {
    /// The snake as the game starts: seven segments on the top row, the head
    /// at the left edge, heading right. Column 2 is left out, so the body
    /// shows a gap of one cell.
    pub open spec fn initial_body() -> Seq<Position> {
        seq![
            Position { x: 0, y: 0 },
            Position { x: 1, y: 0 },
            Position { x: 3, y: 0 },
            Position { x: 4, y: 0 },
            Position { x: 5, y: 0 },
            Position { x: 6, y: 0 },
            Position { x: 7, y: 0 },
        ]
    }

    /// Builds the snake as the game starts.
    pub fn initial() -> (snake: Snake)
        ensures
            snake.body@ == Snake::initial_body(),
            snake.body@.len() == 7,
            snake.direction == Direction::Right,
    {
        let mut body: VecDeque<Position> = VecDeque::new();
        body.push_back(Position { x: 0, y: 0 });
        body.push_back(Position { x: 1, y: 0 });
        body.push_back(Position { x: 3, y: 0 });
        body.push_back(Position { x: 4, y: 0 });
        body.push_back(Position { x: 5, y: 0 });
        body.push_back(Position { x: 6, y: 0 });
        body.push_back(Position { x: 7, y: 0 });
        proof {
            assert(body@ =~= Snake::initial_body());
        }
        Snake { body, direction: Direction::Right }
    }

    /// Moves the snake one cell in its heading, wrapping at the edges of
    /// `grid`. The heading does not change.
    pub fn update(&mut self, grid: Grid)
        requires
            old(self).body@.len() > 0,
        ensures
            final(self).body@ == advanced(old(self).body@, old(self).direction, grid),
            final(self).body@.len() == old(self).body@.len(),
            final(self).direction == old(self).direction,
            on_grid(old(self).body@, grid) ==> on_grid(final(self).body@, grid),
    {
        let heading = self.direction;
        advance(&mut self.body, heading, grid);
    }

    /// Applies a key press to the heading; the body does not move.
    pub fn pressed(&mut self, key: Key)
        ensures
            final(self).direction == turned(old(self).direction, key),
            final(self).direction != old(self).direction.spec_opposite(),
            final(self).body@ == old(self).body@,
    {
        self.direction = request_turn(self.direction, key);
    }

    /// The squares that show the body on the screen, head first.
    pub open spec fn spec_render(self, grid: Grid) -> Seq<Square> {
        Seq::new(self.body@.len(), |i: int| grid.spec_square(self.body@[i]))
    }

    /// Returns one square for each segment, in body order.
    pub fn render(&self, grid: Grid) -> (squares: Vec<Square>)
        ensures
            squares@ == self.spec_render(grid),
            squares@.len() == self.body@.len(),
            forall|i: int|
                0 <= i < self.body@.len() ==> squares@[i] == grid.spec_square(
                    #[trigger] self.body@[i],
                ),
    {
        let mut squares: Vec<Square> = Vec::new();
        let n: usize = self.body.len();
        let mut i: usize = 0;
        while i < n
            invariant
                n == self.body@.len(),
                i <= n,
                squares@.len() == i,
                forall|j: int| 0 <= j < i ==> squares@[j] == grid.spec_square(self.body@[j]),
            decreases n - i,
        {
            let p: Position = self.body[i];
            squares.push(grid.square(p));
            i = i + 1;
        }
        proof {
            assert(squares@ =~= self.spec_render(grid));
        }
        squares
    }
}

} // verus!
