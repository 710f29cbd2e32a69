//! The game as its driver sees it: one state, three kinds of event, and for
//! each event the state that follows and what is to be drawn.

use vstd::prelude::*;
use crate::direction::{turned, Direction, Key};
use crate::grid::{Grid, Square};
use crate::snake::{advanced, on_grid, try_advance, MotionError, Snake};

verus! {

/// Whether a button went down or came up.
#[derive(Clone, Copy, Debug, PartialEq, Eq, Structural)]
pub enum ButtonState {
    Press,
    Release,
}

/// What the driver hands to the game.
#[derive(Clone, Copy, Debug, PartialEq, Eq, Structural)]
pub enum Event {
    /// The screen is due to be drawn.
    Render,
    /// A button changed state.
    Button { state: ButtonState, key: Key },
    /// One tick of game time has passed.
    Update,
}

/// One request to whatever draws the screen.
#[derive(Clone, Copy, Debug, PartialEq, Eq, Structural)]
pub enum DrawCommand {
    /// Fill the whole screen with the background colour.
    Clear,
    /// Fill one square with the snake's colour.
    Fill(Square),
}

/// The whole state of a running game.
#[derive(Clone, Debug, PartialEq, Eq)]
pub struct Game {
    pub snake: Snake,
    pub grid: Grid,
}

/// The requests that draw `snake` on `grid`: one to clear the screen, then
/// one square for each segment, head first.
pub open spec fn frame(snake: Snake, grid: Grid) -> Seq<DrawCommand> {
    Seq::new(
        snake.body@.len() + 1,
        |i: int|
            if i == 0 {
                DrawCommand::Clear
            } else {
                DrawCommand::Fill(grid.spec_square(snake.body@[i - 1]))
            },
    )
}

impl Game {
    /// Builds a game on `grid` with the snake in its starting place.
    pub fn new(grid: Grid) -> (game: Game)
        ensures
            game.grid == grid,
            game.snake.body@ == Snake::initial_body(),
            game.snake.direction == Direction::Right,
    {
        Game { snake: Snake::initial(), grid }
    }

    /// Returns what is to be drawn for the current state: a clear, then the
    /// body's squares from head to tail.
    pub fn render(&self) -> (commands: Vec<DrawCommand>)
        ensures
            commands@ == frame(self.snake, self.grid),
            commands@.len() == self.snake.body@.len() + 1,
            commands@[0] == DrawCommand::Clear,
            forall|i: int|
                0 <= i < self.snake.body@.len() ==> #[trigger] commands@[i + 1]
                    == DrawCommand::Fill(self.grid.spec_square(self.snake.body@[i])),
    {
        let squares: Vec<Square> = self.snake.render(self.grid);
        let mut commands: Vec<DrawCommand> = Vec::new();
        commands.push(DrawCommand::Clear);
        let n: usize = squares.len();
        let mut i: usize = 0;
        while i < n
            invariant
                n == squares@.len(),
                squares@ == self.snake.spec_render(self.grid),
                i <= n,
                commands@.len() == i + 1,
                commands@[0] == DrawCommand::Clear,
                forall|j: int|
                    0 <= j < i ==> #[trigger] commands@[j + 1] == DrawCommand::Fill(squares@[j]),
            decreases n - i,
        {
            commands.push(DrawCommand::Fill(squares[i]));
            i = i + 1;
        }
        proof {
            assert forall|k: int| 0 <= k < commands@.len() implies commands@[k] == frame(
                self.snake,
                self.grid,
            )[k] by {
                if k > 0 {
                    assert(commands@[(k - 1) + 1] == DrawCommand::Fill(squares@[k - 1]));
                }
            }
            assert(commands@ =~= frame(self.snake, self.grid));
        }
        commands
    }

    /// Moves the snake one cell in its heading.
    pub fn update(&mut self)
        requires
            old(self).snake.body@.len() > 0,
        ensures
            final(self).snake.body@ == advanced(
                old(self).snake.body@,
                old(self).snake.direction,
                old(self).grid,
            ),
            final(self).snake.body@.len() == old(self).snake.body@.len(),
            final(self).snake.direction == old(self).snake.direction,
            final(self).grid == old(self).grid,
            on_grid(old(self).snake.body@, old(self).grid) ==> on_grid(
                final(self).snake.body@,
                final(self).grid,
            ),
    {
        let grid = self.grid;
        self.snake.update(grid);
    }

    /// Applies a key press to the snake's heading.
    pub fn pressed(&mut self, key: Key)
        ensures
            final(self).snake.direction == turned(old(self).snake.direction, key),
            final(self).snake.direction != old(self).snake.direction.spec_opposite(),
            final(self).snake.body@ == old(self).snake.body@,
            final(self).grid == old(self).grid,
    {
        self.snake.pressed(key);
    }

    /// Handles one event and returns what is to be drawn for it.
    ///
    /// `Render` changes nothing and returns the frame. A button that goes
    /// down turns the snake as far as the turn rule allows; one that comes up
    /// is ignored. `Update` moves the snake by one cell, or fails on a snake
    /// without a body, which it leaves as it was. Only `Render` draws.
    pub fn handle(&mut self, event: Event) -> (r: Result<Vec<DrawCommand>, MotionError>)
        ensures
            final(self).grid == old(self).grid,
            final(self).snake.body@.len() == old(self).snake.body@.len(),
            on_grid(old(self).snake.body@, old(self).grid) ==> on_grid(
                final(self).snake.body@,
                final(self).grid,
            ),
            r is Err <==> event == Event::Update && old(self).snake.body@.len() == 0,
            r is Err ==> r->Err_0 == MotionError::EmptyBody,
            r is Err ==> final(self).snake.body@ == old(self).snake.body@,
            r is Err ==> final(self).snake.direction == old(self).snake.direction,
            match event {
                Event::Render => {
                    &&& final(self).snake.body@ == old(self).snake.body@
                    &&& final(self).snake.direction == old(self).snake.direction
                    &&& r is Ok && r->Ok_0@ == frame(old(self).snake, old(self).grid)
                },
                Event::Button { state, key } => {
                    &&& final(self).snake.body@ == old(self).snake.body@
                    &&& final(self).snake.direction == if state == ButtonState::Press {
                        turned(old(self).snake.direction, key)
                    } else {
                        old(self).snake.direction
                    }
                    &&& r is Ok && r->Ok_0@.len() == 0
                },
                Event::Update => {
                    &&& final(self).snake.direction == old(self).snake.direction
                    &&& old(self).snake.body@.len() > 0 ==> r is Ok && r->Ok_0@.len() == 0
                        && final(self).snake.body@ == advanced(
                        old(self).snake.body@,
                        old(self).snake.direction,
                        old(self).grid,
                    )
                },
            },
    {
        match event {
            Event::Render => Ok(self.render()),
            Event::Button { state, key } => {
                match state {
                    ButtonState::Press => self.pressed(key),
                    ButtonState::Release => {},
                }
                Ok(Vec::new())
            },
            Event::Update => {
                let heading = self.snake.direction;
                let grid = self.grid;
                match try_advance(&mut self.snake.body, heading, grid) {
                    Ok(()) => Ok(Vec::new()),
                    Err(e) => Err(e),
                }
            },
        }
    }
}

} // verus!
