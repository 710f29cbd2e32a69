//! The toroidal grid: its cells, its size, and one step across it.

use vstd::prelude::*;
use vstd::arithmetic::div_mod::lemma_fundamental_div_mod_converse;
use crate::direction::Direction;

verus! {

/// A cell of the grid, by column `x` and row `y`.
#[derive(Clone, Copy, Debug, PartialEq, Eq, Structural)]
pub struct Position {
    pub x: u32,
    pub y: u32,
}

/// The size of the grid and of one cell on the screen.
///
/// Columns run from `0` to `max_x` and rows from `0` to `max_y`, both ends
/// included; a cell is drawn as a square of `cell_size` pixels a side.
#[derive(Clone, Copy, Debug, PartialEq, Eq, Structural)]
pub struct Grid {
    pub max_x: u32,
    pub max_y: u32,
    pub cell_size: u32,
}

/// A square on the screen, in pixels: its top-left corner and the length of
/// its side.
#[derive(Clone, Copy, Debug, PartialEq, Eq, Structural)]
pub struct Square {
    pub x: u64,
    pub y: u64,
    pub size: u64,
}

/// One step up along an axis that ends at `max`: the next coordinate, or `0`
/// where the step would pass `max`.
pub open spec fn wrap_up(v: u32, max: u32) -> u32 {
    if v + 1 > max {
        0
    } else {
        (v + 1) as u32
    }
}

/// One step down along an axis that ends at `max`: the coordinate before, or
/// `max` where the step would pass below `0`.
pub open spec fn wrap_down(v: u32, max: u32) -> u32 {
    if v - 1 < 0 {
        max
    } else {
        (v - 1) as u32
    }
}

impl Grid {
    /// The grid that fills a screen of `screen_width` by `screen_height`
    /// pixels with cells of `cell_size` pixels: the last column is
    /// `screen_width / cell_size - 1`, the last row
    /// `screen_height / cell_size - 1`.
    pub open spec fn spec_from_screen(
        screen_width: u32,
        screen_height: u32,
        cell_size: u32,
    ) -> Grid {
        Grid {
            max_x: (screen_width / cell_size - 1) as u32,
            max_y: (screen_height / cell_size - 1) as u32,
            cell_size,
        }
    }

    /// Builds the grid that fills a screen of the given size in pixels.
    ///
    /// The screen has to hold at least one whole cell each way.
    pub fn from_screen(screen_width: u32, screen_height: u32, cell_size: u32) -> (grid: Grid)
        requires
            0 < cell_size <= screen_width,
            cell_size <= screen_height,
        ensures
            grid == Grid::spec_from_screen(screen_width, screen_height, cell_size),
            grid.max_x == screen_width / cell_size - 1,
            grid.max_y == screen_height / cell_size - 1,
            grid.cell_size == cell_size,
    {
        proof {
            lemma_quotient_positive(screen_width, cell_size);
            lemma_quotient_positive(screen_height, cell_size);
        }
        Grid {
            max_x: screen_width / cell_size - 1,
            max_y: screen_height / cell_size - 1,
            cell_size,
        }
    }

    /// Whether `p` is a cell of this grid.
    pub open spec fn contains(self, p: Position) -> bool {
        p.x <= self.max_x && p.y <= self.max_y
    }

    /// The square that shows cell `p`: `cell_size` pixels a side, its corner
    /// at `cell_size` times the cell's column and row.
    pub open spec fn spec_square(self, p: Position) -> Square {
        Square {
            x: (p.x * self.cell_size) as u64,
            y: (p.y * self.cell_size) as u64,
            size: self.cell_size as u64,
        }
    }

    /// Returns the square that shows cell `p` on the screen.
    #[verifier::when_used_as_spec(spec_square)]
    pub fn square(self, p: Position) -> (sq: Square)
        ensures
            sq == self.spec_square(p),
            sq.x == p.x * self.cell_size,
            sq.y == p.y * self.cell_size,
            sq.size == self.cell_size,
    {
        proof {
            lemma_product_fits(p.x, self.cell_size);
            lemma_product_fits(p.y, self.cell_size);
        }
        let side: u64 = self.cell_size as u64;
        Square { x: p.x as u64 * side, y: p.y as u64 * side, size: side }
    }

    /// The cell one step from `p` towards `heading`, re-entering at the
    /// opposite edge where the step leaves the grid. `Up` decreases `y`,
    /// `Down` increases it.
    pub open spec fn spec_step(self, p: Position, heading: Direction) -> Position {
        match heading {
            Direction::Left => Position { x: wrap_down(p.x, self.max_x), y: p.y },
            Direction::Right => Position { x: wrap_up(p.x, self.max_x), y: p.y },
            Direction::Up => Position { x: p.x, y: wrap_down(p.y, self.max_y) },
            Direction::Down => Position { x: p.x, y: wrap_up(p.y, self.max_y) },
        }
    }

    /// Returns the cell one step from `p` towards `heading`, wrapping at the
    /// edges.
    ///
    /// A step moves along one axis only. From a cell of the grid it lands on
    /// a cell of the grid; at an edge it lands on the opposite edge.
    #[verifier::when_used_as_spec(spec_step)]
    pub fn step(self, p: Position, heading: Direction) -> (next: Position)
        ensures
            next == self.spec_step(p, heading),
            self.contains(p) ==> self.contains(next),
            heading == Direction::Left && p.x == 0 ==> next.x == self.max_x,
            heading == Direction::Right && p.x == self.max_x ==> next.x == 0,
            heading == Direction::Up && p.y == 0 ==> next.y == self.max_y,
            heading == Direction::Down && p.y == self.max_y ==> next.y == 0,
    {
        match heading {
            Direction::Left => Position { x: step_down(p.x, self.max_x), y: p.y },
            Direction::Right => Position { x: step_up(p.x, self.max_x), y: p.y },
            Direction::Up => Position { x: p.x, y: step_down(p.y, self.max_y) },
            Direction::Down => Position { x: p.x, y: step_up(p.y, self.max_y) },
        }
    }
}

/// Returns the coordinate one step up from `v` on an axis that ends at `max`.
pub fn step_up(v: u32, max: u32) -> (r: u32)
    ensures
        r == wrap_up(v, max),
{
    if v >= max {
        0
    } else {
        v + 1
    }
}

/// Returns the coordinate one step down from `v` on an axis that ends at
/// `max`.
pub fn step_down(v: u32, max: u32) -> (r: u32)
    ensures
        r == wrap_down(v, max),
{
    if v == 0 {
        max
    } else {
        v - 1
    }
}

/// At each edge of the grid a step outwards lands on the opposite edge.
pub proof fn lemma_step_wraps_at_edges(grid: Grid, p: Position)
    requires
        grid.contains(p),
    ensures
        p.x == 0 ==> grid.spec_step(p, Direction::Left).x == grid.max_x,
        p.x == grid.max_x ==> grid.spec_step(p, Direction::Right).x == 0,
        p.y == 0 ==> grid.spec_step(p, Direction::Up).y == grid.max_y,
        p.y == grid.max_y ==> grid.spec_step(p, Direction::Down).y == 0,
{
}

/// Away from the edge it is heading for, a step changes one coordinate by
/// one and leaves the other alone.
pub proof fn lemma_step_moves_one_cell(grid: Grid, p: Position, heading: Direction)
    requires
        grid.contains(p),
    ensures
        heading == Direction::Left ==> grid.spec_step(p, heading).y == p.y && (p.x > 0
            ==> grid.spec_step(p, heading).x == p.x - 1),
        heading == Direction::Right ==> grid.spec_step(p, heading).y == p.y && (p.x < grid.max_x
            ==> grid.spec_step(p, heading).x == p.x + 1),
        heading == Direction::Up ==> grid.spec_step(p, heading).x == p.x && (p.y > 0
            ==> grid.spec_step(p, heading).y == p.y - 1),
        heading == Direction::Down ==> grid.spec_step(p, heading).x == p.x && (p.y < grid.max_y
            ==> grid.spec_step(p, heading).y == p.y + 1),
{
}

/// A step from a cell of the grid lands on a cell of the grid.
pub proof fn lemma_step_stays_on_grid(grid: Grid, p: Position, heading: Direction)
    requires
        grid.contains(p),
    ensures
        grid.contains(grid.spec_step(p, heading)),
{
}

/// On the grid, a step is addition modulo the number of columns or rows:
/// one more along the axis, or one less, which is the same as `max` more.
pub proof fn lemma_step_is_modular(grid: Grid, p: Position)
    requires
        grid.contains(p),
    ensures
        grid.spec_step(p, Direction::Right).x == (p.x + 1) % (grid.max_x + 1),
        grid.spec_step(p, Direction::Left).x == (p.x + grid.max_x) % (grid.max_x + 1),
        grid.spec_step(p, Direction::Down).y == (p.y + 1) % (grid.max_y + 1),
        grid.spec_step(p, Direction::Up).y == (p.y + grid.max_y) % (grid.max_y + 1),
{
    lemma_wrap_is_modular(p.x, grid.max_x);
    lemma_wrap_is_modular(p.y, grid.max_y);
}

/// On the grid, a step back undoes a step: stepping towards a heading and
/// then towards its opposite returns to the cell where one started.
pub proof fn lemma_step_back_returns(grid: Grid, p: Position, heading: Direction)
    requires
        grid.contains(p),
    ensures
        grid.spec_step(grid.spec_step(p, heading), heading.spec_opposite()) == p,
{
}

proof fn lemma_wrap_is_modular(v: u32, max: u32)
    requires
        v <= max,
    ensures
        wrap_up(v, max) == (v + 1) % (max + 1),
        wrap_down(v, max) == (v + max) % (max + 1),
{
    let m: int = max + 1;
    if v == max {
        lemma_fundamental_div_mod_converse(v + 1, m, 1, 0);
    } else {
        lemma_fundamental_div_mod_converse(v + 1, m, 0, v + 1);
    }
    if v == 0 {
        lemma_fundamental_div_mod_converse(v + max, m, 0, max as int);
    } else {
        lemma_fundamental_div_mod_converse(v + max, m, 1, v - 1);
    }
}

proof fn lemma_product_fits(a: u32, b: u32)
    ensures
        0 <= a * b <= u64::MAX,
{
    assert(0 <= a as int * b as int <= 0xffff_ffff * 0xffff_ffff) by (nonlinear_arith)
        requires
            0 <= a as int <= 0xffff_ffff,
            0 <= b as int <= 0xffff_ffff,
    ;
}

proof fn lemma_quotient_positive(a: u32, b: u32)
    requires
        0 < b <= a,
    ensures
        1 <= a / b <= a,
{
    assert(1 <= a as int / b as int <= a as int) by (nonlinear_arith)
        requires
            0 < b as int <= a as int,
    ;
}

} // verus!
