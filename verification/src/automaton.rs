//! The executable automaton: a fixed-size grid of cells whose `update`
//! method is proved to compute exactly `rules::step` of the previous
//! generation.

use vstd::prelude::*;

use crate::rules::indicator;
use crate::rules::live_neighbor_count;
use crate::rules::next_state;
use crate::rules::step;

verus! {

/// One lattice point: fixed coordinates and a liveness flag that only the
/// generation advance changes.
#[derive(Clone, Copy, Debug)]
pub struct Cell {
    pub x: usize,
    pub y: usize,
    pub value: bool,
}

/// Live cells in a 3-by-3 block of neighbors, the center excluded.
/// `n[i][j]` holds the cell at horizontal offset `i - 1` and vertical
/// offset `j - 1` from the center.
pub open spec fn neighborhood_live_count(n: [[Cell; 3]; 3]) -> int {
    indicator(n[0][0].spec_alive()) + indicator(n[1][0].spec_alive()) + indicator(
        n[2][0].spec_alive(),
    ) + indicator(n[0][1].spec_alive()) + indicator(n[2][1].spec_alive()) + indicator(
        n[0][2].spec_alive(),
    ) + indicator(n[1][2].spec_alive()) + indicator(n[2][2].spec_alive())
}

impl Cell {
    /// Liveness as specifications see it.
    pub open spec fn spec_alive(self) -> bool {
        self.value
    }

    /// A cell at `(x, y)` with the given liveness.
    pub fn new(x: usize, y: usize, alive: bool) -> (c: Cell)
        ensures
            c.x == x,
            c.y == y,
            c.spec_alive() == alive,
    {
        Cell { x, y, value: alive }
    }

    /// Current liveness; no side effects.
    pub fn is_alive(&self) -> (r: bool)
        ensures
            r == self.spec_alive(),
    {
        self.value
    }

    /// Applies Conway's rule to this cell, given the 3-by-3 block of
    /// previous-generation cells centered on it. The position is left
    /// unchanged; the new liveness is `next_state` of the old liveness and
    /// the live-neighbor count of the block.
    pub fn update_state(&mut self, neighbors: [[Cell; 3]; 3])
        ensures
            final(self).x == old(self).x,
            final(self).y == old(self).y,
            final(self).spec_alive() == next_state(
                old(self).spec_alive(),
                neighborhood_live_count(neighbors),
            ),
    {
        let mut live_neighbors: u8 = 0;
        if neighbors[0][0].is_alive() {
            live_neighbors += 1;
        }
        if neighbors[1][0].is_alive() {
            live_neighbors += 1;
        }
        if neighbors[2][0].is_alive() {
            live_neighbors += 1;
        }
        if neighbors[0][1].is_alive() {
            live_neighbors += 1;
        }
        if neighbors[2][1].is_alive() {
            live_neighbors += 1;
        }
        if neighbors[0][2].is_alive() {
            live_neighbors += 1;
        }
        if neighbors[1][2].is_alive() {
            live_neighbors += 1;
        }
        if neighbors[2][2].is_alive() {
            live_neighbors += 1;
        }
        if self.value {
            if live_neighbors < 2 || live_neighbors > 3 {
                self.value = false;
            }
        } else {
            if live_neighbors == 3 {
                self.value = true;
            }
        }
    }
}

impl Default for Cell {
    /// The dead placeholder cell used for positions outside the grid.
    fn default() -> (c: Cell)
        ensures
            c.x == 0,
            c.y == 0,
            !c.spec_alive(),
    {
        Cell { x: 0, y: 0, value: false }
    }
}

/// A fixed-size grid of cells. The dimensions never change; `update`
/// replaces every cell's liveness with the next generation's.
pub struct GameOfLife {
    pub cells: Vec<Vec<Cell>>,
    pub width: usize,
    pub height: usize,
}

impl GameOfLife {
    /// The grid's liveness values, row by row: the abstract generation
    /// that `rules::step` acts on.
    pub open spec fn liveness(self) -> Seq<Seq<bool>> {
        self.cells@.map_values(|row: Vec<Cell>| row@.map_values(|c: Cell| c.spec_alive()))
    }

    /// The grid invariant: positive dimensions, one row per `height`, one
    /// cell per `width` in each row, and every cell stores its own grid
    /// position.
    pub open spec fn well_formed(self) -> bool {
        &&& 0 < self.width
        &&& 0 < self.height
        &&& self.cells@.len() == self.height
        &&& forall|r: int|
            0 <= r < self.height ==> (#[trigger] self.cells@[r])@.len() == self.width
        &&& forall|r: int, c: int|
            0 <= r < self.height && 0 <= c < self.width ==> (#[trigger] self.cells@[r]@[c]).x == c
                && self.cells@[r]@[c].y == r
    }

    /// Builds a grid with the given liveness, row by row: an injected
    /// initial state in place of the random one, so that callers can
    /// reproduce a run.
    pub fn from_states(states: &Vec<Vec<bool>>) -> (game: GameOfLife)
        requires
            0 < states@.len(),
            0 < states@[0]@.len(),
            forall|r: int|
                0 <= r < states@.len() ==> (#[trigger] states@[r])@.len() == states@[0]@.len(),
        ensures
            game.well_formed(),
            game.height == states@.len(),
            game.width == states@[0]@.len(),
            game.liveness() == states.deep_view(),
    {
        let height = states.len();
        let width = states[0].len();
        let mut cells: Vec<Vec<Cell>> = Vec::new();
        let mut i: usize = 0;
        while i < height
            invariant
                i <= height,
                height == states@.len(),
                width == states@[0]@.len(),
                forall|r: int|
                    0 <= r < states@.len() ==> (#[trigger] states@[r])@.len() == width,
                cells@.len() == i,
                forall|r: int| 0 <= r < i ==> (#[trigger] cells@[r])@.len() == width,
                forall|r: int, c: int|
                    0 <= r < i && 0 <= c < width ==> (#[trigger] cells@[r]@[c]).x == c
                        && cells@[r]@[c].y == r && cells@[r]@[c].spec_alive() == states@[r]@[c],
            decreases height - i,
        {
            let mut row_cells: Vec<Cell> = Vec::new();
            let mut j: usize = 0;
            while j < width
                invariant
                    j <= width,
                    i < height,
                    height == states@.len(),
                    width == states@[0]@.len(),
                    forall|r: int|
                        0 <= r < states@.len() ==> (#[trigger] states@[r])@.len() == width,
                    row_cells@.len() == j,
                    forall|c: int|
                        0 <= c < j ==> (#[trigger] row_cells@[c]).x == c && row_cells@[c].y == i
                            && row_cells@[c].spec_alive() == states@[i as int]@[c],
                decreases width - j,
            {
                row_cells.push(Cell::new(j, i, states[i][j]));
                j += 1;
            }
            cells.push(row_cells);
            i += 1;
        }
        let game = GameOfLife { cells, width, height };
        proof {
            assert(game.liveness() =~~= states.deep_view());
        }
        game
    }

    /// Builds a `rows` by `cols` grid whose every cell's liveness is drawn
    /// independently at random. Positions and dimensions are exact;
    /// nothing is promised of the liveness values.
    pub fn new(rows: i32, cols: i32) -> (game: GameOfLife)
        requires
            0 < rows,
            0 < cols,
        ensures
            game.well_formed(),
            game.height == rows as usize,
            game.width == cols as usize,
    {
        let height = rows as usize;
        let width = cols as usize;
        let mut cells: Vec<Vec<Cell>> = Vec::new();
        let mut i: usize = 0;
        while i < height
            invariant
                i <= height,
                cells@.len() == i,
                forall|r: int| 0 <= r < i ==> (#[trigger] cells@[r])@.len() == width,
                forall|r: int, c: int|
                    0 <= r < i && 0 <= c < width ==> (#[trigger] cells@[r]@[c]).x == c
                        && cells@[r]@[c].y == r,
            decreases height - i,
        {
            let mut row_cells: Vec<Cell> = Vec::new();
            let mut j: usize = 0;
            while j < width
                invariant
                    j <= width,
                    row_cells@.len() == j,
                    forall|c: int|
                        0 <= c < j ==> (#[trigger] row_cells@[c]).x == c && row_cells@[c].y == i,
                decreases width - j,
            {
                row_cells.push(Cell::new(j, i, random_bool()));
                j += 1;
            }
            cells.push(row_cells);
            i += 1;
        }
        GameOfLife { cells, width, height }
    }

    /// The 3-by-3 block of previous-generation cells centered on
    /// `(col, row)`, with the dead placeholder standing in for positions
    /// outside the grid, so that the rule sees a clamped boundary.
    fn neighborhood(&self, col: usize, row: usize) -> (n: [[Cell; 3]; 3])
        requires
            self.well_formed(),
            col < self.width,
            row < self.height,
        ensures
            neighborhood_live_count(n) == live_neighbor_count(
                self.liveness(),
                col as int,
                row as int,
            ),
    {
        let dead = Cell::default();
        let left = col >= 1;
        let right = col + 1 < self.width;
        let up = row >= 1;
        let down = row + 1 < self.height;
        let c00 = if left && up {
            self.cells[row - 1][col - 1]
        } else {
            dead
        };
        let c01 = if left {
            self.cells[row][col - 1]
        } else {
            dead
        };
        let c02 = if left && down {
            self.cells[row + 1][col - 1]
        } else {
            dead
        };
        let c10 = if up {
            self.cells[row - 1][col]
        } else {
            dead
        };
        let c11 = self.cells[row][col];
        let c12 = if down {
            self.cells[row + 1][col]
        } else {
            dead
        };
        let c20 = if right && up {
            self.cells[row - 1][col + 1]
        } else {
            dead
        };
        let c21 = if right {
            self.cells[row][col + 1]
        } else {
            dead
        };
        let c22 = if right && down {
            self.cells[row + 1][col + 1]
        } else {
            dead
        };
        let n = [[c00, c01, c02], [c10, c11, c12], [c20, c21, c22]];
        n
    }

    /// Advances the grid one generation. Every cell's liveness is replaced
    /// at once by Conway's rule applied to the previous generation — the
    /// new liveness is exactly `rules::step` of the old — while the
    /// dimensions, and every cell's stored position, stay as they were.
    pub fn update(&mut self)
        requires
            old(self).well_formed(),
        ensures
            final(self).well_formed(),
            final(self).width == old(self).width,
            final(self).height == old(self).height,
            final(self).liveness() == step(old(self).liveness()),
    {
        let ghost g0 = self.liveness();
        let mut new_cells: Vec<Vec<Cell>> = Vec::new();
        let mut row: usize = 0;
        while row < self.height
            invariant
                *self == *old(self),
                self.well_formed(),
                g0 == self.liveness(),
                row <= self.height,
                new_cells@.len() == row,
                forall|r: int| 0 <= r < row ==> (#[trigger] new_cells@[r])@.len() == self.width,
                forall|r: int, c: int|
                    0 <= r < row && 0 <= c < self.width ==> (#[trigger] new_cells@[r]@[c]).x == c
                        && new_cells@[r]@[c].y == r && new_cells@[r]@[c].spec_alive() == next_state(
                        g0[r][c],
                        live_neighbor_count(g0, c, r),
                    ),
            decreases self.height - row,
        {
            let mut new_row: Vec<Cell> = Vec::new();
            let mut col: usize = 0;
            while col < self.width
                invariant
                    *self == *old(self),
                    self.well_formed(),
                    g0 == self.liveness(),
                    row < self.height,
                    col <= self.width,
                    new_row@.len() == col,
                    forall|c: int|
                        0 <= c < col ==> (#[trigger] new_row@[c]).x == c && new_row@[c].y == row
                            && new_row@[c].spec_alive() == next_state(
                            g0[row as int][c],
                            live_neighbor_count(g0, c, row as int),
                        ),
                decreases self.width - col,
            {
                let neighbors = self.neighborhood(col, row);
                let mut cell = self.cell_at(col, row);
                cell.update_state(neighbors);
                new_row.push(cell);
                col += 1;
            }
            new_cells.push(new_row);
            row += 1;
        }
        self.cells = new_cells;
        proof {
            assert(self.liveness() =~~= step(g0));
        }
    }

    /// The cell stored at column `col` of row `row`; read-only.
    pub fn cell_at(&self, col: usize, row: usize) -> (c: Cell)
        requires
            self.well_formed(),
            col < self.width,
            row < self.height,
        ensures
            c.x == col,
            c.y == row,
            c.spec_alive() == self.liveness()[row as int][col as int],
    {
        self.cells[row][col]
    }

    /// The screen rectangle of the cell at `(col, row)` on a square
    /// drawing surface `surface` pixels on a side: the origin, then the
    /// width and height, at `surface / dimension` pixels per cell on each
    /// axis. The rectangle lies entirely within the surface.
    pub fn cell_rect(&self, col: usize, row: usize, surface: usize) -> (r: (
        usize,
        usize,
        usize,
        usize,
    ))
        requires
            self.well_formed(),
            col < self.width,
            row < self.height,
        ensures
            r.0 == col * (surface / self.width),
            r.1 == row * (surface / self.height),
            r.2 == surface / self.width,
            r.3 == surface / self.height,
            r.0 + r.2 <= surface,
            r.1 + r.3 <= surface,
    {
        let cw = surface / self.width;
        let ch = surface / self.height;
        proof {
            lemma_scaled_index_in_surface(col as int, self.width as int, surface as int);
            lemma_scaled_index_in_surface(row as int, self.height as int, surface as int);
        }
        (col * cw, row * ch, cw, ch)
    }
}

/// For a grid axis of `n` cells drawn on `s` pixels at `s / n` pixels per
/// cell, cell `i`'s scaled coordinate is within the surface, with room
/// for the cell itself: `0 <= i * (s / n)` and `(i + 1) * (s / n) <= s`.
proof fn lemma_scaled_index_in_surface(i: int, n: int, s: int)
    requires
        0 < n,
        0 <= i < n,
        0 <= s,
    ensures
        0 <= i * (s / n),
        i * (s / n) <= s,
        i * (s / n) + s / n <= s,
{
    let q = s / n;
    vstd::arithmetic::div_mod::lemma_fundamental_div_mod(s, n);
    vstd::arithmetic::div_mod::lemma_mod_bound(s, n);
    vstd::arithmetic::div_mod::lemma_div_pos_is_pos(s, n);
    vstd::arithmetic::mul::lemma_mul_nonnegative(i, q);
    vstd::arithmetic::mul::lemma_mul_inequality(i, i + 1, q);
    vstd::arithmetic::mul::lemma_mul_inequality(i + 1, n, q);
    assert((i + 1) * q == i * q + q) by (nonlinear_arith);
    assert(n * q <= s);
}

/// Relies on rand::random: one draw of a uniformly random boolean.
/// Nothing is assumed of the outcome.
#[verifier::external_body]
fn random_bool() -> bool {
    rand::random::<bool>()
}

} // verus!
