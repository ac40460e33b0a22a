//! The Game of Life rule as mathematics: a generation is a sequence of
//! rows, each row a sequence of liveness flags, and `step` maps one
//! generation to the next.

use vstd::prelude::*;

verus! {

/// Whether the cell in column `x` of row `y` is alive. Positions outside
/// the grid are permanently dead: the boundary is clamped, not wrapped.
pub open spec fn alive_at(g: Seq<Seq<bool>>, x: int, y: int) -> bool {
    0 <= y < g.len() && 0 <= x < g[y].len() && g[y][x]
}

/// 1 for a live cell, 0 for a dead one.
pub open spec fn indicator(b: bool) -> int {
    if b {
        1
    } else {
        0
    }
}

/// Number of live cells among the eight neighbors of `(x, y)`, the cell
/// itself excluded. Out-of-bounds neighbors contribute nothing.
pub open spec fn live_neighbor_count(g: Seq<Seq<bool>>, x: int, y: int) -> int {
    indicator(alive_at(g, x - 1, y - 1)) + indicator(alive_at(g, x, y - 1)) + indicator(
        alive_at(g, x + 1, y - 1),
    ) + indicator(alive_at(g, x - 1, y)) + indicator(alive_at(g, x + 1, y)) + indicator(
        alive_at(g, x - 1, y + 1),
    ) + indicator(alive_at(g, x, y + 1)) + indicator(alive_at(g, x + 1, y + 1))
}

/// Conway's rule for one cell: a live cell survives with two or three live
/// neighbors and otherwise dies; a dead cell is born with exactly three.
pub open spec fn next_state(alive: bool, live_neighbors: int) -> bool {
    if alive {
        live_neighbors == 2 || live_neighbors == 3
    } else {
        live_neighbors == 3
    }
}

/// The whole next generation, every cell computed from the previous one.
pub open spec fn step(g: Seq<Seq<bool>>) -> Seq<Seq<bool>> {
    Seq::new(
        g.len(),
        |y: int| Seq::new(g[y].len(), |x: int| next_state(g[y][x], live_neighbor_count(g, x, y))),
    )
}

/// `n` generations after `g`.
pub open spec fn step_n(g: Seq<Seq<bool>>, n: nat) -> Seq<Seq<bool>>
    decreases n,
{
    if n == 0 {
        g
    } else {
        step(step_n(g, (n - 1) as nat))
    }
}

/// No cell anywhere is alive.
pub open spec fn all_dead(g: Seq<Seq<bool>>) -> bool {
    forall|x: int, y: int| !#[trigger] alive_at(g, x, y)
}

/// Underpopulation: a live cell with zero or one live neighbors is dead in
/// the next generation.
pub proof fn lemma_underpopulation(g: Seq<Seq<bool>>, x: int, y: int)
    requires
        0 <= y < g.len(),
        0 <= x < g[y].len(),
        g[y][x],
        live_neighbor_count(g, x, y) == 0 || live_neighbor_count(g, x, y) == 1,
    ensures
        !step(g)[y][x],
{
}

/// Survival: a live cell with exactly two or three live neighbors is still
/// alive in the next generation.
pub proof fn lemma_survival(g: Seq<Seq<bool>>, x: int, y: int)
    requires
        0 <= y < g.len(),
        0 <= x < g[y].len(),
        g[y][x],
        live_neighbor_count(g, x, y) == 2 || live_neighbor_count(g, x, y) == 3,
    ensures
        step(g)[y][x],
{
}

/// Overpopulation: a live cell with four or more live neighbors is dead in
/// the next generation.
pub proof fn lemma_overpopulation(g: Seq<Seq<bool>>, x: int, y: int)
    requires
        0 <= y < g.len(),
        0 <= x < g[y].len(),
        g[y][x],
        4 <= live_neighbor_count(g, x, y) <= 8,
    ensures
        !step(g)[y][x],
{
}

/// Birth: a dead cell is alive in the next generation exactly when it has
/// three live neighbors; any other count leaves it dead.
pub proof fn lemma_birth(g: Seq<Seq<bool>>, x: int, y: int)
    requires
        0 <= y < g.len(),
        0 <= x < g[y].len(),
        !g[y][x],
    ensures
        step(g)[y][x] <==> live_neighbor_count(g, x, y) == 3,
{
}

/// The boundary does not wrap: a live corner cell whose three in-bounds
/// neighbors are dead dies, however the far edges of the grid are
/// populated, because out-of-bounds positions never count as live.
pub proof fn lemma_corner_no_wrap(g: Seq<Seq<bool>>)
    requires
        g.len() > 0,
        g[0].len() > 0,
        g[0][0],
        !alive_at(g, 1, 0),
        !alive_at(g, 0, 1),
        !alive_at(g, 1, 1),
    ensures
        !step(g)[0][0],
{
    assert(live_neighbor_count(g, 0, 0) == 0);
}

/// An all-dead grid stays all-dead for one generation.
pub proof fn lemma_all_dead_step(g: Seq<Seq<bool>>)
    requires
        all_dead(g),
    ensures
        all_dead(step(g)),
{
    assert forall|x: int, y: int| !#[trigger] alive_at(step(g), x, y) by {
        if 0 <= y < step(g).len() && 0 <= x < step(g)[y].len() {
            assert(!alive_at(g, x, y));
            assert(live_neighbor_count(g, x, y) == 0);
            assert(!g[y][x]);
        }
    }
}

/// Stability: an all-dead grid is still all-dead after any number of
/// generations.
pub proof fn lemma_all_dead_stable(g: Seq<Seq<bool>>, n: nat)
    requires
        all_dead(g),
    ensures
        all_dead(step_n(g, n)),
    decreases n,
{
    if n > 0 {
        lemma_all_dead_stable(g, (n - 1) as nat);
        lemma_all_dead_step(step_n(g, (n - 1) as nat));
    }
}

/// Determinism: the next generation is a function of the current one
/// alone, so equal grids stay equal after any number of generations.
pub proof fn lemma_deterministic(g1: Seq<Seq<bool>>, g2: Seq<Seq<bool>>, n: nat)
    requires
        g1 == g2,
    ensures
        step_n(g1, n) == step_n(g2, n),
{
}

} // verus!
