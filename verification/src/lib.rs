//! A verified engine for Conway's Game of Life on a fixed-size,
//! non-wrapping grid.
//!
//! `rules` gives the mathematical model: one generation as a
//! `Seq<Seq<bool>>` of liveness values and the pointwise `step` to the
//! next one. `automaton` holds the executable grid, whose `update`
//! method is proved to compute exactly that `step`.

pub mod automaton;
pub mod rules;

pub use automaton::Cell;
pub use automaton::GameOfLife;
