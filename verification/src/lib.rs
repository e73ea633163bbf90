//! Conway's Game of Life on a fixed-size toroidal grid, together with a
//! cell-by-cell "reveal" sequencer that gradually copies a hidden initial
//! pattern into the visible grid.
//!
//! The simulation core is verified: toroidal addressing, neighbor counting,
//! the generation step, and the reveal state machine all carry contracts
//! stated over mathematical models of the grid.

pub mod grid;
pub mod laws;
pub mod rules;
pub mod sequencer;
pub mod world;
