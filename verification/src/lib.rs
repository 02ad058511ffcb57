//! Conway's Game of Life on a fixed-size toroidal grid.
//!
//! The library is organised around three components:
//! - [`grid::Grid`]: the cell matrix, neighbor counting and the
//!   one-generation transition rule;
//! - [`controller::SimulationController`]: the generation counter and the
//!   two flags that govern whether the simulation advances and whether a
//!   redraw is requested;
//! - [`gateway`]: translation of pointer and hotkey events into controller
//!   calls, enforcing the "edit only while paused" rule.

use vstd::prelude::*;

pub mod controller;
pub mod gateway;
pub mod grid;
pub mod laws;

verus! {

/// The failure taxonomy of the core. `OutOfRange` marks a coordinate outside
/// the grid handed to an operation that requires validity; `InvariantViolation`
/// marks a construction whose cell count does not match the dimensions. All
/// other core operations are infallible.
#[derive(Copy, Clone, PartialEq, Eq, Structural, Debug)]
pub enum LifeError {
    OutOfRange,
    InvariantViolation,
}

} // verus!
