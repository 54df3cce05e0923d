//! Conway's Game of Life on a fixed-size toroidal grid.
//!
//! The [`universe::Universe`] type owns the grid and steps it one full
//! generation at a time; [`rules`] states the automaton's transition rule and
//! indexing scheme as specification functions, and [`laws`] proves the
//! classical consequences of the rule (underpopulation, birth, the 2 x 2
//! block still life).

pub mod laws;
pub mod rules;
pub mod universe;

pub use rules::Cell;
pub use universe::Universe;
pub use universe::UniverseError;
