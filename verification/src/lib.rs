//! Simulation core of a grid-based snake game.
//!
//! The library owns the discrete toroidal grid, the snake's segment chain and
//! its per-tick movement, growth, collision and feeding detection, and the
//! Playing / GameOver session lifecycle.  Rendering and input are left to a
//! collaborator outside the library, which it addresses only through opaque
//! visual-handle tokens and plain grid positions.

pub mod grid;
mod rng;
pub mod session;
pub mod snake;
pub mod visual;

use vstd::prelude::*;

verus! {

/// Half-extent of the standard playing field along x: a field 40 units wide,
/// whose cells span `-HALF_WIDTH ..= HALF_WIDTH`.
pub const HALF_WIDTH: i32 = 20;

/// Half-extent of the standard playing field along y: a field 30 units tall,
/// whose cells span `-HALF_HEIGHT ..= HALF_HEIGHT`.
pub const HALF_HEIGHT: i32 = 15;

} // verus!
