//! Snake game logic: a continuous-motion snake whose body is a list of turn
//! corners, and a grid snake that steps cell by cell on a torus.
use vstd::prelude::*;

pub mod direction;
pub mod game;
pub mod grid;
mod random;
pub mod snake;

verus! {

} // verus!
