//! Engine-independent game logic in fixed-point arithmetic: a small set of
//! shared components, resources and systems, and the simulation core of a
//! breakout game.

pub mod breakout;
pub mod components;
pub mod fixed;
pub mod prelude;
pub mod resources;
pub mod systems;
pub mod utils;
