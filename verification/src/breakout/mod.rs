//! The breakout simulation: entities, collision rules, per-tick systems and
//! the round state machine. Presentation and input devices stay outside; the
//! simulation takes a frame time and the state of the logical keys, and
//! leaves positions, score and the game-over flag to be drawn.

pub mod collision;
pub mod entities;
pub mod frame;
pub mod laws;
pub mod world;
