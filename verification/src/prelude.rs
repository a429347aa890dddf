//! The shared components, resources, systems and helpers under one path.

pub use crate::components::{Health, Player, Vec3, Velocity};
pub use crate::resources::{Difficulty, GameSettings, GameState, Score};
pub use crate::systems::{apply_velocity, health_system};
pub use crate::utils::{lerp, random_in_range};
