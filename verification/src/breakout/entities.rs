//! The data attached to the entities of a round, and the board's measures.
//!
//! Coordinates and sizes are in thousandths of a world unit, speeds in
//! thousandths of a unit per second.

use vstd::prelude::*;

verus! {

/// Speed of the paddle while a direction key is held.
pub const PADDLE_SPEED: u32 = 500_000;

/// Speed of the ball along each axis at the start of a round, and the
/// horizontal speed that a hit at the paddle's very edge gives it.
pub const BALL_SPEED: u32 = 400_000;

pub const PADDLE_WIDTH: u32 = 120_000;

pub const PADDLE_HEIGHT: u32 = 20_000;

pub const BALL_RADIUS: u32 = 10_000;

pub const BLOCK_WIDTH: u32 = 80_000;

pub const BLOCK_HEIGHT: u32 = 30_000;

pub const WALL_THICKNESS: u32 = 10_000;

pub const BLOCK_ROWS: usize = 5;

pub const BLOCK_COLUMNS: usize = 8;

/// Gap between neighbouring blocks of the grid.
pub const BLOCK_GAP: u32 = 5_000;

/// Centre of the first block of the grid.
pub const GRID_START_X: i64 = -280_000;

pub const GRID_START_Y: i64 = 200_000;

/// The paddle's centre never leaves `-PADDLE_REACH ..= PADDLE_REACH`.
pub const PADDLE_REACH: i64 = 330_000;

/// A wall whose centre lies further than this from the horizontal axis is a
/// top or bottom wall; any other wall is a side wall.
pub const END_WALL_DISTANCE: i64 = 300_000;

/// The round is lost once the ball's centre is below this height.
pub const FLOOR: i64 = -360_000;

/// Points awarded for a destroyed block.
pub const BLOCK_REWARD: u32 = 10;

/// The centre of an entity.
#[derive(Clone, Copy, Debug, PartialEq, Eq, Structural)]
pub struct Position {
    pub x: i64,
    pub y: i64,
}

/// Signed speed along each axis.
#[derive(Clone, Copy, Debug, PartialEq, Eq, Structural)]
pub struct Velocity {
    pub x: i64,
    pub y: i64,
}

/// Extents of an axis-aligned box centred on the entity's position.
#[derive(Clone, Copy, Debug, PartialEq, Eq, Structural)]
pub struct Collider {
    pub width: u32,
    pub height: u32,
}

/// What an entity is; fixed when the entity is made.
#[derive(Clone, Copy, Debug, PartialEq, Eq, Structural)]
pub enum Role {
    Paddle,
    Ball,
    Block,
    Wall,
}

/// A wall or the paddle: a box that the ball bounces off.
#[derive(Clone, Copy, Debug, PartialEq, Eq, Structural)]
pub struct Body {
    pub position: Position,
    pub collider: Collider,
}

#[derive(Clone, Copy, Debug, PartialEq, Eq, Structural)]
pub struct Ball {
    pub position: Position,
    pub velocity: Velocity,
    pub collider: Collider,
}

#[derive(Clone, Copy, Debug, PartialEq, Eq, Structural)]
pub struct Block {
    pub position: Position,
    pub collider: Collider,
    /// Hit points; a block is made with one and leaves on first contact.
    pub health: i32,
}

/// Told to listeners when the ball has destroyed a block.
#[derive(Clone, Copy, Debug, PartialEq, Eq, Structural)]
pub struct BlockDestroyedEvent {
    /// Where the block stood in the list of blocks before it was removed.
    pub index: usize,
}

/// The logical keys, as the input source reports them for one tick.
#[derive(Clone, Copy, Debug, PartialEq, Eq, Structural)]
pub struct Input {
    /// One of the two keys for "left" is held.
    pub arrow_left: bool,
    /// The other key for "left" is held.
    pub key_a: bool,
    /// One of the two keys for "right" is held.
    pub arrow_right: bool,
    /// The other key for "right" is held.
    pub key_d: bool,
    /// The restart key went down during this tick.
    pub restart: bool,
}

impl Velocity {
    /// Both components can be negated without leaving `i64`.
    pub open spec fn reversible(self) -> bool {
        self.x > i64::MIN && self.y > i64::MIN
    }
}

impl Input {
    /// The direction asked for: -1 for left, 1 for right, 0 for neither or
    /// both.
    pub open spec fn direction(self) -> int {
        (if self.arrow_right || self.key_d { 1int } else { 0int })
            - (if self.arrow_left || self.key_a { 1int } else { 0int })
    }
}

} // verus!
