//! The state of one simulation, and how a round is set up.

use vstd::prelude::*;
use crate::breakout::entities::{
    Ball, Block, Body, Collider, Position, Role, Velocity, BALL_RADIUS, BALL_SPEED, BLOCK_COLUMNS,
    BLOCK_GAP, BLOCK_HEIGHT, BLOCK_REWARD, BLOCK_ROWS, BLOCK_WIDTH, GRID_START_X, GRID_START_Y,
    PADDLE_HEIGHT, PADDLE_WIDTH, WALL_THICKNESS,
};

verus! {

/// Whether a round is running and whether it has ended. The two are never
/// true together.
#[derive(Clone, Copy, Debug, PartialEq, Eq, Structural)]
pub struct GameState {
    pub is_playing: bool,
    pub game_over: bool,
}

/// The score of the running round.
#[derive(Clone, Copy, Debug, PartialEq, Eq, Structural)]
pub struct GameScore {
    pub score: u32,
}

/// Everything the simulation owns: the entities by role, the score and the
/// round state. There is always exactly one paddle and one ball.
#[derive(Debug)]
pub struct World {
    pub walls: Vec<Body>,
    pub paddle: Body,
    pub ball: Ball,
    pub blocks: Vec<Block>,
    pub score: GameScore,
    pub state: GameState,
}

/// What the presentation draws for one entity.
#[derive(Clone, Copy, Debug, PartialEq, Eq, Structural)]
pub struct Shape {
    pub role: Role,
    pub position: Position,
    pub collider: Collider,
}

/// A [`World`] as a mathematical value.
pub struct WorldView {
    pub walls: Seq<Body>,
    pub paddle: Body,
    pub ball: Ball,
    pub blocks: Seq<Block>,
    pub score: nat,
    pub state: GameState,
}

impl View for World {
    type V = WorldView;

    open spec fn view(&self) -> WorldView {
        WorldView {
            walls: self.walls@,
            paddle: self.paddle,
            ball: self.ball,
            blocks: self.blocks@,
            score: self.score.score as nat,
            state: self.state,
        }
    }
}

impl WorldView {
    /// What every system relies on and keeps: the round is not running and
    /// over at once, the ball's velocity can be reversed, and the score can
    /// still take the reward for every block that is left.
    pub open spec fn wf(self) -> bool {
        &&& !(self.state.is_playing && self.state.game_over)
        &&& self.ball.velocity.reversible()
        &&& self.score + BLOCK_REWARD * self.blocks.len() <= u32::MAX
    }
}

/// The entity that is drawn in place `i`: the walls come first, then the
/// paddle, the ball, and the blocks.
pub open spec fn shape_at(w: WorldView, i: int) -> Shape {
    if i < w.walls.len() {
        Shape { role: Role::Wall, position: w.walls[i].position, collider: w.walls[i].collider }
    } else if i == w.walls.len() {
        Shape { role: Role::Paddle, position: w.paddle.position, collider: w.paddle.collider }
    } else if i == w.walls.len() + 1 {
        Shape { role: Role::Ball, position: w.ball.position, collider: w.ball.collider }
    } else {
        let block = w.blocks[i - w.walls.len() - 2];
        Shape { role: Role::Block, position: block.position, collider: block.collider }
    }
}

/// The three walls of a round: top, left, right.
pub open spec fn initial_walls() -> Seq<Body> {
    seq![
        Body {
            position: Position { x: 0, y: 360_000 },
            collider: Collider { width: 800_000, height: WALL_THICKNESS },
        },
        Body {
            position: Position { x: -400_000i64, y: 0 },
            collider: Collider { width: WALL_THICKNESS, height: 720_000 },
        },
        Body {
            position: Position { x: 400_000, y: 0 },
            collider: Collider { width: WALL_THICKNESS, height: 720_000 },
        },
    ]
}

/// The paddle at the start of a round.
pub open spec fn initial_paddle() -> Body {
    Body {
        position: Position { x: 0, y: -300_000i64 },
        collider: Collider { width: PADDLE_WIDTH, height: PADDLE_HEIGHT },
    }
}

/// The ball at the start of a round: at the origin, rising to the right.
pub open spec fn initial_ball() -> Ball {
    Ball {
        position: Position { x: 0, y: 0 },
        velocity: Velocity { x: BALL_SPEED as i64, y: BALL_SPEED as i64 },
        collider: Collider { width: (2 * BALL_RADIUS) as u32, height: (2 * BALL_RADIUS) as u32 },
    }
}

/// The block in row `row` (counted from the top) and column `column`
/// (counted from the left) of the grid.
pub open spec fn grid_block(row: int, column: int) -> Block {
    Block {
        position: Position {
            x: (GRID_START_X + column * (BLOCK_WIDTH + BLOCK_GAP)) as i64,
            y: (GRID_START_Y - row * (BLOCK_HEIGHT + BLOCK_GAP)) as i64,
        },
        collider: Collider { width: BLOCK_WIDTH, height: BLOCK_HEIGHT },
        health: 1,
    }
}

/// The whole grid of a new round, row by row from the top.
pub open spec fn block_grid() -> Seq<Block> {
    Seq::new(
        (BLOCK_ROWS * BLOCK_COLUMNS) as nat,
        |i: int| grid_block(i / BLOCK_COLUMNS as int, i % BLOCK_COLUMNS as int),
    )
}

/// A world with a paddle and a ball in their starting places and nothing
/// else, before any round.
pub open spec fn blank() -> WorldView {
    WorldView {
        walls: Seq::empty(),
        paddle: initial_paddle(),
        ball: initial_ball(),
        blocks: Seq::empty(),
        score: 0,
        state: GameState { is_playing: false, game_over: false },
    }
}

/// The round setup: the world holds the three walls, the paddle and the
/// ball in their starting places and the full grid of blocks, whatever
/// entities it held before, and the round is running. The score and the
/// game-over flag are left as they are.
pub open spec fn round_setup(w: WorldView) -> WorldView {
    WorldView {
        walls: initial_walls(),
        paddle: initial_paddle(),
        ball: initial_ball(),
        blocks: block_grid(),
        score: w.score,
        state: GameState { is_playing: true, game_over: w.state.game_over },
    }
}

/// Sets up a round in `world`: the entities of an earlier round go, and
/// those of a new round take their places.
pub fn setup_game(world: &mut World)
    ensures
        final(world)@ == round_setup(old(world)@),
{
    world.walls.clear();
    world.blocks.clear();
    world.walls.push(
        Body {
            position: Position { x: 0, y: 360_000 },
            collider: Collider { width: 800_000, height: WALL_THICKNESS },
        },
    );
    world.walls.push(
        Body {
            position: Position { x: -400_000i64, y: 0 },
            collider: Collider { width: WALL_THICKNESS, height: 720_000 },
        },
    );
    world.walls.push(
        Body {
            position: Position { x: 400_000, y: 0 },
            collider: Collider { width: WALL_THICKNESS, height: 720_000 },
        },
    );
    world.paddle = Body {
        position: Position { x: 0, y: -300_000i64 },
        collider: Collider { width: PADDLE_WIDTH, height: PADDLE_HEIGHT },
    };
    world.ball = Ball {
        position: Position { x: 0, y: 0 },
        velocity: Velocity { x: BALL_SPEED as i64, y: BALL_SPEED as i64 },
        collider: Collider { width: BALL_RADIUS * 2, height: BALL_RADIUS * 2 },
    };
    let spacing_x: i64 = (BLOCK_WIDTH + BLOCK_GAP) as i64;
    let spacing_y: i64 = (BLOCK_HEIGHT + BLOCK_GAP) as i64;
    let mut row: usize = 0;
    while row < BLOCK_ROWS
        invariant
            row <= BLOCK_ROWS,
            spacing_x == 85_000,
            spacing_y == 35_000,
            world.blocks@ == block_grid().take(row * BLOCK_COLUMNS),
            world.walls@ == initial_walls(),
            world.paddle == initial_paddle(),
            world.ball == initial_ball(),
            world.score == old(world).score,
            world.state == old(world).state,
        decreases BLOCK_ROWS - row,
    {
        let mut column: usize = 0;
        while column < BLOCK_COLUMNS
            invariant
                row < BLOCK_ROWS,
                column <= BLOCK_COLUMNS,
                spacing_x == 85_000,
                spacing_y == 35_000,
                world.blocks@ == block_grid().take(row * BLOCK_COLUMNS + column),
                world.walls@ == initial_walls(),
                world.paddle == initial_paddle(),
                world.ball == initial_ball(),
                world.score == old(world).score,
                world.state == old(world).state,
            decreases BLOCK_COLUMNS - column,
        {
            let x: i64 = GRID_START_X + column as i64 * spacing_x;
            let y: i64 = GRID_START_Y - row as i64 * spacing_y;
            let block = Block {
                position: Position { x, y },
                collider: Collider { width: BLOCK_WIDTH, height: BLOCK_HEIGHT },
                health: 1,
            };
            world.blocks.push(block);
            column += 1;
        }
        row += 1;
    }
    world.state.is_playing = true;
    proof {
        assert(block_grid().take((BLOCK_ROWS * BLOCK_COLUMNS) as int) =~= block_grid());
    }
}

impl World {
    /// A world in which the first round has just been set up.
    pub fn new() -> (world: World)
        ensures
            world@ == round_setup(blank()),
            world@.wf(),
    {
        let mut world = World {
            walls: Vec::new(),
            paddle: Body {
                position: Position { x: 0, y: -300_000i64 },
                collider: Collider { width: PADDLE_WIDTH, height: PADDLE_HEIGHT },
            },
            ball: Ball {
                position: Position { x: 0, y: 0 },
                velocity: Velocity { x: BALL_SPEED as i64, y: BALL_SPEED as i64 },
                collider: Collider { width: BALL_RADIUS * 2, height: BALL_RADIUS * 2 },
            },
            blocks: Vec::new(),
            score: GameScore { score: 0 },
            state: GameState { is_playing: false, game_over: false },
        };
        setup_game(&mut world);
        world
    }

    /// Every entity with its role, place and size, for drawing.
    pub fn shapes(&self) -> (shapes: Vec<Shape>)
        ensures
            shapes@.len() == self@.walls.len() + 2 + self@.blocks.len(),
            forall|i: int| 0 <= i < shapes@.len() ==> #[trigger] shapes@[i] == shape_at(self@, i),
    {
        let mut shapes: Vec<Shape> = Vec::new();
        let mut i: usize = 0;
        while i < self.walls.len()
            invariant
                i <= self.walls.len(),
                shapes@.len() == i,
                forall|k: int| 0 <= k < i ==> #[trigger] shapes@[k] == shape_at(self@, k),
            decreases self.walls.len() - i,
        {
            let wall = self.walls[i];
            shapes.push(Shape { role: Role::Wall, position: wall.position, collider: wall.collider });
            i += 1;
        }
        shapes.push(
            Shape {
                role: Role::Paddle,
                position: self.paddle.position,
                collider: self.paddle.collider,
            },
        );
        shapes.push(
            Shape { role: Role::Ball, position: self.ball.position, collider: self.ball.collider },
        );
        let mut j: usize = 0;
        while j < self.blocks.len()
            invariant
                j <= self.blocks.len(),
                shapes@.len() == self.walls.len() + 2 + j,
                forall|k: int| 0 <= k < shapes@.len() ==> #[trigger] shapes@[k] == shape_at(self@, k),
            decreases self.blocks.len() - j,
        {
            let block = self.blocks[j];
            shapes.push(
                Shape { role: Role::Block, position: block.position, collider: block.collider },
            );
            j += 1;
        }
        shapes
    }

    /// Tells whether the world is in a state that the systems accept.
    pub fn is_well_formed(&self) -> (ok: bool)
        ensures
            ok == self@.wf(),
    {
        let reward: u64 = BLOCK_REWARD as u64;
        let blocks: u64 = self.blocks.len() as u64;
        !(self.state.is_playing && self.state.game_over)
            && self.ball.velocity.x > i64::MIN
            && self.ball.velocity.y > i64::MIN
            && blocks <= (u32::MAX as u64 - self.score.score as u64) / reward
    }
}

} // verus!
