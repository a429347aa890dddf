//! The systems that make up one tick, in the order in which a tick runs
//! them: paddle movement, ball movement, ball collision, block collision,
//! the game-over check and the restart control.

use vstd::prelude::*;
use crate::fixed::{advance, advanced, clamp, scale, scaled, MICROS_PER_SECOND};
use crate::breakout::collision::{
    after_block, after_paddle, after_walls, bounce_off_block, bounce_off_paddle, bounce_off_wall,
    check_collision, first_contact, flipped, is_end_wall, overlaps, wall_contacts,
};
use crate::breakout::entities::{
    Ball, Block, BlockDestroyedEvent, Body, Input, Position, BLOCK_REWARD, FLOOR, PADDLE_REACH,
    PADDLE_SPEED,
};
use crate::breakout::world::{round_setup, setup_game, GameState, World, WorldView};

verus! {

/// The world after the paddle has moved for `dt` microseconds at paddle
/// speed in the direction that the keys ask for, kept within its reach.
/// Nothing moves unless a round is running.
pub open spec fn paddle_moved(w: WorldView, input: Input, dt: u32) -> WorldView {
    if !w.state.is_playing {
        w
    } else {
        let speed = input.direction() * PADDLE_SPEED;
        let x = clamp(
            w.paddle.position.x + scaled(speed, dt as int, MICROS_PER_SECOND as int),
            -PADDLE_REACH,
            PADDLE_REACH as int,
        );
        WorldView {
            paddle: Body { position: Position { x: x as i64, y: w.paddle.position.y }, ..w.paddle },
            ..w
        }
    }
}

/// The world after the ball has moved for `dt` microseconds at its
/// velocity. Nothing moves unless a round is running.
pub open spec fn ball_moved(w: WorldView, dt: u32) -> WorldView {
    if !w.state.is_playing {
        w
    } else {
        let position = Position {
            x: advanced(w.ball.position.x as int, w.ball.velocity.x as int, dt as int) as i64,
            y: advanced(w.ball.position.y as int, w.ball.velocity.y as int, dt as int) as i64,
        };
        WorldView { ball: Ball { position, ..w.ball }, ..w }
    }
}

/// The world after the ball has bounced off the walls and then off the
/// paddle. Only the ball's velocity changes.
pub open spec fn ball_collided(w: WorldView) -> WorldView {
    if !w.state.is_playing {
        w
    } else {
        let past_walls = Ball { velocity: after_walls(w.ball, w.walls), ..w.ball };
        WorldView { ball: Ball { velocity: after_paddle(past_walls, w.paddle), ..w.ball }, ..w }
    }
}

/// The block that the ball destroys in this tick, if any: the first one in
/// the list that it overlaps.
pub open spec fn block_struck(w: WorldView) -> Option<int> {
    let i = first_contact(w.ball, w.blocks, 0);
    if w.state.is_playing && i < w.blocks.len() {
        Some(i)
    } else {
        None
    }
}

/// The world after the block collision: the struck block is gone, the score
/// has its reward, and the ball has bounced off it. At most one block goes
/// per tick.
pub open spec fn block_collided(w: WorldView) -> WorldView {
    match block_struck(w) {
        Some(i) => WorldView {
            ball: Ball { velocity: after_block(w.ball, w.blocks[i]), ..w.ball },
            blocks: w.blocks.remove(i),
            score: w.score + BLOCK_REWARD as nat,
            ..w
        },
        None => w,
    }
}

/// Whether a running round ends now: the ball is below the floor, or no
/// block is left.
pub open spec fn round_ends(w: WorldView) -> bool {
    w.state.is_playing && (w.ball.position.y < FLOOR || w.blocks.len() == 0)
}

/// The world after the game-over check.
pub open spec fn game_over_checked(w: WorldView) -> WorldView {
    if round_ends(w) {
        WorldView { state: GameState { is_playing: false, game_over: true }, ..w }
    } else {
        w
    }
}

/// Whether the restart control acts: the round is over and the restart key
/// went down.
pub open spec fn restarts(w: WorldView, input: Input) -> bool {
    w.state.game_over && input.restart
}

/// The world after the restart control: on a restart the score is zero,
/// the game-over flag is cleared, and a round is set up in place of the old
/// one, with its three walls, its paddle, its ball and its full grid.
pub open spec fn game_controlled(w: WorldView, input: Input) -> WorldView {
    if restarts(w, input) {
        round_setup(
            WorldView {
                score: 0,
                state: GameState { is_playing: w.state.is_playing, game_over: false },
                ..w
            },
        )
    } else {
        w
    }
}

/// The world as the restart control finds it in a tick: after the
/// movements, the collisions and the game-over check.
pub open spec fn simulated(w: WorldView, input: Input, dt: u32) -> WorldView {
    game_over_checked(block_collided(ball_collided(ball_moved(paddle_moved(w, input, dt), dt))))
}

/// The world after one whole tick.
pub open spec fn ticked(w: WorldView, input: Input, dt: u32) -> WorldView {
    game_controlled(simulated(w, input, dt), input)
}

/// The event that a tick sends to listeners.
pub open spec fn tick_event(w: WorldView, input: Input, dt: u32) -> Option<BlockDestroyedEvent> {
    match block_struck(ball_collided(ball_moved(paddle_moved(w, input, dt), dt))) {
        Some(i) => Some(BlockDestroyedEvent { index: i as usize }),
        None => None,
    }
}

/// Counting contacts over one wall more adds that wall's contact.
pub proof fn lemma_wall_contacts_step(ball: Ball, walls: Seq<Body>, i: int, ends: bool)
    requires
        0 <= i < walls.len(),
    ensures
        wall_contacts(ball, walls.take(i + 1), ends) == wall_contacts(ball, walls.take(i), ends)
            + (if overlaps(ball.position, ball.collider, walls[i].position, walls[i].collider)
            && is_end_wall(walls[i]) == ends {
            1nat
        } else {
            0nat
        }),
{
    assert(walls.take(i + 1).drop_last() =~= walls.take(i));
}

/// If the ball overlaps none of the blocks from `from` up to `i`, and `i`
/// is the end of the list or a block that it overlaps, then `i` is the
/// first contact from `from` on.
pub proof fn lemma_first_contact(ball: Ball, blocks: Seq<Block>, from: int, i: int)
    requires
        0 <= from <= i <= blocks.len(),
        forall|j: int|
            from <= j < i ==> !overlaps(
                ball.position,
                ball.collider,
                #[trigger] blocks[j].position,
                blocks[j].collider,
            ),
        i < blocks.len() ==> overlaps(
            ball.position,
            ball.collider,
            blocks[i].position,
            blocks[i].collider,
        ),
    ensures
        first_contact(ball, blocks, from) == i,
    decreases i - from,
{
    if from < i {
        lemma_first_contact(ball, blocks, from + 1, i);
    }
}

/// Moves the paddle as the held keys ask.
pub fn paddle_movement_system(world: &mut World, input: &Input, dt: u32)
    ensures
        final(world)@ == paddle_moved(old(world)@, *input, dt),
{
    if !world.state.is_playing {
        return ;
    }
    let mut speed: i128 = 0;
    if input.arrow_left || input.key_a {
        speed = speed - PADDLE_SPEED as i128;
    }
    if input.arrow_right || input.key_d {
        speed = speed + PADDLE_SPEED as i128;
    }
    let step: i128 = scale(speed, dt, MICROS_PER_SECOND);
    let mut x: i128 = world.paddle.position.x as i128 + step;
    if x < -(PADDLE_REACH as i128) {
        x = -(PADDLE_REACH as i128);
    } else if x > PADDLE_REACH as i128 {
        x = PADDLE_REACH as i128;
    }
    world.paddle.position.x = x as i64;
}

/// Moves the ball along its velocity.
pub fn ball_movement_system(world: &mut World, dt: u32)
    ensures
        final(world)@ == ball_moved(old(world)@, dt),
{
    if !world.state.is_playing {
        return ;
    }
    world.ball.position.x = advance(world.ball.position.x, world.ball.velocity.x, dt);
    world.ball.position.y = advance(world.ball.position.y, world.ball.velocity.y, dt);
}

/// Bounces the ball off every wall that it overlaps, then off the paddle.
pub fn ball_collision_system(world: &mut World)
    requires
        old(world)@.wf(),
    ensures
        final(world)@ == ball_collided(old(world)@),
        final(world)@.wf(),
{
    if !world.state.is_playing {
        return ;
    }
    let ball = world.ball;
    let mut velocity = ball.velocity;
    let mut i: usize = 0;
    while i < world.walls.len()
        invariant
            i <= world.walls.len(),
            world.walls@ == old(world).walls@,
            ball.velocity.reversible(),
            velocity.x == flipped(ball.velocity.x as int, wall_contacts(ball, world.walls@.take(i as int), false)),
            velocity.y == flipped(ball.velocity.y as int, wall_contacts(ball, world.walls@.take(i as int), true)),
        decreases world.walls.len() - i,
    {
        let wall = world.walls[i];
        proof {
            lemma_wall_contacts_step(ball, world.walls@, i as int, false);
            lemma_wall_contacts_step(ball, world.walls@, i as int, true);
        }
        if check_collision(ball.position, &ball.collider, wall.position, &wall.collider) {
            velocity = bounce_off_wall(velocity, &wall);
        }
        i += 1;
    }
    proof {
        assert(world.walls@.take(world.walls.len() as int) =~= world.walls@);
    }
    let past_walls = Ball { position: ball.position, velocity, collider: ball.collider };
    world.ball.velocity = bounce_off_paddle(&past_walls, &world.paddle);
}

/// Destroys the first block that the ball overlaps, rewards the score and
/// bounces the ball off it; tells which block went.
pub fn block_collision_system(world: &mut World) -> (event: Option<BlockDestroyedEvent>)
    requires
        old(world)@.wf(),
    ensures
        final(world)@ == block_collided(old(world)@),
        final(world)@.wf(),
        match block_struck(old(world)@) {
            Some(i) => event == Some(BlockDestroyedEvent { index: i as usize }),
            None => event is None,
        },
{
    if !world.state.is_playing {
        return None;
    }
    let ball = world.ball;
    let mut i: usize = 0;
    while i < world.blocks.len()
        invariant
            i <= world.blocks.len(),
            *world == *old(world),
            world@.wf(),
            world.state.is_playing,
            ball == world.ball,
            forall|j: int|
                0 <= j < i ==> !overlaps(
                    ball.position,
                    ball.collider,
                    #[trigger] world.blocks@[j].position,
                    world.blocks@[j].collider,
                ),
        decreases world.blocks.len() - i,
    {
        let block = world.blocks[i];
        if check_collision(ball.position, &ball.collider, block.position, &block.collider) {
            proof {
                lemma_first_contact(ball, world.blocks@, 0, i as int);
            }
            world.blocks.remove(i);
            world.score.score = world.score.score + BLOCK_REWARD;
            world.ball.velocity = bounce_off_block(&ball, &block);
            return Some(BlockDestroyedEvent { index: i });
        }
        i += 1;
    }
    proof {
        lemma_first_contact(ball, world.blocks@, 0, world.blocks@.len() as int);
    }
    None
}

/// Ends the round when the ball has fallen below the floor or no block is
/// left.
pub fn check_game_over(world: &mut World)
    ensures
        final(world)@ == game_over_checked(old(world)@),
{
    if !world.state.is_playing {
        return ;
    }
    if world.ball.position.y < FLOOR {
        world.state.is_playing = false;
        world.state.game_over = true;
    }
    if world.blocks.len() == 0 {
        world.state.is_playing = false;
        world.state.game_over = true;
    }
}

/// Starts a new round when the round is over and the restart key went down.
pub fn game_control_system(world: &mut World, input: &Input)
    ensures
        final(world)@ == game_controlled(old(world)@, *input),
{
    if world.state.game_over && input.restart {
        world.score.score = 0;
        world.state.game_over = false;
        setup_game(world);
    }
}

/// Runs one tick: every system once, in order.
pub fn tick(world: &mut World, input: &Input, dt: u32) -> (event: Option<BlockDestroyedEvent>)
    requires
        old(world)@.wf(),
    ensures
        final(world)@ == ticked(old(world)@, *input, dt),
        final(world)@.wf(),
        event == tick_event(old(world)@, *input, dt),
{
    paddle_movement_system(world, input, dt);
    ball_movement_system(world, dt);
    ball_collision_system(world);
    let event = block_collision_system(world);
    check_game_over(world);
    game_control_system(world, input);
    event
}

} // verus!
