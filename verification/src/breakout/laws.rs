//! What holds of the simulation as a whole, proved from the definitions of
//! the collision rules and of the systems.

use vstd::prelude::*;
use crate::fixed::magnitude;
use crate::breakout::collision::{
    after_walls, first_contact, overlaps, paddle_spin,
};
use crate::breakout::entities::{
    Ball, Block, Body, Collider, Input, Position, BALL_SPEED, BLOCK_REWARD, PADDLE_REACH,
    PADDLE_WIDTH,
};
use crate::breakout::frame::{
    ball_collided, ball_moved, block_collided, block_struck, paddle_moved, restarts, simulated,
    ticked,
};
use crate::breakout::world::{block_grid, initial_ball, initial_paddle, initial_walls, WorldView};

verus! {

/// The time and the keys of one tick.
pub struct Frame {
    pub input: Input,
    pub dt: u32,
}

/// The world after one tick for each of `frames`, in order.
pub open spec fn run(w: WorldView, frames: Seq<Frame>) -> WorldView
    decreases frames.len(),
{
    if frames.len() == 0 {
        w
    } else {
        ticked(run(w, frames.drop_last()), frames.last().input, frames.last().dt)
    }
}

/// Whether two boxes overlap does not depend on the order in which they are
/// given.
pub proof fn lemma_overlaps_symmetric(pos1: Position, collider1: Collider, pos2: Position, collider2: Collider)
    ensures
        overlaps(pos1, collider1, pos2, collider2) == overlaps(pos2, collider2, pos1, collider1),
{
}

/// Two boxes that share an edge, with no gap and no common interior, do not
/// overlap: the first box's right edge on the second's left edge, or its
/// top edge on the second's bottom edge.
pub proof fn lemma_touching_boxes_do_not_overlap(pos1: Position, collider1: Collider, pos2: Position, collider2: Collider)
    requires
        2 * (pos2.x - pos1.x) == collider1.width + collider2.width || 2 * (pos2.y - pos1.y)
            == collider1.height + collider2.height,
    ensures
        !overlaps(pos1, collider1, pos2, collider2),
        !overlaps(pos2, collider2, pos1, collider1),
{
}

/// Boxes overlap exactly when each one's left edge is left of the other's
/// right edge and each one's bottom edge is below the other's top edge,
/// all four strictly.
pub proof fn lemma_overlaps_by_edges(pos1: Position, collider1: Collider, pos2: Position, collider2: Collider)
    ensures
        overlaps(pos1, collider1, pos2, collider2) <==> {
            &&& 2 * pos1.x - collider1.width < 2 * pos2.x + collider2.width
            &&& 2 * pos1.x + collider1.width > 2 * pos2.x - collider2.width
            &&& 2 * pos1.y - collider1.height < 2 * pos2.y + collider2.height
            &&& 2 * pos1.y + collider1.height > 2 * pos2.y - collider2.height
        },
{
}

/// Bouncing off walls never changes how fast the ball is along either axis:
/// each component keeps its magnitude and at most changes its sign.
pub proof fn lemma_wall_bounce_keeps_speed(ball: Ball, walls: Seq<Body>)
    requires
        ball.velocity.reversible(),
    ensures
        magnitude(after_walls(ball, walls).x as int) == magnitude(ball.velocity.x as int),
        magnitude(after_walls(ball, walls).y as int) == magnitude(ball.velocity.y as int),
        after_walls(ball, walls).reversible(),
{
}

/// A ball that meets the paddle no further from its centre than half the
/// paddle's width leaves with a horizontal speed of at most the ball speed,
/// toward the side on which it struck.
pub proof fn lemma_paddle_spin_bounded(offset: int)
    requires
        magnitude(offset) <= PADDLE_WIDTH / 2,
    ensures
        magnitude(paddle_spin(offset)) <= BALL_SPEED,
        offset >= 0 ==> paddle_spin(offset) >= 0,
        offset <= 0 ==> paddle_spin(offset) <= 0,
{
    let m = magnitude(offset);
    assert((m * 400_000) / 60_000 <= 400_000) by (nonlinear_arith)
        requires
            0 <= m <= 60_000,
    ;
}

/// The first contact from `from` on is a block that the ball overlaps, or
/// the end of the list, and the ball overlaps no block between `from` and
/// it.
pub proof fn lemma_first_contact_is_first(ball: Ball, blocks: Seq<Block>, from: int)
    requires
        0 <= from <= blocks.len(),
    ensures
        from <= first_contact(ball, blocks, from) <= blocks.len(),
        first_contact(ball, blocks, from) < blocks.len() ==> overlaps(
            ball.position,
            ball.collider,
            blocks[first_contact(ball, blocks, from)].position,
            blocks[first_contact(ball, blocks, from)].collider,
        ),
        forall|j: int|
            from <= j < first_contact(ball, blocks, from) ==> !overlaps(
                ball.position,
                ball.collider,
                #[trigger] blocks[j].position,
                blocks[j].collider,
            ),
    decreases blocks.len() - from,
{
    if from < blocks.len() && !overlaps(
        ball.position,
        ball.collider,
        blocks[from].position,
        blocks[from].collider,
    ) {
        lemma_first_contact_is_first(ball, blocks, from + 1);
    }
}

/// The block collision keeps the world well formed, removes at most one
/// block, and adds the reward to the score exactly when it removes one.
pub proof fn lemma_block_collided(w: WorldView)
    requires
        w.wf(),
    ensures
        block_collided(w).wf(),
        block_struck(w) is None ==> block_collided(w) == w,
        block_struck(w) is Some ==> block_collided(w).blocks.len() == w.blocks.len() - 1
            && block_collided(w).score == w.score + BLOCK_REWARD,
{
    lemma_first_contact_is_first(w.ball, w.blocks, 0);
    match block_struck(w) {
        Some(i) => {
        },
        None => {},
    }
}

/// The collisions only turn the ball around: they move neither the ball nor
/// the paddle nor a wall, and leave the paddle and the walls as they are.
pub proof fn lemma_collisions_move_nothing(w: WorldView)
    ensures
        ball_collided(w).ball.position == w.ball.position,
        block_collided(ball_collided(w)).ball.position == w.ball.position,
        block_collided(ball_collided(w)).ball.collider == w.ball.collider,
        block_collided(ball_collided(w)).paddle == w.paddle,
        block_collided(ball_collided(w)).walls == w.walls,
        ball_collided(w).blocks == w.blocks,
        ball_collided(w).score == w.score,
{
}

/// While a round is running the paddle ends every tick within its reach,
/// at the height at which it started.
pub proof fn lemma_paddle_stays_in_reach(w: WorldView, input: Input, dt: u32)
    requires
        w.state.is_playing,
    ensures
        -PADDLE_REACH <= paddle_moved(w, input, dt).paddle.position.x <= PADDLE_REACH,
        paddle_moved(w, input, dt).paddle.position.y == w.paddle.position.y,
        paddle_moved(w, input, dt).paddle.collider == w.paddle.collider,
        simulated(w, input, dt).paddle == paddle_moved(w, input, dt).paddle,
{
}

/// Every tick keeps the world well formed; in particular the round is never
/// running and over at once.
pub proof fn lemma_tick_keeps_wf(w: WorldView, input: Input, dt: u32)
    requires
        w.wf(),
    ensures
        ticked(w, input, dt).wf(),
        !(ticked(w, input, dt).state.is_playing && ticked(w, input, dt).state.game_over),
{
    let moved = ball_moved(paddle_moved(w, input, dt), dt);
    let bounced = ball_collided(moved);
    lemma_block_collided(bounced);
}

/// After any number of ticks from a well-formed world, the world is well
/// formed, and the round is not running and over at once.
pub proof fn lemma_run_keeps_wf(w: WorldView, frames: Seq<Frame>)
    requires
        w.wf(),
    ensures
        run(w, frames).wf(),
        !(run(w, frames).state.is_playing && run(w, frames).state.game_over),
    decreases frames.len(),
{
    if frames.len() > 0 {
        lemma_run_keeps_wf(w, frames.drop_last());
        lemma_tick_keeps_wf(run(w, frames.drop_last()), frames.last().input, frames.last().dt);
    }
}

/// In a tick without a restart the score never falls: it grows by the
/// reward for each block that the tick destroyed, which is at most one.
pub proof fn lemma_score_counts_destroyed_blocks(w: WorldView, input: Input, dt: u32)
    requires
        w.wf(),
        !restarts(simulated(w, input, dt), input),
    ensures
        ticked(w, input, dt).blocks.len() <= w.blocks.len() <= ticked(w, input, dt).blocks.len() + 1,
        ticked(w, input, dt).score == w.score + BLOCK_REWARD * (w.blocks.len() - ticked(
            w,
            input,
            dt,
        ).blocks.len()),
        ticked(w, input, dt).score >= w.score,
{
    let moved = ball_moved(paddle_moved(w, input, dt), dt);
    lemma_block_collided(ball_collided(moved));
}

/// Over any number of ticks in which the restart key never goes down, the
/// score never falls, and it has grown by the reward for each block that
/// went.
pub proof fn lemma_score_monotonic(w: WorldView, frames: Seq<Frame>)
    requires
        w.wf(),
        forall|i: int| 0 <= i < frames.len() ==> !(#[trigger] frames[i]).input.restart,
    ensures
        run(w, frames).blocks.len() <= w.blocks.len(),
        run(w, frames).score == w.score + BLOCK_REWARD * (w.blocks.len() - run(
            w,
            frames,
        ).blocks.len()),
        run(w, frames).score >= w.score,
    decreases frames.len(),
{
    if frames.len() > 0 {
        let before = run(w, frames.drop_last());
        lemma_score_monotonic(w, frames.drop_last());
        lemma_run_keeps_wf(w, frames.drop_last());
        lemma_score_counts_destroyed_blocks(before, frames.last().input, frames.last().dt);
    }
}

/// A tick that restarts leaves a fresh round: no score, the round running
/// and not over, the three walls, one paddle and one ball in their starting
/// places, and the full grid of blocks.
pub proof fn lemma_restart_sets_up_a_round(w: WorldView, input: Input, dt: u32)
    requires
        w.wf(),
        restarts(simulated(w, input, dt), input),
    ensures
        ticked(w, input, dt).score == 0,
        ticked(w, input, dt).state.is_playing,
        !ticked(w, input, dt).state.game_over,
        ticked(w, input, dt).paddle == initial_paddle(),
        ticked(w, input, dt).ball == initial_ball(),
        ticked(w, input, dt).blocks == block_grid(),
        ticked(w, input, dt).walls == initial_walls(),
{
}

/// A restart happens in a tick exactly when the restart key went down and
/// the round was over before the tick or ends in it.
pub proof fn lemma_restart_condition(w: WorldView, input: Input, dt: u32)
    requires
        w.wf(),
    ensures
        restarts(simulated(w, input, dt), input) <==> input.restart && (w.state.game_over
            || simulated(w, input, dt).state.game_over),
        w.state.game_over ==> simulated(w, input, dt) == w,
{
}

/// Once the round is over, a tick in which the restart key does not go down
/// changes nothing: no position, no velocity, no score.
pub proof fn lemma_game_over_freezes(w: WorldView, input: Input, dt: u32)
    requires
        w.wf(),
        w.state.game_over,
        !input.restart,
    ensures
        ticked(w, input, dt) == w,
{
}

/// Once the round is over, the world stays as it is through any number of
/// ticks in which the restart key never goes down.
pub proof fn lemma_game_over_freezes_run(w: WorldView, frames: Seq<Frame>)
    requires
        w.wf(),
        w.state.game_over,
        forall|i: int| 0 <= i < frames.len() ==> !(#[trigger] frames[i]).input.restart,
    ensures
        run(w, frames) == w,
    decreases frames.len(),
{
    if frames.len() > 0 {
        lemma_game_over_freezes_run(w, frames.drop_last());
        lemma_game_over_freezes(w, frames.last().input, frames.last().dt);
    }
}

/// A running round ends in the tick that leaves no block, and in the tick
/// that leaves the ball below the floor.
pub proof fn lemma_round_ends(w: WorldView, input: Input, dt: u32)
    requires
        w.wf(),
        w.state.is_playing,
    ensures
        simulated(w, input, dt).state.game_over <==> !simulated(w, input, dt).state.is_playing,
        simulated(w, input, dt).blocks.len() == 0 ==> simulated(w, input, dt).state.game_over,
        simulated(w, input, dt).state.game_over && !input.restart ==> ticked(
            w,
            input,
            dt,
        ).state.game_over && !ticked(w, input, dt).state.is_playing,
{
}

} // verus!
