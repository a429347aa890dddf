//! The collision engine: when two boxes overlap, and what a contact does to
//! the ball's velocity.

use vstd::prelude::*;
use crate::fixed::{magnitude, scale, scaled};
use crate::breakout::entities::{
    Ball, Block, Body, Collider, Position, Velocity, BALL_SPEED, END_WALL_DISTANCE, PADDLE_WIDTH,
};

verus! {

/// Two boxes overlap when, along each axis, their centres are closer than
/// the sum of their half extents. Boxes that only touch do not overlap.
pub open spec fn overlaps(pos1: Position, collider1: Collider, pos2: Position, collider2: Collider) -> bool {
    &&& 2 * magnitude(pos1.x - pos2.x) < collider1.width + collider2.width
    &&& 2 * magnitude(pos1.y - pos2.y) < collider1.height + collider2.height
}

/// Whether `wall` is a top or bottom wall rather than a side wall.
pub open spec fn is_end_wall(wall: Body) -> bool {
    wall.position.y > END_WALL_DISTANCE || wall.position.y < -END_WALL_DISTANCE
}

/// `v` after `times` reversals.
pub open spec fn flipped(v: int, times: nat) -> int {
    if times % 2 == 0 {
        v
    } else {
        -v
    }
}

/// How many of `walls` the ball overlaps, counting top and bottom walls
/// where `ends` is true and side walls where it is false.
pub open spec fn wall_contacts(ball: Ball, walls: Seq<Body>, ends: bool) -> nat
    decreases walls.len(),
{
    if walls.len() == 0 {
        0
    } else {
        let wall = walls.last();
        let rest = wall_contacts(ball, walls.drop_last(), ends);
        let touched = overlaps(ball.position, ball.collider, wall.position, wall.collider);
        if touched && is_end_wall(wall) == ends {
            rest + 1
        } else {
            rest
        }
    }
}

/// The ball's velocity after the walls: each overlapping top or bottom wall
/// reverses the vertical component once, each overlapping side wall the
/// horizontal one.
pub open spec fn after_walls(ball: Ball, walls: Seq<Body>) -> Velocity {
    Velocity {
        x: flipped(ball.velocity.x as int, wall_contacts(ball, walls, false)) as i64,
        y: flipped(ball.velocity.y as int, wall_contacts(ball, walls, true)) as i64,
    }
}

/// The horizontal speed that the paddle gives a ball which meets it
/// `offset` to the right of the paddle's centre: the full ball speed at the
/// paddle's edge, proportionally less nearer the centre.
pub open spec fn paddle_spin(offset: int) -> int {
    scaled(offset, BALL_SPEED as int, (PADDLE_WIDTH / 2) as int)
}

/// The ball's velocity after the paddle: a falling ball that overlaps the
/// paddle rises again, with a horizontal speed set by where it struck.
pub open spec fn after_paddle(ball: Ball, paddle: Body) -> Velocity {
    let touched = overlaps(ball.position, ball.collider, paddle.position, paddle.collider);
    if touched && ball.velocity.y < 0 {
        Velocity {
            x: paddle_spin(ball.position.x - paddle.position.x) as i64,
            y: (-ball.velocity.y) as i64,
        }
    } else {
        ball.velocity
    }
}

/// The ball's velocity after destroying `block`: the axis along which the
/// two centres lie further apart is the one that reverses; on a tie, the
/// vertical one.
pub open spec fn after_block(ball: Ball, block: Block) -> Velocity {
    if magnitude(ball.position.x - block.position.x) > magnitude(ball.position.y - block.position.y) {
        Velocity { x: (-ball.velocity.x) as i64, y: ball.velocity.y }
    } else {
        Velocity { x: ball.velocity.x, y: (-ball.velocity.y) as i64 }
    }
}

/// The index of the first of `blocks`, from `from` on, that the ball
/// overlaps; the number of blocks if it overlaps none of them.
pub open spec fn first_contact(ball: Ball, blocks: Seq<Block>, from: int) -> int
    decreases blocks.len() - from,
{
    if from < 0 || from >= blocks.len() {
        blocks.len() as int
    } else if overlaps(ball.position, ball.collider, blocks[from].position, blocks[from].collider) {
        from
    } else {
        first_contact(ball, blocks, from + 1)
    }
}

/// Tells whether two boxes overlap.
pub fn check_collision(pos1: Position, collider1: &Collider, pos2: Position, collider2: &Collider) -> (hit: bool)
    ensures
        hit == overlaps(pos1, *collider1, pos2, *collider2),
{
    let dx: i128 = pos1.x as i128 - pos2.x as i128;
    let dy: i128 = pos1.y as i128 - pos2.y as i128;
    let far_x: i128 = if dx >= 0 { dx } else { -dx };
    let far_y: i128 = if dy >= 0 { dy } else { -dy };
    let reach_x: i128 = collider1.width as i128 + collider2.width as i128;
    let reach_y: i128 = collider1.height as i128 + collider2.height as i128;
    2 * far_x < reach_x && 2 * far_y < reach_y
}

/// Reverses the component of `velocity` that a contact with `wall` turns
/// around: the vertical one at a top or bottom wall, the horizontal one at a
/// side wall.
pub fn bounce_off_wall(velocity: Velocity, wall: &Body) -> (v: Velocity)
    requires
        velocity.reversible(),
    ensures
        is_end_wall(*wall) ==> v.x == velocity.x && v.y == -velocity.y,
        !is_end_wall(*wall) ==> v.x == -velocity.x && v.y == velocity.y,
{
    if wall.position.y > END_WALL_DISTANCE || wall.position.y < -END_WALL_DISTANCE {
        Velocity { x: velocity.x, y: -velocity.y }
    } else {
        Velocity { x: -velocity.x, y: velocity.y }
    }
}

/// Applies the paddle rule to the ball's velocity.
pub fn bounce_off_paddle(ball: &Ball, paddle: &Body) -> (v: Velocity)
    requires
        ball.velocity.reversible(),
    ensures
        v == after_paddle(*ball, *paddle),
        v.reversible(),
{
    if check_collision(ball.position, &ball.collider, paddle.position, &paddle.collider)
        && ball.velocity.y < 0 {
        let offset: i128 = ball.position.x as i128 - paddle.position.x as i128;
        let spin: i128 = scale(offset, BALL_SPEED, PADDLE_WIDTH / 2);
        Velocity { x: spin as i64, y: -ball.velocity.y }
    } else {
        ball.velocity
    }
}

/// Applies the block rule to the ball's velocity.
pub fn bounce_off_block(ball: &Ball, block: &Block) -> (v: Velocity)
    requires
        ball.velocity.reversible(),
    ensures
        v == after_block(*ball, *block),
        v.reversible(),
{
    let dx: i128 = ball.position.x as i128 - block.position.x as i128;
    let dy: i128 = ball.position.y as i128 - block.position.y as i128;
    let far_x: i128 = if dx >= 0 { dx } else { -dx };
    let far_y: i128 = if dy >= 0 { dy } else { -dy };
    if far_x > far_y {
        Velocity { x: -ball.velocity.x, y: ball.velocity.y }
    } else {
        Velocity { x: ball.velocity.x, y: -ball.velocity.y }
    }
}

} // verus!
