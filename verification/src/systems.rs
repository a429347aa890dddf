//! Systems that games share, as functions of the values that they read.

use vstd::prelude::*;
use crate::components::{Health, Vec3, Velocity};
use crate::fixed::{advance, advanced, clamp, saturate, scale, scaled, MICROS_PER_SECOND};

verus! {

/// The turn, about one axis, of an entity that turns at `speed` for `dt`
/// microseconds.
pub open spec fn turned(speed: int, dt: int) -> int {
    clamp(scaled(speed, dt, MICROS_PER_SECOND as int), i64::MIN as int, i64::MAX as int)
}

/// `dead` lists, in rising order, exactly the places in `healths` of the
/// healths that are dead.
pub open spec fn lists_the_dead(healths: Seq<Health>, dead: Seq<usize>) -> bool {
    &&& forall|k: int|
        0 <= k < dead.len() ==> (#[trigger] dead[k]) < healths.len() && healths[dead[k] as int].dead()
    &&& forall|k: int, l: int| 0 <= k < l < dead.len() ==> #[trigger] dead[k] < #[trigger] dead[l]
    &&& forall|i: int|
        0 <= i < healths.len() && (#[trigger] healths[i]).dead() ==> dead.contains(i as usize)
}

fn turn(speed: i64, dt: u32) -> (angle: i64)
    ensures
        angle == turned(speed as int, dt as int),
{
    let wide: i128 = scale(speed as i128, dt, MICROS_PER_SECOND);
    saturate(wide)
}

/// Moves `translation` along the linear velocity for `dt` microseconds, and
/// returns the turn of that time about each axis, as angles to be applied
/// in the order x, y, z.
pub fn apply_velocity(velocity: &Velocity, translation: &mut Vec3, dt: u32) -> (rotation: Vec3)
    ensures
        final(translation).x == advanced(old(translation).x as int, velocity.linear.x as int, dt as int),
        final(translation).y == advanced(old(translation).y as int, velocity.linear.y as int, dt as int),
        final(translation).z == advanced(old(translation).z as int, velocity.linear.z as int, dt as int),
        rotation.x == turned(velocity.angular.x as int, dt as int),
        rotation.y == turned(velocity.angular.y as int, dt as int),
        rotation.z == turned(velocity.angular.z as int, dt as int),
{
    translation.x = advance(translation.x, velocity.linear.x, dt);
    translation.y = advance(translation.y, velocity.linear.y, dt);
    translation.z = advance(translation.z, velocity.linear.z, dt);
    Vec3 {
        x: turn(velocity.angular.x, dt),
        y: turn(velocity.angular.y, dt),
        z: turn(velocity.angular.z, dt),
    }
}

/// Picks the entities to remove: the places in `healths` of those that are
/// dead, in rising order.
pub fn health_system(healths: &Vec<Health>) -> (dead: Vec<usize>)
    ensures
        lists_the_dead(healths@, dead@),
{
    let mut dead: Vec<usize> = Vec::new();
    let mut i: usize = 0;
    while i < healths.len()
        invariant
            i <= healths.len(),
            forall|k: int|
                0 <= k < dead.len() ==> (#[trigger] dead@[k]) < i && healths@[dead@[k] as int].dead(),
            forall|k: int, l: int|
                0 <= k < l < dead.len() ==> #[trigger] dead@[k] < #[trigger] dead@[l],
            forall|j: int|
                0 <= j < i && (#[trigger] healths@[j]).dead() ==> dead@.contains(j as usize),
        decreases healths.len() - i,
    {
        if healths[i].is_dead() {
            let ghost before = dead@;
            dead.push(i);
            proof {
                assert(dead@[before.len() as int] == i);
                assert forall|j: int| 0 <= j < i + 1 && (#[trigger] healths@[j]).dead() implies dead@.contains(
                    j as usize,
                ) by {
                    if j < i {
                        let k = choose|k: int| 0 <= k < before.len() && before[k] == j as usize;
                        assert(dead@[k] == j as usize);
                    }
                }
            }
        }
        i += 1;
    }
    dead
}

} // verus!
