//! Components that games share.

use vstd::prelude::*;

verus! {

/// Hit points of an entity. A health made by [`Health::new`] and changed
/// only by [`Health::take_damage`] and [`Health::heal`] never holds more
/// than `max`.
#[derive(Clone, Copy, Debug, PartialEq, Eq, Structural)]
pub struct Health {
    pub current: u32,
    pub max: u32,
}

/// Three coordinates, in thousandths of a unit.
#[derive(Clone, Copy, Debug, PartialEq, Eq, Structural)]
pub struct Vec3 {
    pub x: i64,
    pub y: i64,
    pub z: i64,
}

/// How fast an entity moves and turns: `linear` in thousandths of a unit
/// per second, `angular` in thousandths of a radian per second about each
/// axis.
#[derive(Clone, Copy, Debug, PartialEq, Eq, Structural)]
pub struct Velocity {
    pub linear: Vec3,
    pub angular: Vec3,
}

#[derive(Debug)]
pub struct Player {
    pub id: usize,
    pub name: String,
}

impl Health {
    /// No more hit points than the maximum.
    pub open spec fn wf(self) -> bool {
        self.current <= self.max
    }

    /// No hit points are left.
    pub open spec fn dead(self) -> bool {
        self.current == 0
    }

    /// Full health of `max` hit points.
    pub fn new(max: u32) -> (health: Health)
        ensures
            health.current == max,
            health.max == max,
            health.wf(),
    {
        Health { current: max, max }
    }

    /// Takes `amount` hit points away; none are left where fewer were
    /// there.
    pub fn take_damage(&mut self, amount: u32)
        ensures
            final(self).max == old(self).max,
            final(self).current == if old(self).current >= amount {
                old(self).current - amount
            } else {
                0
            },
            old(self).wf() ==> final(self).wf(),
    {
        self.current = if self.current >= amount {
            self.current - amount
        } else {
            0
        };
    }

    /// Gives `amount` hit points back, up to the maximum.
    pub fn heal(&mut self, amount: u32)
        ensures
            final(self).max == old(self).max,
            final(self).current == if old(self).current + amount <= old(self).max {
                old(self).current + amount
            } else {
                old(self).max as int
            },
            final(self).wf(),
    {
        let sum: u64 = self.current as u64 + amount as u64;
        self.current = if sum <= self.max as u64 {
            sum as u32
        } else {
            self.max
        };
    }

    pub fn is_dead(&self) -> (dead: bool)
        ensures
            dead == self.dead(),
    {
        self.current == 0
    }
}

/// Damage and healing keep a health within its maximum, and a health is
/// dead exactly when damage has used it up: after damage of at least what
/// was left, and otherwise only if nothing was left before.
pub proof fn lemma_health_bounds(health: Health, amount: u32)
    requires
        health.wf(),
    ensures
        ({
            let after = Health {
                current: if health.current >= amount {
                    (health.current - amount) as u32
                } else {
                    0
                },
                max: health.max,
            };
            after.wf() && (after.dead() <==> amount >= health.current)
        }),
{
}

} // verus!
