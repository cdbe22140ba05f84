//! Input handling for the hero: maps the pressed-key snapshot to the hero's
//! velocity and honours a pending position reset.
//!
//! Vertical rule (a simple hop, not continuous gravity): on or below the
//! ground line the hero may jump when Up is held, otherwise stands still; at
//! or above the ceiling it is pushed down at a fixed descent rate; in
//! between, the vertical velocity is preserved.  Horizontal rule: a fixed
//! run speed toward whichever of Left/Right is held alone, zero otherwise.

use crate::component::{Hero, Position, Velocity};
use crate::geom::Vec2;
use crate::resources::PressedKeys;
use crate::world::{Slot, World};
use vstd::prelude::*;

verus! {

/// Hero y at or past this (milli-units, y grows downward) counts as grounded.
pub const GROUND_LEVEL: i64 = 425_000;

/// Hero y at or above this counts as touching the ceiling.
pub const CEILING_LEVEL: i64 = 300_000;

/// Upward velocity of a jump, in units per second.
pub const JUMP_VELOCITY: i64 = -400;

/// Downward velocity while past the ceiling, in units per second.
pub const DESCENT_VELOCITY: i64 = 200;

/// Horizontal run speed, in units per second.
pub const RUN_VELOCITY: i64 = 250;

/// The spawn point a position reset snaps the hero to.
pub const RESET_X: i64 = 15_000;

/// See [`RESET_X`].
pub const RESET_Y: i64 = 300_000;

/// The input-to-velocity pass.
pub struct HeroControlSystem;

/// The vertical velocity the control rule assigns.
pub open spec fn controlled_vy(y: i64, vy: i64, keys: PressedKeys) -> i64 {
    if y >= GROUND_LEVEL {
        if keys.up {
            JUMP_VELOCITY
        } else {
            0
        }
    } else if y <= CEILING_LEVEL {
        DESCENT_VELOCITY
    } else {
        vy
    }
}

/// The horizontal velocity the control rule assigns.
pub open spec fn controlled_vx(keys: PressedKeys) -> i64 {
    if keys.right && !keys.left {
        RUN_VELOCITY
    } else if !keys.right && keys.left {
        (-RUN_VELOCITY) as i64
    } else {
        0
    }
}

/// One row after the control pass: changed only when it is a live hero with
/// position and velocity.
pub open spec fn control_slot(s: Slot, keys: PressedKeys) -> Slot {
    if s.alive && s.hero is Some && s.position is Some && s.velocity is Some {
        let h = s.hero->Some_0;
        let p = s.position->Some_0.position;
        let v = s.velocity->Some_0.velocity;
        Slot {
            hero: Some(Hero { reset_position: false, ..h }),
            position: Some(
                Position {
                    position: if h.reset_position {
                        Vec2 { x: RESET_X, y: RESET_Y }
                    } else {
                        p
                    },
                },
            ),
            velocity: Some(
                Velocity {
                    velocity: Vec2 { x: controlled_vx(keys), y: controlled_vy(p.y, v.y, keys) },
                },
            ),
            ..s
        }
    } else {
        s
    }
}

impl HeroControlSystem {
    /// One control pass over the whole table; only hero rows change, and of
    /// those only the velocity, the reset flag and (on reset) the position.
    pub fn run(world: &mut World, keys: &PressedKeys)
        ensures
            final(world).slots@.len() == old(world).slots@.len(),
            forall|i: int|
                0 <= i < old(world).slots@.len() ==> final(world).slots@[i] == control_slot(
                    old(world).slots@[i],
                    *keys,
                ),
            final(world).next_generation == old(world).next_generation,
            final(world).pending_spawns@ == old(world).pending_spawns@,
            final(world).pending_deletes@ == old(world).pending_deletes@,
    {
        let n = world.slots.len();
        let mut i: usize = 0;
        while i < n
            invariant
                i <= n,
                n == world.slots@.len(),
                forall|j: int|
                    0 <= j < i ==> world.slots@[j] == control_slot(old(world).slots@[j], *keys),
                forall|j: int| i <= j < n ==> world.slots@[j] == old(world).slots@[j],
                world.next_generation == old(world).next_generation,
                world.pending_spawns@ == old(world).pending_spawns@,
                world.pending_deletes@ == old(world).pending_deletes@,
            decreases n - i,
        {
            let row_alive: bool;
            let row_hero: Option<Hero>;
            let row_pos: Option<Position>;
            let row_vel: Option<Velocity>;
            {
                let row = &world.slots[i];
                row_alive = row.alive;
                row_hero = row.hero;
                row_pos = row.position;
                row_vel = row.velocity;
            }
            if row_alive && row_hero.is_some() && row_pos.is_some() && row_vel.is_some() {
                let h = row_hero.unwrap();
                let p = row_pos.unwrap().position;
                let v = row_vel.unwrap().velocity;
                let vy: i64 = if p.y >= GROUND_LEVEL {
                    if keys.up {
                        JUMP_VELOCITY
                    } else {
                        0
                    }
                } else if p.y <= CEILING_LEVEL {
                    DESCENT_VELOCITY
                } else {
                    v.y
                };
                let vx: i64 = if keys.right && !keys.left {
                    RUN_VELOCITY
                } else if !keys.right && keys.left {
                    -RUN_VELOCITY
                } else {
                    0
                };
                let new_pos: Vec2 = if h.reset_position {
                    Vec2 { x: RESET_X, y: RESET_Y }
                } else {
                    p
                };
                let row = &mut world.slots[i];
                row.hero = Some(Hero { reset_position: false, ..h });
                row.position = Some(Position { position: new_pos });
                row.velocity = Some(Velocity { velocity: Vec2 { x: vx, y: vy } });
            }
            i = i + 1;
        }
    }
}

} // verus!
