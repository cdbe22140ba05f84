//! Integration: every entity with a position and a velocity moves by
//! `velocity * elapsed` in one unclamped step.

use crate::component::{Position, Velocity};
use crate::geom::Vec2;
use crate::num::{integrate64, sat64};
use crate::resources::DeltaTime;
use crate::world::{Slot, World};
use vstd::prelude::*;

verus! {

/// The integration pass.
pub struct WalkSystem;

/// Where a point sits after moving at `v` for `t` milliseconds: exactly
/// `p + v * t` on each axis (milli-units), saturated only at the ends of the
/// coordinate range.
pub open spec fn walked_position(p: Position, v: Velocity, t: u64) -> Position {
    Position {
        position: Vec2 {
            x: sat64(p.position.x + v.velocity.x * t) as i64,
            y: sat64(p.position.y + v.velocity.y * t) as i64,
        },
    }
}

/// One row after the Walk pass: moved when it is live and carries both a
/// position and a velocity, untouched otherwise.
pub open spec fn walk_slot(s: Slot, t: u64) -> Slot {
    if s.alive && s.position is Some && s.velocity is Some {
        Slot { position: Some(walked_position(s.position->Some_0, s.velocity->Some_0, t)), ..s }
    } else {
        s
    }
}

impl WalkSystem {
    /// One Walk pass over the whole table.  Only positions change; the
    /// queues, the stamps and every other component stay as they were.
    pub fn run(world: &mut World, delta: &DeltaTime)
        ensures
            final(world).slots@.len() == old(world).slots@.len(),
            forall|i: int|
                0 <= i < old(world).slots@.len() ==> final(world).slots@[i] == walk_slot(
                    old(world).slots@[i],
                    delta.milliseconds,
                ),
            final(world).next_generation == old(world).next_generation,
            final(world).pending_spawns@ == old(world).pending_spawns@,
            final(world).pending_deletes@ == old(world).pending_deletes@,
    {
        let n = world.slots.len();
        let mut i: usize = 0;
        while i < n
            invariant
                i <= n,
                n == world.slots@.len(),
                forall|j: int|
                    0 <= j < i ==> world.slots@[j] == walk_slot(
                        old(world).slots@[j],
                        delta.milliseconds,
                    ),
                forall|j: int| i <= j < n ==> world.slots@[j] == old(world).slots@[j],
                world.next_generation == old(world).next_generation,
                world.pending_spawns@ == old(world).pending_spawns@,
                world.pending_deletes@ == old(world).pending_deletes@,
            decreases n - i,
        {
            let row_alive: bool;
            let row_pos: Option<Position>;
            let row_vel: Option<Velocity>;
            {
                let row = &world.slots[i];
                row_alive = row.alive;
                row_pos = row.position;
                row_vel = row.velocity;
            }
            if row_alive && row_pos.is_some() && row_vel.is_some() {
                let p = row_pos.unwrap();
                let v = row_vel.unwrap();
                let x = integrate64(p.position.x, v.velocity.x, delta.milliseconds);
                let y = integrate64(p.position.y, v.velocity.y, delta.milliseconds);
                let row = &mut world.slots[i];
                row.position = Some(Position { position: Vec2 { x, y } });
            }
            i = i + 1;
        }
    }
}

/// Law: one Walk step is the exact, unrounded translation `p + v * t` for
/// every live entity carrying a position and a velocity, whenever that exact
/// point fits the coordinate range; nothing else about the row changes.
pub proof fn lemma_walk_exact(s: Slot, t: u64)
    requires
        s.alive,
        s.position is Some,
        s.velocity is Some,
        i64::MIN <= s.position->Some_0.position.x + s.velocity->Some_0.velocity.x * t <= i64::MAX,
        i64::MIN <= s.position->Some_0.position.y + s.velocity->Some_0.velocity.y * t <= i64::MAX,
    ensures
        walk_slot(s, t).position->Some_0.position.x == s.position->Some_0.position.x
            + s.velocity->Some_0.velocity.x * t,
        walk_slot(s, t).position->Some_0.position.y == s.position->Some_0.position.y
            + s.velocity->Some_0.velocity.y * t,
        walk_slot(s, t) == (Slot { position: walk_slot(s, t).position, ..s }),
{
}

} // verus!
