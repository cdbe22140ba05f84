//! Out-of-bounds housekeeping: the hero is clamped back onto the screen
//! horizontally, while any other watched entity that has left the play area
//! is queued for deletion.  The hero is never deleted by this pass.

use crate::component::Position;
use crate::geom::Vec2;
use crate::world::{id_of, EntityId, Slot, World};
use vstd::prelude::*;

verus! {

/// Leftmost hero x, in milli-units.
pub const HERO_MIN_X: i64 = 15_000;

/// Rightmost hero x, in milli-units.
pub const HERO_MAX_X: i64 = 785_000;

/// Below this y a watched non-hero entity is discarded.
pub const DOOM_Y: i64 = 700_000;

/// Left of this x a watched non-hero entity is discarded.
pub const DOOM_MIN_X: i64 = -100_000;

/// Right of this x a watched non-hero entity is discarded.
pub const DOOM_MAX_X: i64 = 900_000;

/// The out-of-bounds pass.
pub struct OutOfBoundsSystem;

/// `x` pinned into the hero's horizontal range.
pub open spec fn clamped_x(x: i64) -> i64 {
    if x < HERO_MIN_X {
        HERO_MIN_X
    } else if x > HERO_MAX_X {
        HERO_MAX_X
    } else {
        x
    }
}

/// One row after the clamping half of the pass: only a live, watched hero
/// with a position is touched.
pub open spec fn clamp_slot(s: Slot) -> Slot {
    if s.alive && s.hero is Some && s.out_of_bounds is Some && s.position is Some {
        let p = s.position->Some_0.position;
        Slot { position: Some(Position { position: Vec2 { x: clamped_x(p.x), y: p.y } }), ..s }
    } else {
        s
    }
}

/// Whether the deletion half of the pass discards this row: live, watched,
/// positioned, not the hero, and outside the play area.
pub open spec fn oob_doomed(s: Slot) -> bool {
    &&& s.alive
    &&& s.hero is None
    &&& s.out_of_bounds is Some
    &&& s.position is Some
    &&& {
        let p = s.position->Some_0.position;
        p.y > DOOM_Y || p.x < DOOM_MIN_X || p.x > DOOM_MAX_X
    }
}

/// The deletions the pass queues while scanning the first `n` rows, in row
/// order.
pub open spec fn oob_deletes(slots: Seq<Slot>, n: int) -> Seq<EntityId>
    decreases n,
{
    if n <= 0 {
        Seq::empty()
    } else {
        let rest = oob_deletes(slots, n - 1);
        if oob_doomed(slots[n - 1]) {
            rest.push(id_of(slots, n - 1))
        } else {
            rest
        }
    }
}

/// Every identifier the pass queues names a doomed row — in particular,
/// never a hero.
pub proof fn lemma_oob_deletes_doomed(slots: Seq<Slot>, n: int)
    requires
        n <= slots.len(),
        n <= usize::MAX,
    ensures
        forall|k: int|
            0 <= k < oob_deletes(slots, n).len() ==> {
                let d = #[trigger] oob_deletes(slots, n)[k];
                &&& 0 <= d.index < n
                &&& d == id_of(slots, d.index as int)
                &&& oob_doomed(slots[d.index as int])
            },
    decreases n,
{
    if n > 0 {
        lemma_oob_deletes_doomed(slots, n - 1);
        let rest = oob_deletes(slots, n - 1);
        let cur = oob_deletes(slots, n);
        assert forall|k: int| 0 <= k < cur.len() implies {
            let d = #[trigger] cur[k];
            &&& 0 <= d.index < n
            &&& d == id_of(slots, d.index as int)
            &&& oob_doomed(slots[d.index as int])
        } by {
            if k < rest.len() {
                assert(cur[k] == rest[k]);
            } else {
                assert(oob_doomed(slots[n - 1]));
                assert(cur[k] == id_of(slots, n - 1));
            }
        }
    }
}

/// Law: the out-of-bounds pass never queues the hero for deletion; a row
/// carrying a hero is clamped instead.
pub proof fn lemma_oob_spares_hero(slots: Seq<Slot>, n: int, h: int)
    requires
        0 <= h < n <= slots.len(),
        n <= usize::MAX,
        slots[h].hero is Some,
    ensures
        forall|k: int|
            0 <= k < oob_deletes(slots, n).len() ==> (#[trigger] oob_deletes(slots, n)[k]).index
                != h,
{
    lemma_oob_deletes_doomed(slots, n);
}

impl OutOfBoundsSystem {
    /// One out-of-bounds pass: clamps every watched hero horizontally, then
    /// queues every watched non-hero entity outside the play area for
    /// deletion.  Nothing is deleted immediately.
    pub fn run(world: &mut World)
        ensures
            final(world).slots@.len() == old(world).slots@.len(),
            forall|i: int|
                0 <= i < old(world).slots@.len() ==> final(world).slots@[i] == clamp_slot(
                    old(world).slots@[i],
                ),
            final(world).pending_deletes@ == old(world).pending_deletes@ + oob_deletes(
                final(world).slots@,
                old(world).slots@.len() as int,
            ),
            final(world).next_generation == old(world).next_generation,
            final(world).pending_spawns@ == old(world).pending_spawns@,
    {
        let n = world.slots.len();
        let mut i: usize = 0;
        while i < n
            invariant
                i <= n,
                n == world.slots@.len(),
                forall|j: int| 0 <= j < i ==> world.slots@[j] == clamp_slot(old(world).slots@[j]),
                forall|j: int| i <= j < n ==> world.slots@[j] == old(world).slots@[j],
                world.next_generation == old(world).next_generation,
                world.pending_spawns@ == old(world).pending_spawns@,
                world.pending_deletes@ == old(world).pending_deletes@,
            decreases n - i,
        {
            let row_clamp: bool;
            let row_x: i64;
            {
                let row = &world.slots[i];
                row_clamp = row.alive && row.hero.is_some() && row.out_of_bounds.is_some()
                    && row.position.is_some();
                row_x = match &row.position {
                    Some(p) => p.position.x,
                    None => 0,
                };
            }
            if row_clamp {
                let new_x: i64 = if row_x < HERO_MIN_X {
                    HERO_MIN_X
                } else if row_x > HERO_MAX_X {
                    HERO_MAX_X
                } else {
                    row_x
                };
                let row = &mut world.slots[i];
                let y = match &row.position {
                    Some(p) => p.position.y,
                    None => 0,
                };
                row.position = Some(Position { position: Vec2 { x: new_x, y } });
            }
            i = i + 1;
        }

        let ghost clamped = world.slots@;
        let mut i: usize = 0;
        while i < n
            invariant
                i <= n,
                n == clamped.len(),
                world.slots@ == clamped,
                world.pending_deletes@ == old(world).pending_deletes@ + oob_deletes(
                    clamped,
                    i as int,
                ),
                world.next_generation == old(world).next_generation,
                world.pending_spawns@ == old(world).pending_spawns@,
            decreases n - i,
        {
            let doomed: bool;
            let generation: u64;
            {
                let row = &world.slots[i];
                generation = row.generation;
                doomed = row.alive && row.hero.is_none() && row.out_of_bounds.is_some() && match &row.position {
                    Some(p) => p.position.y > DOOM_Y || p.position.x < DOOM_MIN_X || p.position.x
                        > DOOM_MAX_X,
                    None => false,
                };
            }
            if doomed {
                world.delete_deferred(EntityId { index: i, generation });
            }
            i = i + 1;
        }
    }
}

} // verus!
