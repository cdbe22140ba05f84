//! The hero's invulnerability flicker: while `blinking` is set the blink
//! timer accumulates elapsed time; past 1.25 s the state clears and the hero
//! is forced visible, before that visibility toggles every 0.15 s window.
//! While not blinking the timer stays reset and the hero stays visible.

use crate::component::Hero;
use crate::resources::DeltaTime;
use crate::world::{Slot, World};
use vstd::prelude::*;

verus! {

/// How long the blinking state lasts, in milliseconds.
pub const BLINK_DURATION: u64 = 1250;

/// Width of one visibility window while blinking, in milliseconds.
pub const FLICKER_PERIOD: u64 = 150;

/// The blink-timer pass.
pub struct HeroBlinkingSystem;

/// A hero record after one blink step of `t` milliseconds.
pub open spec fn blinked_hero(h: Hero, t: u64) -> Hero {
    if h.blinking {
        let timer: u64 = if h.blink_timer + t <= u64::MAX {
            (h.blink_timer + t) as u64
        } else {
            u64::MAX
        };
        if timer > BLINK_DURATION {
            Hero { blink_timer: 0, blinking: false, render: true, ..h }
        } else {
            Hero { blink_timer: timer, render: (timer / FLICKER_PERIOD) % 2 == 0, ..h }
        }
    } else {
        Hero { blink_timer: 0, render: true, ..h }
    }
}

/// One row after the blink pass: only live hero rows change.
pub open spec fn blink_slot(s: Slot, t: u64) -> Slot {
    if s.alive && s.hero is Some {
        Slot { hero: Some(blinked_hero(s.hero->Some_0, t)), ..s }
    } else {
        s
    }
}

impl HeroBlinkingSystem {
    /// One blink pass over the whole table.
    pub fn run(world: &mut World, delta: &DeltaTime)
        ensures
            final(world).slots@.len() == old(world).slots@.len(),
            forall|i: int|
                0 <= i < old(world).slots@.len() ==> final(world).slots@[i] == blink_slot(
                    old(world).slots@[i],
                    delta.milliseconds,
                ),
            final(world).next_generation == old(world).next_generation,
            final(world).pending_spawns@ == old(world).pending_spawns@,
            final(world).pending_deletes@ == old(world).pending_deletes@,
    {
        let n = world.slots.len();
        let mut i: usize = 0;
        while i < n
            invariant
                i <= n,
                n == world.slots@.len(),
                forall|j: int|
                    0 <= j < i ==> world.slots@[j] == blink_slot(
                        old(world).slots@[j],
                        delta.milliseconds,
                    ),
                forall|j: int| i <= j < n ==> world.slots@[j] == old(world).slots@[j],
                world.next_generation == old(world).next_generation,
                world.pending_spawns@ == old(world).pending_spawns@,
                world.pending_deletes@ == old(world).pending_deletes@,
            decreases n - i,
        {
            let row_alive: bool;
            let row_hero: Option<Hero>;
            {
                let row = &world.slots[i];
                row_alive = row.alive;
                row_hero = row.hero;
            }
            if row_alive && row_hero.is_some() {
                let h = row_hero.unwrap();
                let new_hero: Hero = if h.blinking {
                    let timer: u64 = if h.blink_timer <= u64::MAX - delta.milliseconds {
                        h.blink_timer + delta.milliseconds
                    } else {
                        u64::MAX
                    };
                    if timer > BLINK_DURATION {
                        Hero { blink_timer: 0, blinking: false, render: true, ..h }
                    } else {
                        Hero { blink_timer: timer, render: (timer / FLICKER_PERIOD) % 2 == 0, ..h }
                    }
                } else {
                    Hero { blink_timer: 0, render: true, ..h }
                };
                let row = &mut world.slots[i];
                row.hero = Some(new_hero);
            }
            i = i + 1;
        }
    }
}

} // verus!
