//! Projectile spawning: each tick, every live shooter recounts the live
//! fireballs it owns, then queues deferred creations until that count would
//! reach `maximum_fireballs`.  Shot `k` (counted from 0) aims left with
//! horizontal velocity `-(coefficient_1 * (k + 1) + coefficient_2 + jitter)`
//! units per second, the jitter drawn from `0..84` — a fan of diverging
//! trajectories.  Because every creation is deferred, nothing this pass
//! spawns is visible before the frame's reconciliation.

use crate::component::Shooter;
use crate::enemy::{create_fireball, fireball_bundle, FireballConfig};
use crate::geom::Vec2;
use crate::num::{neg_clip_to_i64, sat64};
use crate::rng::pick_in_range;
use crate::world::{Slot, SpawnBundle, World};
use vstd::prelude::*;

verus! {

/// The projectile-spawning pass.
pub struct FireballSystem;

/// Whether row `s` is a live fireball owned by the shooter in row `owner`.
pub open spec fn owned_fireball(s: Slot, owner: int) -> bool {
    s.alive && s.fireball is Some && s.fireball->Some_0.owner_id == Some(owner as usize)
}

/// Live fireballs owned by row `owner` among the first `n` rows.
pub open spec fn count_owned(slots: Seq<Slot>, owner: int, n: int) -> int
    decreases n,
{
    if n <= 0 {
        0
    } else {
        count_owned(slots, owner, n - 1) + if owned_fireball(slots[n - 1], owner) {
            1int
        } else {
            0int
        }
    }
}

/// Counting ignores everything but liveness and the fireball record, so two
/// tables agreeing there agree on the count.
pub proof fn lemma_count_owned_congruent(a: Seq<Slot>, b: Seq<Slot>, owner: int, n: int)
    requires
        forall|r: int|
            0 <= r < n ==> (owned_fireball(a[r], owner) <==> owned_fireball(b[r], owner)),
    ensures
        count_owned(a, owner, n) == count_owned(b, owner, n),
    decreases n,
{
    if n > 0 {
        lemma_count_owned_congruent(a, b, owner, n - 1);
    }
}

/// Whether the pass processes row `s` as a shooter.
pub open spec fn shooter_row(s: Slot) -> bool {
    s.alive && s.position is Some && s.shooter is Some
}

/// The live owned count a shooter starts its pass with.
pub open spec fn row_have(slots: Seq<Slot>, i: int) -> int {
    count_owned(slots, i, slots.len() as int)
}

/// How many spawns shooter row `i` queues: the shortfall to its maximum.
pub open spec fn row_need(slots: Seq<Slot>, i: int) -> int {
    if shooter_row(slots[i]) {
        let sh = slots[i].shooter->Some_0;
        if row_have(slots, i) < sh.maximum_fireballs {
            sh.maximum_fireballs - row_have(slots, i)
        } else {
            0
        }
    } else {
        0
    }
}

/// Spawns queued while scanning the first `n` rows.
pub open spec fn total_need(slots: Seq<Slot>, n: int) -> int
    decreases n,
{
    if n <= 0 {
        0
    } else {
        total_need(slots, n - 1) + row_need(slots, n - 1)
    }
}

/// No row queues a negative number of spawns.
pub proof fn lemma_total_need_nonneg(slots: Seq<Slot>, n: int)
    ensures
        0 <= total_need(slots, n),
    decreases n,
{
    if n > 0 {
        lemma_total_need_nonneg(slots, n - 1);
    }
}

/// Scanning more rows never queues fewer spawns.
pub proof fn lemma_total_need_mono(slots: Seq<Slot>, a: int, b: int)
    requires
        a <= b,
    ensures
        total_need(slots, a) <= total_need(slots, b),
    decreases b - a,
{
    if a < b {
        lemma_total_need_mono(slots, a, b - 1);
    }
}

/// Position of shooter row `i`'s shot `j` within this pass's queue suffix.
pub open spec fn spawn_index(slots: Seq<Slot>, i: int, j: int) -> int {
    total_need(slots, i) + j
}

/// The horizontal aim velocity of shot `k` under jitter `jitter`.
pub open spec fn aim_vx(c1: i64, c2: i64, k: u64, jitter: i64) -> i64 {
    sat64(-(c1 * (k + 1) + c2 + jitter)) as i64
}

/// The shooter row after its pass: only the live-count bookkeeping changes,
/// topped up to the maximum (or left at the count when already above it).
pub open spec fn topped_slot(slots: Seq<Slot>, i: int) -> Slot {
    let s = slots[i];
    if shooter_row(s) {
        let sh = s.shooter->Some_0;
        let have = row_have(slots, i);
        Slot {
            shooter: Some(
                Shooter {
                    fireball_amount: (if have >= sh.maximum_fireballs {
                        have
                    } else {
                        sh.maximum_fireballs as int
                    }) as u64,
                    ..sh
                },
            ),
            ..s
        }
    } else {
        s
    }
}

/// One queued spawn is a well-aimed fireball of shooter row `i`, shot `k`.
pub open spec fn spawned_ok(b: SpawnBundle, slots: Seq<Slot>, i: int, k: int) -> bool {
    exists|c: FireballConfig|
        {
            let sh = slots[i].shooter->Some_0;
            &&& c.sprite@ == sh.projectile_sprite@
            &&& c.position == slots[i].position->Some_0.position
            &&& c.velocity.y == 0
            &&& (exists|jitter: i64|
                0 <= jitter < 84 && c.velocity.x == #[trigger] aim_vx(
                    sh.coefficient_1,
                    sh.coefficient_2,
                    k as u64,
                    jitter,
                ))
            &&& b == #[trigger] fireball_bundle(Some(i as usize), c)
        }
}

/// Law: the spawning pass changes no row's collidability and no live
/// fireball — a projectile it queues is deferred, so the same tick's
/// collision pass, which reads only the table, cannot see it.
pub proof fn lemma_spawns_invisible_this_tick(slots: Seq<Slot>, i: int)
    requires
        0 <= i < slots.len(),
    ensures
        topped_slot(slots, i).alive == slots[i].alive,
        topped_slot(slots, i).position == slots[i].position,
        topped_slot(slots, i).render == slots[i].render,
        topped_slot(slots, i).fireball == slots[i].fireball,
        topped_slot(slots, i).hero == slots[i].hero,
        crate::system::collision::collidable(topped_slot(slots, i))
            == crate::system::collision::collidable(slots[i]),
{
}

/// Law: a queued projectile becomes a live row when the frame reconciles —
/// visible to the next tick's collision pass.
pub proof fn lemma_spawn_visible_next_tick(b: SpawnBundle, generation: u64)
    ensures
        Slot::from_bundle(b, generation).alive,
        Slot::from_bundle(b, generation).fireball == b.fireball,
        Slot::from_bundle(b, generation).position == b.position,
        Slot::from_bundle(b, generation).render == b.render,
{
}

/// Law: the pass never pushes a shooter past its ceiling.  The live owned
/// count is untouched by the pass itself, the bookkeeping lands exactly on
/// the maximum, and live count plus queued shortfall equals the maximum
/// whenever the live count was within it.
pub proof fn lemma_fireball_cap(slots: Seq<Slot>, post: Seq<Slot>, i: int)
    requires
        0 <= i < slots.len(),
        post.len() == slots.len(),
        forall|r: int| 0 <= r < slots.len() ==> post[r] == topped_slot(slots, r),
        shooter_row(slots[i]),
        row_have(slots, i) <= slots[i].shooter->Some_0.maximum_fireballs,
    ensures
        count_owned(post, i, post.len() as int) == row_have(slots, i),
        count_owned(post, i, post.len() as int) + row_need(slots, i)
            == slots[i].shooter->Some_0.maximum_fireballs,
        post[i].shooter->Some_0.fireball_amount == slots[i].shooter->Some_0.maximum_fireballs,
{
    assert forall|r: int|
        0 <= r < slots.len() implies (owned_fireball(post[r], i) <==> owned_fireball(
        slots[r],
        i,
    )) by {
        assert(post[r] == topped_slot(slots, r));
    }
    lemma_count_owned_congruent(post, slots, i, slots.len() as int);
}

impl FireballSystem {
    /// One spawning pass over the whole table: every live shooter's count is
    /// recomputed from the live fireballs it owns, and exactly the shortfall
    /// to its maximum is queued as deferred creations, in row order.
    pub fn run(world: &mut World)
        ensures
            final(world).slots@.len() == old(world).slots@.len(),
            forall|i: int|
                0 <= i < old(world).slots@.len() ==> final(world).slots@[i] == topped_slot(
                    old(world).slots@,
                    i,
                ),
            final(world).pending_spawns@.len() == old(world).pending_spawns@.len() + total_need(
                old(world).slots@,
                old(world).slots@.len() as int,
            ),
            forall|q: int|
                0 <= q < old(world).pending_spawns@.len() ==> final(world).pending_spawns@[q]
                    == old(world).pending_spawns@[q],
            forall|q: int|
                old(world).pending_spawns@.len() <= q < final(world).pending_spawns@.len() ==> (
                #[trigger] final(world).pending_spawns@[q]).hero is None,
            forall|i: int, j: int|
                0 <= i < old(world).slots@.len() && 0 <= j < row_need(old(world).slots@, i)
                    ==> spawned_ok(
                    final(world).pending_spawns@[old(world).pending_spawns@.len() + #[trigger] spawn_index(
                        old(world).slots@,
                        i,
                        j,
                    )],
                    old(world).slots@,
                    i,
                    row_have(old(world).slots@, i) + j,
                ),
            final(world).next_generation == old(world).next_generation,
            final(world).pending_deletes@ == old(world).pending_deletes@,
    {
        let ghost slots0 = world.slots@;
        let ghost p0 = world.pending_spawns@;
        let n = world.slots.len();
        let mut i: usize = 0;
        while i < n
            invariant
                i <= n,
                n == slots0.len(),
                slots0 == old(world).slots@,
                p0 == old(world).pending_spawns@,
                world.slots@.len() == n,
                forall|r: int| 0 <= r < i ==> world.slots@[r] == topped_slot(slots0, r),
                forall|r: int| i <= r < n ==> world.slots@[r] == slots0[r],
                world.pending_spawns@.len() == p0.len() + total_need(slots0, i as int),
                forall|q: int| 0 <= q < p0.len() ==> world.pending_spawns@[q] == p0[q],
                forall|q: int|
                    p0.len() <= q < world.pending_spawns@.len() ==> (
                    #[trigger] world.pending_spawns@[q]).hero is None,
                forall|r: int, j: int|
                    0 <= r < i && 0 <= j < row_need(slots0, r) ==> spawned_ok(
                        world.pending_spawns@[p0.len() + #[trigger] spawn_index(slots0, r, j)],
                        slots0,
                        r,
                        row_have(slots0, r) + j,
                    ),
                world.next_generation == old(world).next_generation,
                world.pending_deletes@ == old(world).pending_deletes@,
            decreases n - i,
        {
            let is_shooter: bool;
            let sh_max: u64;
            let sh_c1: i64;
            let sh_c2: i64;
            let mut sh_sprite: String = String::new();
            let row_pos: Vec2;
            {
                let row = &world.slots[i];
                is_shooter = row.alive && row.position.is_some() && row.shooter.is_some();
                match (&row.shooter, &row.position) {
                    (Some(sh), Some(p)) => {
                        sh_max = sh.maximum_fireballs;
                        sh_c1 = sh.coefficient_1;
                        sh_c2 = sh.coefficient_2;
                        sh_sprite = sh.projectile_sprite.clone();
                        row_pos = p.position;
                    },
                    _ => {
                        sh_max = 0;
                        sh_c1 = 0;
                        sh_c2 = 0;
                        row_pos = Vec2 { x: 0, y: 0 };
                    },
                }
            }
            if is_shooter {
                let ghost w1 = world.slots@;
                let ghost q1 = world.pending_spawns@;

                // Recount the live owned fireballs over the whole table.
                let mut have: u64 = 0;
                let mut r: usize = 0;
                while r < n
                    invariant
                        r <= n,
                        n == world.slots@.len(),
                        world.slots@ == w1,
                        world.pending_spawns@ == q1,
                        world.next_generation == old(world).next_generation,
                        world.pending_deletes@ == old(world).pending_deletes@,
                        i < n,
                        have as int == count_owned(w1, i as int, r as int),
                        have as int <= r as int,
                    decreases n - r,
                {
                    let owned: bool;
                    {
                        let row = &world.slots[r];
                        owned = row.alive && match &row.fireball {
                            Some(f) => match f.owner_id {
                                Some(o) => o == i,
                                None => false,
                            },
                            None => false,
                        };
                    }
                    if owned {
                        have = have + 1;
                    }
                    r = r + 1;
                }
                proof {
                    assert forall|t: int| 0 <= t < n implies (owned_fireball(w1[t], i as int)
                        <==> owned_fireball(slots0[t], i as int)) by {
                        if t < i {
                            assert(w1[t] == topped_slot(slots0, t));
                        }
                    }
                    lemma_count_owned_congruent(w1, slots0, i as int, n as int);
                    assert(have as int == row_have(slots0, i as int));
                }

                // Queue the shortfall as deferred creations.
                let ghost base = world.pending_spawns@.len() as int;
                proof {
                    lemma_total_need_nonneg(slots0, i as int);
                }
                let mut k: u64 = have;
                while k < sh_max
                    invariant
                        have <= k,
                        k <= sh_max || k == have,
                        i < n,
                        n == world.slots@.len(),
                        world.slots@ == w1,
                        slots0 == old(world).slots@,
                        forall|t: int| i as int <= t < n ==> w1[t] == slots0[t],
                        shooter_row(slots0[i as int]),
                        sh_max == slots0[i as int].shooter->Some_0.maximum_fireballs,
                        sh_c1 == slots0[i as int].shooter->Some_0.coefficient_1,
                        sh_c2 == slots0[i as int].shooter->Some_0.coefficient_2,
                        sh_sprite@ == slots0[i as int].shooter->Some_0.projectile_sprite@,
                        row_pos == slots0[i as int].position->Some_0.position,
                        have as int == row_have(slots0, i as int),
                        0 <= base,
                        world.pending_spawns@.len() == base + (k - have),
                        forall|q: int| 0 <= q < base ==> world.pending_spawns@[q] == q1[q],
                        forall|q: int|
                            p0.len() <= q < world.pending_spawns@.len() ==> (
                            #[trigger] world.pending_spawns@[q]).hero is None,
                        p0.len() <= base,
                        q1.len() == base,
                        forall|j: int|
                            0 <= j < k - have ==> spawned_ok(
                                #[trigger] world.pending_spawns@[base + j],
                                slots0,
                                i as int,
                                have + j,
                            ),
                        world.next_generation == old(world).next_generation,
                        world.pending_deletes@ == old(world).pending_deletes@,
                    decreases sh_max as int - k as int,
                {
                    let jitter = pick_in_range(0, 84);
                    proof {
                        assert((i64::MIN as int) * (u64::MAX as int) <= (sh_c1 as int) * ((k
                            + 1) as int) <= (i64::MAX as int) * (u64::MAX as int))
                            by (nonlinear_arith)
                            requires
                                i64::MIN as int <= sh_c1 as int <= i64::MAX as int,
                                0 <= (k + 1) as int <= u64::MAX as int,
                        ;
                    }
                    let prod: i128 = (sh_c1 as i128) * ((k + 1) as i128);
                    let sum: i128 = prod + (sh_c2 as i128) + (jitter as i128);
                    let vx = neg_clip_to_i64(sum);
                    let fireball_config = FireballConfig {
                        sprite: sh_sprite.clone(),
                        position: row_pos,
                        velocity: Vec2 { x: vx, y: 0 },
                    };
                    let ghost c = fireball_config;
                    let ghost qbefore = world.pending_spawns@;
                    let bundle = create_fireball(Some(i), fireball_config);
                    world.create_deferred(bundle);
                    proof {
                        let ghost ii = i as int;
                        assert(vx == aim_vx(sh_c1, sh_c2, k, jitter));
                        assert((have + (k - have)) as u64 == k);
                        assert(c.velocity.x == aim_vx(
                            slots0[ii].shooter->Some_0.coefficient_1,
                            slots0[ii].shooter->Some_0.coefficient_2,
                            (row_have(slots0, ii) + (k - have)) as u64,
                            jitter,
                        ));
                        assert(ii as usize == i);
                        assert(world.pending_spawns@[base + (k - have)] == fireball_bundle(
                            Some(ii as usize),
                            c,
                        ));
                        assert(spawned_ok(
                            world.pending_spawns@[base + (k - have)],
                            slots0,
                            ii,
                            row_have(slots0, ii) + (k - have),
                        ));
                        assert forall|j: int| 0 <= j < k + 1 - have implies spawned_ok(
                            #[trigger] world.pending_spawns@[base + j],
                            slots0,
                            i as int,
                            have + j,
                        ) by {
                            if j < k - have {
                                assert(world.pending_spawns@[base + j] == qbefore[base + j]);
                            }
                        }
                    }
                    k = k + 1;
                }

                // Record the topped-up count on the shooter.
                let row = &mut world.slots[i];
                row.shooter = Some(
                    Shooter {
                        projectile_sprite: sh_sprite,
                        maximum_fireballs: sh_max,
                        fireball_amount: k,
                        coefficient_1: sh_c1,
                        coefficient_2: sh_c2,
                    },
                );
                proof {
                    assert(world.slots@[i as int] == topped_slot(slots0, i as int));
                    assert(row_need(slots0, i as int) == k - have);
                    lemma_total_need_nonneg(slots0, i as int);
                    assert forall|q: int| 0 <= q < p0.len() implies world.pending_spawns@[q]
                        == p0[q] by {
                        assert(world.pending_spawns@[q] == q1[q]);
                    }
                    assert forall|r: int, j: int|
                        0 <= r < i as int + 1 && 0 <= j < row_need(slots0, r) implies spawned_ok(
                        world.pending_spawns@[p0.len() + #[trigger] spawn_index(slots0, r, j)],
                        slots0,
                        r,
                        row_have(slots0, r) + j,
                    ) by {
                        if r < i as int {
                            lemma_total_need_nonneg(slots0, r);
                            lemma_total_need_mono(slots0, r + 1, i as int);
                            assert(total_need(slots0, r + 1) == total_need(slots0, r) + row_need(
                                slots0,
                                r,
                            ));
                            assert(0 <= p0.len() + spawn_index(slots0, r, j) < base);
                            assert(world.pending_spawns@[p0.len() + spawn_index(slots0, r, j)]
                                == q1[p0.len() + spawn_index(slots0, r, j)]);
                        } else {
                            assert(world.pending_spawns@[base + j] == world.pending_spawns@[p0.len()
                                + spawn_index(slots0, r, j)]);
                        }
                    }
                }
            } else {
                proof {
                    assert(!shooter_row(slots0[i as int]));
                    assert(topped_slot(slots0, i as int) == slots0[i as int]);
                    assert(row_need(slots0, i as int) == 0);
                }
            }
            proof {
                assert(total_need(slots0, i as int + 1) == total_need(slots0, i as int) + row_need(
                    slots0,
                    i as int,
                ));
            }
            i = i + 1;
        }
    }
}

} // verus!
