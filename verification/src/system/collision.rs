//! Collision detection and resolution.
//!
//! For every live hero the pass walks the table three times — foes (boss or
//! regular), then healing pickups, then fireballs — resolving each pair
//! against the hero's running state, and finally raises the defeat flag and
//! queues the hero's deletion once its lives are gone.  Pair order matters:
//! a stomp is tested before body contact and short-circuits it, and damage
//! taken earlier in the pass sets `blinking`, which shields the hero for the
//! rest of the pass.  Entities whose bounding box has never been drawn
//! cannot collide, and every deletion is deferred, so the set of collidable
//! entities is fixed for the whole pass.
//!
//! Geometry: boxes are re-centred at the entity's current position; the
//! hero's bottom 10 units are its feet, a foe's top 10 units its head.  All
//! tests are exact, carried out in doubled milli-unit coordinates.

use crate::component::{Boss, ChangeSprite, Enemy, Hero, Shooter};
use crate::enemy::ENEMY_HEAD_HEIGHT;
use crate::geom::{
    boxes_overlap, bottom2, check_boxes_overlap, left2, right2, spans_overlap, top2, Extent, Vec2,
};
use crate::hero::HERO_FEET_HEIGHT;
use crate::num::{sat64, sat_add64};
use crate::resources::{GameStateFlag, GameStateFlagRes};
use crate::world::{id_of, EntityId, Slot, World};
use vstd::prelude::*;

verus! {

/// The collision-resolution pass.
pub struct CollisionSystem;

/// A foe's projectile ceiling after its angry phase transition.
pub const ANGRY_MAXIMUM_FIREBALLS: u64 = 4;

/// Whether a row can take part in collision at all: live, positioned, and
/// drawn at least once (so a bounding box is cached).
pub open spec fn collidable(s: Slot) -> bool {
    s.alive && s.position is Some && s.render is Some && s.render->Some_0.bounding_box is Some
}

/// A collidable row's centre.
pub open spec fn centre(s: Slot) -> Vec2 {
    s.position->Some_0.position
}

/// A collidable row's box size.
pub open spec fn extent(s: Slot) -> Extent {
    s.render->Some_0.bounding_box->Some_0
}

/// The hero's feet band overlaps the foe's head band.
pub open spec fn stomp_overlap(hc: Vec2, he: Extent, ec: Vec2, ee: Extent) -> bool {
    &&& spans_overlap(left2(hc, he), right2(hc, he), left2(ec, ee), right2(ec, ee))
    &&& spans_overlap(
        bottom2(hc, he) - 2 * HERO_FEET_HEIGHT,
        bottom2(hc, he),
        top2(ec, ee),
        top2(ec, ee) + 2 * ENEMY_HEAD_HEIGHT,
    )
}

/// The hero's body (feet excluded) overlaps the foe's body (head excluded).
pub open spec fn body_overlap(hc: Vec2, he: Extent, ec: Vec2, ee: Extent) -> bool {
    &&& spans_overlap(left2(hc, he), right2(hc, he), left2(ec, ee), right2(ec, ee))
    &&& spans_overlap(
        top2(hc, he),
        bottom2(hc, he) - 2 * HERO_FEET_HEIGHT,
        top2(ec, ee) + 2 * ENEMY_HEAD_HEIGHT,
        bottom2(ec, ee),
    )
}

/// Exact feet-against-head test.
fn check_stomp(hc: Vec2, he: Extent, ec: Vec2, ee: Extent) -> (r: bool)
    ensures
        r == stomp_overlap(hc, he, ec, ee),
{
    let hl: i128 = 2 * (hc.x as i128) - (he.width as i128);
    let hr: i128 = 2 * (hc.x as i128) + (he.width as i128);
    let hb: i128 = 2 * (hc.y as i128) + (he.height as i128);
    let el: i128 = 2 * (ec.x as i128) - (ee.width as i128);
    let er: i128 = 2 * (ec.x as i128) + (ee.width as i128);
    let et: i128 = 2 * (ec.y as i128) - (ee.height as i128);
    hl < er && el < hr && hb - 2 * (HERO_FEET_HEIGHT as i128) < et + 2 * (
    ENEMY_HEAD_HEIGHT as i128) && et < hb
}

/// Exact body-against-body test.
fn check_body(hc: Vec2, he: Extent, ec: Vec2, ee: Extent) -> (r: bool)
    ensures
        r == body_overlap(hc, he, ec, ee),
{
    let hl: i128 = 2 * (hc.x as i128) - (he.width as i128);
    let hr: i128 = 2 * (hc.x as i128) + (he.width as i128);
    let ht: i128 = 2 * (hc.y as i128) - (he.height as i128);
    let hb: i128 = 2 * (hc.y as i128) + (he.height as i128);
    let el: i128 = 2 * (ec.x as i128) - (ee.width as i128);
    let er: i128 = 2 * (ec.x as i128) + (ee.width as i128);
    let et: i128 = 2 * (ec.y as i128) - (ee.height as i128);
    let eb: i128 = 2 * (ec.y as i128) + (ee.height as i128);
    hl < er && el < hr && ht < eb && et + 2 * (ENEMY_HEAD_HEIGHT as i128) < hb - 2 * (
    HERO_FEET_HEIGHT as i128)
}

/// The hero after taking one hit: one life gone (never below zero) and
/// blinking.
pub open spec fn damaged(h: Hero) -> Hero {
    Hero {
        lives: if h.lives > 0 {
            (h.lives - 1) as i64
        } else {
            h.lives
        },
        blinking: true,
        ..h
    }
}

/// The running state of one collision pass: the table, the hero being
/// processed, the outcome flag and the deletions queued so far.
pub ghost struct CollisionState {
    pub slots: Seq<Slot>,
    pub hero: Hero,
    pub flag: Option<GameStateFlag>,
    pub kills: Seq<EntityId>,
}

/// Resolving the hero against one regular foe: a stomp kills the foe and
/// scores; otherwise body contact hurts an unshielded hero.
pub open spec fn enemy_step(st: CollisionState, h: int, e: int) -> CollisionState {
    let hs = st.slots[h];
    let es = st.slots[e];
    if collidable(hs) && collidable(es) {
        if stomp_overlap(centre(hs), extent(hs), centre(es), extent(es)) {
            CollisionState {
                hero: Hero {
                    score: sat64(st.hero.score + es.enemy->Some_0.score) as i64,
                    ..st.hero
                },
                kills: st.kills.push(id_of(st.slots, e)),
                ..st
            }
        } else if body_overlap(centre(hs), extent(hs), centre(es), extent(es))
            && !st.hero.blinking {
            CollisionState { hero: damaged(st.hero), ..st }
        } else {
            st
        }
    } else {
        st
    }
}

/// Resolving the hero against the boss: a stomp scores, sends the hero back
/// to its spawn point shielded, and costs the boss one life — at zero lives
/// the round is won and the boss queued for deletion, at zero calm-phase
/// lives the boss turns angry (sprite swap, higher projectile ceiling).
/// Body contact hurts an unshielded hero as usual.
pub open spec fn boss_step(st: CollisionState, h: int, e: int) -> CollisionState {
    let hs = st.slots[h];
    let es = st.slots[e];
    if collidable(hs) && collidable(es) {
        if stomp_overlap(centre(hs), extent(hs), centre(es), extent(es)) {
            let hero2 = Hero {
                score: sat64(st.hero.score + es.enemy->Some_0.score) as i64,
                reset_position: true,
                blinking: true,
                ..st.hero
            };
            let b = es.boss->Some_0;
            let b2 = Boss {
                lives: sat64(b.lives - 1) as i64,
                normal_lives: sat64(b.normal_lives - 1) as i64,
            };
            if b2.lives == 0 {
                CollisionState {
                    slots: st.slots.update(e, Slot { boss: Some(b2), ..es }),
                    hero: hero2,
                    flag: Some(GameStateFlag::Victory),
                    kills: st.kills.push(id_of(st.slots, e)),
                }
            } else if b2.normal_lives == 0 {
                let es2 = Slot {
                    boss: Some(b2),
                    change_sprite: match es.change_sprite {
                        Some(cs) => Some(ChangeSprite { do_change: true, ..cs }),
                        None => None,
                    },
                    shooter: match es.shooter {
                        Some(sh) => Some(
                            Shooter { maximum_fireballs: ANGRY_MAXIMUM_FIREBALLS, ..sh },
                        ),
                        None => None,
                    },
                    ..es
                };
                CollisionState { slots: st.slots.update(e, es2), hero: hero2, ..st }
            } else {
                CollisionState {
                    slots: st.slots.update(e, Slot { boss: Some(b2), ..es }),
                    hero: hero2,
                    ..st
                }
            }
        } else if body_overlap(centre(hs), extent(hs), centre(es), extent(es))
            && !st.hero.blinking {
            CollisionState { hero: damaged(st.hero), ..st }
        } else {
            st
        }
    } else {
        st
    }
}

/// Resolving the hero against one healing pickup: full-body contact grants a
/// life and the pickup's points and consumes it.
pub open spec fn healing_step(st: CollisionState, h: int, e: int) -> CollisionState {
    let hs = st.slots[h];
    let es = st.slots[e];
    if collidable(hs) && collidable(es) {
        if boxes_overlap(centre(hs), extent(hs), centre(es), extent(es)) {
            CollisionState {
                hero: Hero {
                    lives: sat64(st.hero.lives + 1) as i64,
                    score: sat64(st.hero.score + es.healing->Some_0.score) as i64,
                    ..st.hero
                },
                kills: st.kills.push(id_of(st.slots, e)),
                ..st
            }
        } else {
            st
        }
    } else {
        st
    }
}

/// Resolving the hero against one fireball: full-body contact hurts an
/// unshielded hero and consumes the fireball.
pub open spec fn fireball_step(st: CollisionState, h: int, e: int) -> CollisionState {
    let hs = st.slots[h];
    let es = st.slots[e];
    if collidable(hs) && collidable(es) {
        if boxes_overlap(centre(hs), extent(hs), centre(es), extent(es)) && !st.hero.blinking {
            CollisionState {
                hero: damaged(st.hero),
                kills: st.kills.push(id_of(st.slots, e)),
                ..st
            }
        } else {
            st
        }
    } else {
        st
    }
}

/// Whether the foe sweep visits row `s`.
pub open spec fn foe_guard(s: Slot) -> bool {
    s.alive && s.position is Some && s.render is Some && s.enemy is Some
}

/// Whether the healing sweep visits row `s`.
pub open spec fn healing_guard(s: Slot) -> bool {
    s.alive && s.position is Some && s.render is Some && s.healing is Some
}

/// Whether the fireball sweep visits row `s`.
pub open spec fn fireball_guard(s: Slot) -> bool {
    s.alive && s.position is Some && s.render is Some && s.fireball is Some
}

/// The foe sweep over the first `n` rows, in row order.
pub open spec fn foe_phase(st: CollisionState, h: int, n: int) -> CollisionState
    decreases n,
{
    if n <= 0 {
        st
    } else {
        let prev = foe_phase(st, h, n - 1);
        if foe_guard(prev.slots[n - 1]) {
            if prev.slots[n - 1].boss is Some {
                boss_step(prev, h, n - 1)
            } else {
                enemy_step(prev, h, n - 1)
            }
        } else {
            prev
        }
    }
}

/// The healing sweep over the first `n` rows.
pub open spec fn healing_phase(st: CollisionState, h: int, n: int) -> CollisionState
    decreases n,
{
    if n <= 0 {
        st
    } else {
        let prev = healing_phase(st, h, n - 1);
        if healing_guard(prev.slots[n - 1]) {
            healing_step(prev, h, n - 1)
        } else {
            prev
        }
    }
}

/// The fireball sweep over the first `n` rows.
pub open spec fn fireball_phase(st: CollisionState, h: int, n: int) -> CollisionState
    decreases n,
{
    if n <= 0 {
        st
    } else {
        let prev = fireball_phase(st, h, n - 1);
        if fireball_guard(prev.slots[n - 1]) {
            fireball_step(prev, h, n - 1)
        } else {
            prev
        }
    }
}

/// What any sweep leaves untouched in a row: everything except the boss
/// bookkeeping fields (boss record, sprite swap, shooter ceiling).
pub open spec fn sweep_frame(a: Slot, b: Slot) -> bool {
    &&& a.generation == b.generation
    &&& a.alive == b.alive
    &&& a.position == b.position
    &&& a.velocity == b.velocity
    &&& a.render == b.render
    &&& a.label == b.label
    &&& a.hero == b.hero
    &&& a.enemy == b.enemy
    &&& a.healing == b.healing
    &&& a.background == b.background
    &&& a.out_of_bounds == b.out_of_bounds
    &&& a.fireball == b.fireball
}

/// The foe sweep rewrites only boss bookkeeping fields of visited rows.
pub proof fn lemma_foe_phase_frame(st: CollisionState, h: int, n: int)
    requires
        n <= st.slots.len(),
    ensures
        foe_phase(st, h, n).slots.len() == st.slots.len(),
        forall|r: int|
            0 <= r < st.slots.len() ==> sweep_frame(
                #[trigger] foe_phase(st, h, n).slots[r],
                st.slots[r],
            ),
    decreases n,
{
    if n > 0 {
        lemma_foe_phase_frame(st, h, n - 1);
        let prev = foe_phase(st, h, n - 1);
        let nxt = foe_phase(st, h, n);
        assert forall|r: int| 0 <= r < st.slots.len() implies sweep_frame(
            nxt.slots[r],
            st.slots[r],
        ) by {
            assert(sweep_frame(prev.slots[r], st.slots[r]));
            if r != n - 1 {
                assert(nxt.slots[r] == prev.slots[r]);
            }
        }
    }
}

/// The healing sweep never touches the table.
pub proof fn lemma_healing_phase_slots(st: CollisionState, h: int, n: int)
    ensures
        healing_phase(st, h, n).slots == st.slots,
    decreases n,
{
    if n > 0 {
        lemma_healing_phase_slots(st, h, n - 1);
    }
}

/// The fireball sweep never touches the table.
pub proof fn lemma_fireball_phase_slots(st: CollisionState, h: int, n: int)
    ensures
        fireball_phase(st, h, n).slots == st.slots,
    decreases n,
{
    if n > 0 {
        lemma_fireball_phase_slots(st, h, n - 1);
    }
}

/// Whether the pass processes row `s` as a hero.
pub open spec fn hero_guard(s: Slot) -> bool {
    s.alive && s.hero is Some && s.position is Some && s.render is Some
}

/// One hero's full pass: the three sweeps against the whole table, then the
/// defeat check (zero lives raise the flag and queue the hero's deletion),
/// then the hero record written back to its row.
pub open spec fn hero_pass(st: CollisionState, h: int) -> CollisionState {
    if hero_guard(st.slots[h]) {
        let n = st.slots.len() as int;
        let st1 = CollisionState { hero: st.slots[h].hero->Some_0, ..st };
        let st2 = foe_phase(st1, h, n);
        let st3 = healing_phase(st2, h, n);
        let st4 = fireball_phase(st3, h, n);
        let st5 = if st4.hero.lives == 0 {
            CollisionState {
                flag: Some(GameStateFlag::Defeat),
                kills: st4.kills.push(id_of(st4.slots, h)),
                ..st4
            }
        } else {
            st4
        };
        CollisionState {
            slots: st5.slots.update(h, Slot { hero: Some(st5.hero), ..st5.slots[h] }),
            ..st5
        }
    } else {
        st
    }
}

/// The whole pass: every row is given its hero pass, in row order (the hero
/// is unique in practice, but the sweep is uniform).
pub open spec fn collision_upto(
    slots: Seq<Slot>,
    flag: Option<GameStateFlag>,
    n: int,
) -> CollisionState
    decreases n,
{
    if n <= 0 {
        CollisionState {
            slots,
            hero: Hero {
                lives: 0,
                score: 0,
                blinking: false,
                render: true,
                reset_position: false,
                blink_timer: 0,
            },
            flag,
            kills: Seq::empty(),
        }
    } else {
        hero_pass(collision_upto(slots, flag, n - 1), n - 1)
    }
}

/// The pass's full outcome on a table.
pub open spec fn collision_spec(slots: Seq<Slot>, flag: Option<GameStateFlag>) -> CollisionState {
    collision_upto(slots, flag, slots.len() as int)
}

/// The state hero `h`'s pass starts from: the pass so far, with the hero
/// record lifted out of its row.
pub open spec fn start_state(
    slots0: Seq<Slot>,
    f0: Option<GameStateFlag>,
    h: int,
) -> CollisionState {
    let st = collision_upto(slots0, f0, h);
    CollisionState { hero: st.slots[h].hero->Some_0, ..st }
}

/// Law: a stomp takes priority over body damage.  When the feet/head
/// rectangles overlap, the foe is killed and scored and the hero's lives
/// and shield are untouched — the body/body test is short-circuited, even
/// if it would also overlap.
pub proof fn lemma_stomp_takes_priority(st: CollisionState, h: int, e: int)
    requires
        collidable(st.slots[h]),
        collidable(st.slots[e]),
        stomp_overlap(
            centre(st.slots[h]),
            extent(st.slots[h]),
            centre(st.slots[e]),
            extent(st.slots[e]),
        ),
    ensures
        enemy_step(st, h, e).hero.lives == st.hero.lives,
        enemy_step(st, h, e).hero.blinking == st.hero.blinking,
        enemy_step(st, h, e).kills == st.kills.push(id_of(st.slots, e)),
        boss_step(st, h, e).hero.lives == st.hero.lives,
{
}

/// Law: a qualifying boss stomp costs the boss exactly one life, and a boss
/// at zero lives raises the victory flag and is queued for deletion in that
/// same step.
pub proof fn lemma_boss_stomp(st: CollisionState, h: int, e: int)
    requires
        0 <= e < st.slots.len(),
        collidable(st.slots[h]),
        collidable(st.slots[e]),
        st.slots[e].boss is Some,
        st.slots[e].boss->Some_0.lives > i64::MIN,
        stomp_overlap(
            centre(st.slots[h]),
            extent(st.slots[h]),
            centre(st.slots[e]),
            extent(st.slots[e]),
        ),
    ensures
        boss_step(st, h, e).slots[e].boss is Some,
        boss_step(st, h, e).slots[e].boss->Some_0.lives == st.slots[e].boss->Some_0.lives - 1,
        boss_step(st, h, e).slots[e].boss->Some_0.lives == 0 ==> boss_step(st, h, e).flag == Some(
            GameStateFlag::Victory,
        ) && boss_step(st, h, e).kills == st.kills.push(id_of(st.slots, e)),
{
}

/// Law: a dead row takes part in nothing — each sweep's guard requires a
/// live row, so an entity deleted at the frame boundary is never processed
/// again.
pub proof fn lemma_dead_row_inert(st: CollisionState, e: int)
    requires
        !st.slots[e].alive,
    ensures
        !foe_guard(st.slots[e]),
        !healing_guard(st.slots[e]),
        !fireball_guard(st.slots[e]),
{
}

/// Whether every hero record in the table has non-negative lives.
pub open spec fn heroes_nonneg(slots: Seq<Slot>) -> bool {
    forall|i: int|
        0 <= i < slots.len() && (#[trigger] slots[i]).hero is Some ==> slots[i].hero->Some_0.lives
            >= 0
}

/// The foe sweep never drives the running hero's lives negative.
pub proof fn lemma_foe_phase_hero_nonneg(st: CollisionState, h: int, n: int)
    requires
        st.hero.lives >= 0,
    ensures
        foe_phase(st, h, n).hero.lives >= 0,
    decreases n,
{
    if n > 0 {
        lemma_foe_phase_hero_nonneg(st, h, n - 1);
    }
}

/// The healing sweep never drives the running hero's lives negative.
pub proof fn lemma_healing_phase_hero_nonneg(st: CollisionState, h: int, n: int)
    requires
        st.hero.lives >= 0,
    ensures
        healing_phase(st, h, n).hero.lives >= 0,
    decreases n,
{
    if n > 0 {
        lemma_healing_phase_hero_nonneg(st, h, n - 1);
    }
}

/// The fireball sweep never drives the running hero's lives negative.
pub proof fn lemma_fireball_phase_hero_nonneg(st: CollisionState, h: int, n: int)
    requires
        st.hero.lives >= 0,
    ensures
        fireball_phase(st, h, n).hero.lives >= 0,
    decreases n,
{
    if n > 0 {
        lemma_fireball_phase_hero_nonneg(st, h, n - 1);
    }
}

/// One hero pass keeps every hero record's lives non-negative: damage only
/// ever decrements a positive count.
pub proof fn lemma_hero_pass_heroes_nonneg(st: CollisionState, h: int)
    requires
        heroes_nonneg(st.slots),
        0 <= h < st.slots.len(),
    ensures
        hero_pass(st, h).slots.len() == st.slots.len(),
        heroes_nonneg(hero_pass(st, h).slots),
    decreases 0int,
{
    if hero_guard(st.slots[h]) {
        let n = st.slots.len() as int;
        let st1 = CollisionState { hero: st.slots[h].hero->Some_0, ..st };
        let st2 = foe_phase(st1, h, n);
        let st3 = healing_phase(st2, h, n);
        let st4 = fireball_phase(st3, h, n);
        lemma_foe_phase_hero_nonneg(st1, h, n);
        lemma_healing_phase_hero_nonneg(st2, h, n);
        lemma_fireball_phase_hero_nonneg(st3, h, n);
        lemma_foe_phase_frame(st1, h, n);
        lemma_healing_phase_slots(st2, h, n);
        lemma_fireball_phase_slots(st3, h, n);
        let r = hero_pass(st, h);
        assert forall|i: int|
            0 <= i < r.slots.len() && (#[trigger] r.slots[i]).hero is Some implies r.slots[i].hero->Some_0.lives
            >= 0 by {
            if i != h {
                assert(sweep_frame(st4.slots[i], st.slots[i]));
                assert(r.slots[i] == st4.slots[i]);
            }
        }
    }
}

/// Law: a hero's lives never go negative, across the whole collision pass.
pub proof fn lemma_collision_heroes_nonneg(
    slots: Seq<Slot>,
    flag: Option<GameStateFlag>,
    n: int,
)
    requires
        heroes_nonneg(slots),
        0 <= n <= slots.len(),
    ensures
        collision_upto(slots, flag, n).slots.len() == slots.len(),
        heroes_nonneg(collision_upto(slots, flag, n).slots),
    decreases n,
{
    if n > 0 {
        lemma_collision_heroes_nonneg(slots, flag, n - 1);
        lemma_hero_pass_heroes_nonneg(collision_upto(slots, flag, n - 1), n - 1);
    }
}

/// Law: in the pass where a hero's lives reach zero, the defeat flag is
/// raised and that hero is queued for deletion, in that same pass.
pub proof fn lemma_defeat_on_zero_lives(st: CollisionState, h: int)
    requires
        0 <= h < st.slots.len(),
        hero_guard(st.slots[h]),
    ensures
        hero_pass(st, h).slots[h].hero is Some,
        hero_pass(st, h).slots[h].hero->Some_0.lives == 0 ==> hero_pass(st, h).flag == Some(
            GameStateFlag::Defeat,
        ) && hero_pass(st, h).kills.contains(
            EntityId { index: h as usize, generation: st.slots[h].generation },
        ),
{
    let n = st.slots.len() as int;
    let st1 = CollisionState { hero: st.slots[h].hero->Some_0, ..st };
    let st2 = foe_phase(st1, h, n);
    let st3 = healing_phase(st2, h, n);
    let st4 = fireball_phase(st3, h, n);
    lemma_foe_phase_frame(st1, h, n);
    lemma_healing_phase_slots(st2, h, n);
    lemma_fireball_phase_slots(st3, h, n);
    assert(st4.slots[h].generation == st.slots[h].generation);
    let r = hero_pass(st, h);
    if st4.hero.lives == 0 {
        let kills5 = st4.kills.push(id_of(st4.slots, h));
        assert(kills5[kills5.len() - 1] == id_of(st4.slots, h));
        assert(r.kills.contains(
            EntityId { index: h as usize, generation: st.slots[h].generation },
        ));
    }
}

/// The foe sweep can raise only the victory flag.
pub proof fn lemma_foe_phase_flag(st: CollisionState, h: int, n: int)
    ensures
        foe_phase(st, h, n).flag == st.flag || foe_phase(st, h, n).flag == Some(
            GameStateFlag::Victory,
        ),
    decreases n,
{
    if n > 0 {
        lemma_foe_phase_flag(st, h, n - 1);
    }
}

/// The healing sweep never touches the flag.
pub proof fn lemma_healing_phase_flag(st: CollisionState, h: int, n: int)
    ensures
        healing_phase(st, h, n).flag == st.flag,
    decreases n,
{
    if n > 0 {
        lemma_healing_phase_flag(st, h, n - 1);
    }
}

/// The fireball sweep never touches the flag.
pub proof fn lemma_fireball_phase_flag(st: CollisionState, h: int, n: int)
    ensures
        fireball_phase(st, h, n).flag == st.flag,
    decreases n,
{
    if n > 0 {
        lemma_fireball_phase_flag(st, h, n - 1);
    }
}

/// A hero pass leaves every other row's hero record alone.
pub proof fn lemma_hero_pass_other_rows(st: CollisionState, h: int)
    requires
        0 <= h < st.slots.len(),
    ensures
        hero_pass(st, h).slots.len() == st.slots.len(),
        forall|r: int|
            0 <= r < st.slots.len() && r != h ==> (#[trigger] hero_pass(st, h).slots[r]).hero
                == st.slots[r].hero,
{
    if hero_guard(st.slots[h]) {
        let n = st.slots.len() as int;
        let st1 = CollisionState { hero: st.slots[h].hero->Some_0, ..st };
        let st2 = foe_phase(st1, h, n);
        let st3 = healing_phase(st2, h, n);
        let st4 = fireball_phase(st3, h, n);
        lemma_foe_phase_frame(st1, h, n);
        lemma_healing_phase_slots(st2, h, n);
        lemma_fireball_phase_slots(st3, h, n);
        assert forall|r: int|
            0 <= r < st.slots.len() && r != h implies (#[trigger] hero_pass(st, h).slots[r]).hero
            == st.slots[r].hero by {
            assert(sweep_frame(st4.slots[r], st.slots[r]));
            assert(hero_pass(st, h).slots[r] == st4.slots[r]);
        }
    }
}

/// Law (converse of the defeat rule): one hero pass raises the defeat flag
/// only when it was already raised or the processed hero's lives have
/// reached zero in that same pass.
pub proof fn lemma_defeat_only_at_zero(st: CollisionState, h: int)
    requires
        0 <= h < st.slots.len(),
    ensures
        hero_pass(st, h).flag == Some(GameStateFlag::Defeat) ==> (st.flag == Some(
            GameStateFlag::Defeat,
        ) || (hero_guard(st.slots[h]) && hero_pass(st, h).slots[h].hero is Some && hero_pass(
            st,
            h,
        ).slots[h].hero->Some_0.lives == 0)),
{
    if hero_guard(st.slots[h]) {
        let n = st.slots.len() as int;
        let st1 = CollisionState { hero: st.slots[h].hero->Some_0, ..st };
        let st2 = foe_phase(st1, h, n);
        let st3 = healing_phase(st2, h, n);
        let st4 = fireball_phase(st3, h, n);
        lemma_foe_phase_flag(st1, h, n);
        lemma_healing_phase_flag(st2, h, n);
        lemma_fireball_phase_flag(st3, h, n);
        lemma_foe_phase_frame(st1, h, n);
        lemma_healing_phase_slots(st2, h, n);
        lemma_fireball_phase_slots(st3, h, n);
    }
}

/// Law: across the whole pass, a defeat flag in the outcome means it was
/// already set or some hero's lives reached zero — and that hero's record
/// still shows zero lives in the final table.
pub proof fn lemma_defeat_needs_zero_lives(slots: Seq<Slot>, flag: Option<GameStateFlag>, n: int)
    requires
        0 <= n <= slots.len(),
    ensures
        collision_upto(slots, flag, n).slots.len() == slots.len(),
        collision_upto(slots, flag, n).flag == Some(GameStateFlag::Defeat) ==> (flag == Some(
            GameStateFlag::Defeat,
        ) || exists|h: int|
            0 <= h < n && (#[trigger] collision_upto(slots, flag, n).slots[h]).hero is Some
                && collision_upto(slots, flag, n).slots[h].hero->Some_0.lives == 0),
    decreases n,
{
    if n > 0 {
        lemma_defeat_needs_zero_lives(slots, flag, n - 1);
        let prev = collision_upto(slots, flag, n - 1);
        let cur = collision_upto(slots, flag, n);
        lemma_defeat_only_at_zero(prev, n - 1);
        lemma_hero_pass_other_rows(prev, n - 1);
        if cur.flag == Some(GameStateFlag::Defeat) {
            if prev.flag == Some(GameStateFlag::Defeat) {
                if flag != Some(GameStateFlag::Defeat) {
                    let h = choose|h: int|
                        0 <= h < n - 1 && (#[trigger] prev.slots[h]).hero is Some
                            && prev.slots[h].hero->Some_0.lives == 0;
                    assert(cur.slots[h].hero == prev.slots[h].hero);
                    assert(0 <= h < n && cur.slots[h].hero is Some
                        && cur.slots[h].hero->Some_0.lives == 0);
                }
            } else {
                assert(cur.slots[n - 1].hero is Some && cur.slots[n - 1].hero->Some_0.lives == 0);
            }
        }
    }
}

impl CollisionSystem {
    /// One collision pass.  The whole outcome — the table, the outcome flag
    /// and the queued deletions, in order — is exactly [`collision_spec`] of
    /// the table and flag the pass started from.
    pub fn run(world: &mut World, flag: &mut GameStateFlagRes)
        ensures
            final(world).slots@ == collision_spec(old(world).slots@, old(flag).flag).slots,
            final(flag).flag == collision_spec(old(world).slots@, old(flag).flag).flag,
            final(world).pending_deletes@ == old(world).pending_deletes@ + collision_spec(
                old(world).slots@,
                old(flag).flag,
            ).kills,
            final(world).pending_spawns@ == old(world).pending_spawns@,
            final(world).next_generation == old(world).next_generation,
    {
        let ghost slots0 = world.slots@;
        let ghost f0 = flag.flag;
        let ghost d0 = world.pending_deletes@;
        let n = world.slots.len();
        let mut h: usize = 0;
        while h < n
            invariant
                h <= n,
                n == slots0.len(),
                slots0 == old(world).slots@,
                f0 == old(flag).flag,
                d0 == old(world).pending_deletes@,
                world.slots@ == collision_upto(slots0, f0, h as int).slots,
                world.slots@.len() == n,
                flag.flag == collision_upto(slots0, f0, h as int).flag,
                world.pending_deletes@ == d0 + collision_upto(slots0, f0, h as int).kills,
                world.pending_spawns@ == old(world).pending_spawns@,
                world.next_generation == old(world).next_generation,
            decreases n - h,
        {
            let ghost st0 = collision_upto(slots0, f0, h as int);
            let hg: bool;
            let mut hero: Hero;
            let hc: Vec2;
            let h_box: Option<Extent>;
            {
                let row = &world.slots[h];
                hg = row.alive && row.hero.is_some() && row.position.is_some()
                    && row.render.is_some();
                hero = match row.hero {
                    Some(x) => x,
                    None => Hero {
                        lives: 0,
                        score: 0,
                        blinking: false,
                        render: true,
                        reset_position: false,
                        blink_timer: 0,
                    },
                };
                hc = match &row.position {
                    Some(p) => p.position,
                    None => Vec2 { x: 0, y: 0 },
                };
                h_box = match &row.render {
                    Some(r) => r.bounding_box,
                    None => None,
                };
            }
            if hg {
                proof {
                    assert(hero_guard(st0.slots[h as int]));
                }
                let ghost hstart = start_state(slots0, f0, h as int);

                // Sweep 1: foes (boss or regular).
                let mut e: usize = 0;
                while e < n
                    invariant
                        e <= n,
                        h < n,
                        n == slots0.len(),
                        slots0 == old(world).slots@,
                        f0 == old(flag).flag,
                        d0 == old(world).pending_deletes@,
                        hg,
                        hstart == start_state(slots0, f0, h as int),
                        hstart.slots.len() == n,
                        hero_guard(collision_upto(slots0, f0, h as int).slots[h as int]),
                        world.slots@ == foe_phase(hstart, h as int, e as int).slots,
                        world.slots@.len() == n,
                        hero == foe_phase(hstart, h as int, e as int).hero,
                        flag.flag == foe_phase(hstart, h as int, e as int).flag,
                        world.pending_deletes@ == d0 + foe_phase(hstart, h as int, e as int).kills,
                        world.pending_spawns@ == old(world).pending_spawns@,
                        world.next_generation == old(world).next_generation,
                        hc == centre(collision_upto(slots0, f0, h as int).slots[h as int]),
                        h_box == collision_upto(
                            slots0,
                            f0,
                            h as int,
                        ).slots[h as int].render->Some_0.bounding_box,
                    decreases n - e,
                {
                    let ghost cur = foe_phase(hstart, h as int, e as int);
                    let eg: bool;
                    let e_boss: Option<Boss>;
                    let e_enemy: Option<Enemy>;
                    let ec: Vec2;
                    let e_box: Option<Extent>;
                    let e_gen: u64;
                    {
                        let row = &world.slots[e];
                        eg = row.alive && row.position.is_some() && row.render.is_some()
                            && row.enemy.is_some();
                        e_boss = row.boss;
                        e_enemy = row.enemy;
                        ec = match &row.position {
                            Some(p) => p.position,
                            None => Vec2 { x: 0, y: 0 },
                        };
                        e_box = match &row.render {
                            Some(r) => r.bounding_box,
                            None => None,
                        };
                        e_gen = row.generation;
                    }
                    proof {
                        lemma_foe_phase_frame(hstart, h as int, e as int);
                        assert(sweep_frame(cur.slots[h as int], hstart.slots[h as int]));
                        assert(collidable(cur.slots[h as int]) == (h_box is Some));
                        if h_box is Some {
                            assert(centre(cur.slots[h as int]) == hc);
                            assert(extent(cur.slots[h as int]) == h_box->Some_0);
                        }
                    }
                    if eg {
                        if e_boss.is_some() {
                            if h_box.is_some() && e_box.is_some() {
                                let he = h_box.unwrap();
                                let ee = e_box.unwrap();
                                if check_stomp(hc, he, ec, ee) {
                                    hero.score = sat_add64(hero.score, e_enemy.unwrap().score);
                                    hero.reset_position = true;
                                    hero.blinking = true;
                                    let b = e_boss.unwrap();
                                    let b2 = Boss {
                                        lives: sat_add64(b.lives, -1),
                                        normal_lives: sat_add64(b.normal_lives, -1),
                                    };
                                    {
                                        let row = &mut world.slots[e];
                                        row.boss = Some(b2);
                                        if b2.lives == 0 {
                                        } else if b2.normal_lives == 0 {
                                            match &mut row.change_sprite {
                                                Some(cs) => {
                                                    cs.do_change = true;
                                                },
                                                None => {},
                                            }
                                            match &mut row.shooter {
                                                Some(sh) => {
                                                    sh.maximum_fireballs = ANGRY_MAXIMUM_FIREBALLS;
                                                },
                                                None => {},
                                            }
                                        }
                                    }
                                    if b2.lives == 0 {
                                        flag.flag = Some(GameStateFlag::Victory);
                                        world.delete_deferred(
                                            EntityId { index: e, generation: e_gen },
                                        );
                                    }
                                } else if check_body(hc, he, ec, ee) && !hero.blinking {
                                    if hero.lives > 0 {
                                        hero.lives = hero.lives - 1;
                                    }
                                    hero.blinking = true;
                                }
                            }
                        } else {
                            if h_box.is_some() && e_box.is_some() {
                                let he = h_box.unwrap();
                                let ee = e_box.unwrap();
                                if check_stomp(hc, he, ec, ee) {
                                    hero.score = sat_add64(hero.score, e_enemy.unwrap().score);
                                    world.delete_deferred(
                                        EntityId { index: e, generation: e_gen },
                                    );
                                } else if check_body(hc, he, ec, ee) && !hero.blinking {
                                    if hero.lives > 0 {
                                        hero.lives = hero.lives - 1;
                                    }
                                    hero.blinking = true;
                                }
                            }
                        }
                    }
                    proof {
                        let nxt = foe_phase(hstart, h as int, e as int + 1);
                        if foe_guard(cur.slots[e as int]) {
                            if cur.slots[e as int].boss is Some {
                                assert(nxt == boss_step(cur, h as int, e as int));
                            } else {
                                assert(nxt == enemy_step(cur, h as int, e as int));
                            }
                        } else {
                            assert(nxt == cur);
                        }
                        assert(world.slots@ == nxt.slots);
                        assert(hero == nxt.hero);
                        assert(flag.flag == nxt.flag);
                        assert(world.pending_deletes@ == d0 + nxt.kills);
                    }
                    e = e + 1;
                }
                let ghost after_foes = foe_phase(hstart, h as int, n as int);

                // Sweep 2: healing pickups.
                let mut e: usize = 0;
                while e < n
                    invariant
                        e <= n,
                        h < n,
                        n == slots0.len(),
                        slots0 == old(world).slots@,
                        f0 == old(flag).flag,
                        d0 == old(world).pending_deletes@,
                        hg,
                        hstart == start_state(slots0, f0, h as int),
                        hstart.slots.len() == n,
                        hero_guard(collision_upto(slots0, f0, h as int).slots[h as int]),
                        after_foes == foe_phase(hstart, h as int, n as int),
                        world.slots@ == healing_phase(after_foes, h as int, e as int).slots,
                        world.slots@.len() == n,
                        hero == healing_phase(after_foes, h as int, e as int).hero,
                        flag.flag == healing_phase(after_foes, h as int, e as int).flag,
                        world.pending_deletes@ == d0 + healing_phase(
                            after_foes,
                            h as int,
                            e as int,
                        ).kills,
                        world.pending_spawns@ == old(world).pending_spawns@,
                        world.next_generation == old(world).next_generation,
                        hc == centre(collision_upto(slots0, f0, h as int).slots[h as int]),
                        h_box == collision_upto(
                            slots0,
                            f0,
                            h as int,
                        ).slots[h as int].render->Some_0.bounding_box,
                    decreases n - e,
                {
                    let ghost cur = healing_phase(after_foes, h as int, e as int);
                    let eg: bool;
                    let e_healing: Option<crate::component::Healing>;
                    let ec: Vec2;
                    let e_box: Option<Extent>;
                    let e_gen: u64;
                    {
                        let row = &world.slots[e];
                        eg = row.alive && row.position.is_some() && row.render.is_some()
                            && row.healing.is_some();
                        e_healing = row.healing;
                        ec = match &row.position {
                            Some(p) => p.position,
                            None => Vec2 { x: 0, y: 0 },
                        };
                        e_box = match &row.render {
                            Some(r) => r.bounding_box,
                            None => None,
                        };
                        e_gen = row.generation;
                    }
                    proof {
                        lemma_healing_phase_slots(after_foes, h as int, e as int);
                        lemma_foe_phase_frame(hstart, h as int, n as int);
                        assert(cur.slots == after_foes.slots);
                        assert(sweep_frame(cur.slots[h as int], hstart.slots[h as int]));
                        assert(collidable(cur.slots[h as int]) == (h_box is Some));
                        if h_box is Some {
                            assert(centre(cur.slots[h as int]) == hc);
                            assert(extent(cur.slots[h as int]) == h_box->Some_0);
                        }
                    }
                    if eg {
                        if h_box.is_some() && e_box.is_some() {
                            let he = h_box.unwrap();
                            let ee = e_box.unwrap();
                            if check_boxes_overlap(hc, he, ec, ee) {
                                hero.lives = sat_add64(hero.lives, 1);
                                hero.score = sat_add64(hero.score, e_healing.unwrap().score);
                                world.delete_deferred(EntityId { index: e, generation: e_gen });
                            }
                        }
                    }
                    proof {
                        let nxt = healing_phase(after_foes, h as int, e as int + 1);
                        assert(world.slots@ == nxt.slots);
                        assert(hero == nxt.hero);
                        assert(flag.flag == nxt.flag);
                        assert(world.pending_deletes@ == d0 + nxt.kills);
                    }
                    e = e + 1;
                }
                let ghost after_healing = healing_phase(after_foes, h as int, n as int);

                // Sweep 3: fireballs.
                let mut e: usize = 0;
                while e < n
                    invariant
                        e <= n,
                        h < n,
                        n == slots0.len(),
                        slots0 == old(world).slots@,
                        f0 == old(flag).flag,
                        d0 == old(world).pending_deletes@,
                        hg,
                        hstart == start_state(slots0, f0, h as int),
                        hstart.slots.len() == n,
                        hero_guard(collision_upto(slots0, f0, h as int).slots[h as int]),
                        after_foes == foe_phase(hstart, h as int, n as int),
                        after_healing == healing_phase(after_foes, h as int, n as int),
                        world.slots@ == fireball_phase(after_healing, h as int, e as int).slots,
                        world.slots@.len() == n,
                        hero == fireball_phase(after_healing, h as int, e as int).hero,
                        flag.flag == fireball_phase(after_healing, h as int, e as int).flag,
                        world.pending_deletes@ == d0 + fireball_phase(
                            after_healing,
                            h as int,
                            e as int,
                        ).kills,
                        world.pending_spawns@ == old(world).pending_spawns@,
                        world.next_generation == old(world).next_generation,
                        hc == centre(collision_upto(slots0, f0, h as int).slots[h as int]),
                        h_box == collision_upto(
                            slots0,
                            f0,
                            h as int,
                        ).slots[h as int].render->Some_0.bounding_box,
                    decreases n - e,
                {
                    let ghost cur = fireball_phase(after_healing, h as int, e as int);
                    let eg: bool;
                    let ec: Vec2;
                    let e_box: Option<Extent>;
                    let e_gen: u64;
                    {
                        let row = &world.slots[e];
                        eg = row.alive && row.position.is_some() && row.render.is_some()
                            && row.fireball.is_some();
                        ec = match &row.position {
                            Some(p) => p.position,
                            None => Vec2 { x: 0, y: 0 },
                        };
                        e_box = match &row.render {
                            Some(r) => r.bounding_box,
                            None => None,
                        };
                        e_gen = row.generation;
                    }
                    proof {
                        lemma_fireball_phase_slots(after_healing, h as int, e as int);
                        lemma_healing_phase_slots(after_foes, h as int, n as int);
                        lemma_foe_phase_frame(hstart, h as int, n as int);
                        assert(cur.slots == after_healing.slots);
                        assert(after_healing.slots == after_foes.slots);
                        assert(sweep_frame(cur.slots[h as int], hstart.slots[h as int]));
                        assert(collidable(cur.slots[h as int]) == (h_box is Some));
                        if h_box is Some {
                            assert(centre(cur.slots[h as int]) == hc);
                            assert(extent(cur.slots[h as int]) == h_box->Some_0);
                        }
                    }
                    if eg {
                        if h_box.is_some() && e_box.is_some() {
                            let he = h_box.unwrap();
                            let ee = e_box.unwrap();
                            if check_boxes_overlap(hc, he, ec, ee) && !hero.blinking {
                                hero.blinking = true;
                                if hero.lives > 0 {
                                    hero.lives = hero.lives - 1;
                                }
                                world.delete_deferred(EntityId { index: e, generation: e_gen });
                            }
                        }
                    }
                    proof {
                        let nxt = fireball_phase(after_healing, h as int, e as int + 1);
                        assert(world.slots@ == nxt.slots);
                        assert(hero == nxt.hero);
                        assert(flag.flag == nxt.flag);
                        assert(world.pending_deletes@ == d0 + nxt.kills);
                    }
                    e = e + 1;
                }
                let ghost st4 = fireball_phase(after_healing, h as int, n as int);

                // Defeat check, then the hero record returns to its row.
                if hero.lives == 0 {
                    flag.flag = Some(GameStateFlag::Defeat);
                    let h_gen: u64;
                    {
                        let row = &world.slots[h];
                        h_gen = row.generation;
                    }
                    world.delete_deferred(EntityId { index: h, generation: h_gen });
                }
                {
                    let row = &mut world.slots[h];
                    row.hero = Some(hero);
                }
                proof {
                    assert(collision_upto(slots0, f0, h as int + 1) == hero_pass(st0, h as int));
                    assert(world.slots@ == hero_pass(st0, h as int).slots);
                    assert(flag.flag == hero_pass(st0, h as int).flag);
                    assert(world.pending_deletes@ == d0 + hero_pass(st0, h as int).kills);
                }
            } else {
                proof {
                    assert(!hero_guard(st0.slots[h as int]));
                    assert(collision_upto(slots0, f0, h as int + 1) == st0);
                }
            }
            h = h + 1;
        }
    }
}

} // verus!
