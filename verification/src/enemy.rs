//! The enemy archetypes — walker, shooter, flyer, boss — and the fireball
//! projectile, including the ambient fireball shower, plus the head/body
//! split used by the collision rules.

use crate::component::{
    Boss, CalculateOutOfBounds, ChangeSprite, Enemy, Fireball, Position, Render, Shooter, Velocity,
};
use crate::geom::{Rect, Vec2};
use crate::num::{sat64, sat_add64};
use crate::rng::{coin_flip, pick_in_range};
use crate::text::string_of;
use crate::world::{gen_plus, next_gen, Slot, SpawnBundle, World};
use vstd::prelude::*;

verus! {

/// Height of an enemy's "head" band, in milli-units.
pub const ENEMY_HEAD_HEIGHT: i64 = 10_000;

/// Splits an enemy's bounding box, re-centred at `position`, into the head
/// (the top band) and the body (the rest), returned in that order.  Corners
/// are floored halves, saturated on the `i64` range.
pub fn get_enemy_head_body_area(self_area: Rect, position: Vec2) -> (r: (Rect, Rect))
    requires
        self_area.width >= 0,
        self_area.height >= 0,
    ensures
        r.0.x as int == sat64(position.x - self_area.width / 2),
        r.0.y as int == sat64(position.y - self_area.height / 2),
        r.0.width == self_area.width,
        r.0.height == ENEMY_HEAD_HEIGHT,
        r.1.x == r.0.x,
        r.1.y as int == sat64(r.0.y + ENEMY_HEAD_HEIGHT),
        r.1.width == self_area.width,
        r.1.height == self_area.height - ENEMY_HEAD_HEIGHT,
{
    let centered = self_area.with_center(position);
    let head = Rect {
        x: centered.x,
        y: centered.y,
        width: centered.width,
        height: ENEMY_HEAD_HEIGHT,
    };
    let body = Rect {
        x: centered.x,
        y: sat_add64(centered.y, ENEMY_HEAD_HEIGHT),
        width: centered.width,
        height: centered.height - ENEMY_HEAD_HEIGHT,
    };
    (head, body)
}

/// What a shooter's projectile behaviour is configured from; coefficients in
/// thousandths.
#[derive(Clone, Debug)]
pub struct ShooterConfig {
    pub projectile_sprite: String,
    pub maximum_projectiles: u64,
    pub coefficient_1: i64,
    pub coefficient_2: i64,
}

impl ShooterConfig {
    /// An equal copy.
    pub fn duplicate(&self) -> (c: ShooterConfig)
        ensures
            c == *self,
    {
        ShooterConfig {
            projectile_sprite: self.projectile_sprite.clone(),
            maximum_projectiles: self.maximum_projectiles,
            coefficient_1: self.coefficient_1,
            coefficient_2: self.coefficient_2,
        }
    }
}

/// What a regular enemy is spawned from.
#[derive(Clone, Debug)]
pub struct EnemyConfig {
    pub sprite: String,
    pub position: Vec2,
    pub velocity: Vec2,
    pub score: i64,
    pub shooter_config: Option<ShooterConfig>,
}

/// The enemy archetypes the wave factory can pick from.
#[derive(Clone, Copy, Debug, PartialEq, Eq, Structural)]
pub enum EnemyType {
    Walker,
    Shooter,
    Flyer,
    FireballShower,
}

/// The shooter record a shooter config unfolds to.
pub open spec fn shooter_component(sc: ShooterConfig) -> Shooter {
    Shooter {
        projectile_sprite: sc.projectile_sprite,
        maximum_fireballs: sc.maximum_projectiles,
        fireball_amount: 0,
        coefficient_1: sc.coefficient_1,
        coefficient_2: sc.coefficient_2,
    }
}

/// The component bundle an enemy config unfolds to.
pub open spec fn enemy_bundle(config: EnemyConfig) -> SpawnBundle {
    SpawnBundle {
        out_of_bounds: Some(CalculateOutOfBounds),
        position: Some(Position { position: config.position }),
        velocity: Some(Velocity { velocity: config.velocity }),
        render: Some(Render { sprite: config.sprite, bounding_box: None }),
        enemy: Some(Enemy { score: config.score }),
        shooter: match config.shooter_config {
            Some(sc) => Some(shooter_component(sc)),
            None => None,
        },
        ..SpawnBundle::spec_empty()
    }
}

/// Creates a regular enemy immediately.
pub fn create_enemy(world: &mut World, config: EnemyConfig)
    ensures
        final(world).slots@ == old(world).slots@.push(
            Slot::from_bundle(enemy_bundle(config), old(world).next_generation),
        ),
        final(world).next_generation == next_gen(old(world).next_generation),
        final(world).pending_spawns@ == old(world).pending_spawns@,
        final(world).pending_deletes@ == old(world).pending_deletes@,
{
    let mut bundle = SpawnBundle::empty();
    bundle.out_of_bounds = Some(CalculateOutOfBounds);
    bundle.position = Some(Position { position: config.position });
    bundle.velocity = Some(Velocity { velocity: config.velocity });
    bundle.render = Some(Render { sprite: config.sprite, bounding_box: None });
    bundle.enemy = Some(Enemy { score: config.score });
    bundle.shooter = match config.shooter_config {
        Some(sc) => Some(
            Shooter {
                projectile_sprite: sc.projectile_sprite,
                maximum_fireballs: sc.maximum_projectiles,
                fireball_amount: 0,
                coefficient_1: sc.coefficient_1,
                coefficient_2: sc.coefficient_2,
            },
        ),
        None => None,
    };
    world.create(bundle);
}

/// A walker entering from the right, or its mirrored twin from the left.
pub open spec fn walker_config(c: EnemyConfig) -> bool {
    ||| {
        &&& c.sprite@ == "andador"@
        &&& c.position == (Vec2 { x: 850_000, y: 432_000 })
        &&& c.velocity == (Vec2 { x: (-125) as i64, y: 0 })
        &&& c.score == 100
        &&& c.shooter_config is None
    }
    ||| {
        &&& c.sprite@ == "andador_flipped"@
        &&& c.position == (Vec2 { x: (-50_000) as i64, y: 432_000 })
        &&& c.velocity == (Vec2 { x: 125, y: 0 })
        &&& c.score == 100
        &&& c.shooter_config is None
    }
}

/// Creates a walker; the side it enters from is a fair coin.
pub fn create_walker(world: &mut World)
    ensures
        exists|c: EnemyConfig|
            walker_config(c) && final(world).slots@ == old(world).slots@.push(
                Slot::from_bundle(enemy_bundle(c), old(world).next_generation),
            ),
        final(world).next_generation == next_gen(old(world).next_generation),
        final(world).pending_spawns@ == old(world).pending_spawns@,
        final(world).pending_deletes@ == old(world).pending_deletes@,
{
    let config = if coin_flip() {
        EnemyConfig {
            sprite: string_of("andador"),
            position: Vec2 { x: 850_000, y: 432_000 },
            velocity: Vec2 { x: -125, y: 0 },
            score: 100,
            shooter_config: None,
        }
    } else {
        EnemyConfig {
            sprite: string_of("andador_flipped"),
            position: Vec2 { x: -50_000, y: 432_000 },
            velocity: Vec2 { x: 125, y: 0 },
            score: 100,
            shooter_config: None,
        }
    };
    let ghost c = config;
    create_enemy(world, config);
    proof {
        assert(walker_config(c));
    }
}

/// The stock shooter enemy.
pub open spec fn shooter_enemy_config(c: EnemyConfig) -> bool {
    &&& c.sprite@ == "atirador"@
    &&& c.position == (Vec2 { x: 850_000, y: 433_500 })
    &&& c.velocity == (Vec2 { x: (-125) as i64, y: 0 })
    &&& c.score == 200
    &&& c.shooter_config is Some
    &&& c.shooter_config->Some_0.projectile_sprite@ == "tiro"@
    &&& c.shooter_config->Some_0.maximum_projectiles == 2
    &&& c.shooter_config->Some_0.coefficient_1 == 175
    &&& c.shooter_config->Some_0.coefficient_2 == 0
}

/// Creates the shooter enemy.
pub fn create_shooter(world: &mut World)
    ensures
        exists|c: EnemyConfig|
            shooter_enemy_config(c) && final(world).slots@ == old(world).slots@.push(
                Slot::from_bundle(enemy_bundle(c), old(world).next_generation),
            ),
        final(world).next_generation == next_gen(old(world).next_generation),
        final(world).pending_spawns@ == old(world).pending_spawns@,
        final(world).pending_deletes@ == old(world).pending_deletes@,
{
    let config = EnemyConfig {
        sprite: string_of("atirador"),
        position: Vec2 { x: 850_000, y: 433_500 },
        velocity: Vec2 { x: -125, y: 0 },
        score: 200,
        shooter_config: Some(
            ShooterConfig {
                projectile_sprite: string_of("tiro"),
                maximum_projectiles: 2,
                coefficient_1: 175,
                coefficient_2: 0,
            },
        ),
    };
    let ghost c = config;
    create_enemy(world, config);
    proof {
        assert(shooter_enemy_config(c));
    }
}

/// The stock flyer enemy.
pub open spec fn flyer_config(c: EnemyConfig) -> bool {
    &&& c.sprite@ == "alma"@
    &&& c.position == (Vec2 { x: 850_000, y: 400_000 })
    &&& c.velocity == (Vec2 { x: (-150) as i64, y: 0 })
    &&& c.score == 200
    &&& c.shooter_config is Some
    &&& c.shooter_config->Some_0.projectile_sprite@ == "tiro"@
    &&& c.shooter_config->Some_0.maximum_projectiles == 1
    &&& c.shooter_config->Some_0.coefficient_1 == 250
    &&& c.shooter_config->Some_0.coefficient_2 == 0
}

/// Creates the flyer enemy.
pub fn create_flyer(world: &mut World)
    ensures
        exists|c: EnemyConfig|
            flyer_config(c) && final(world).slots@ == old(world).slots@.push(
                Slot::from_bundle(enemy_bundle(c), old(world).next_generation),
            ),
        final(world).next_generation == next_gen(old(world).next_generation),
        final(world).pending_spawns@ == old(world).pending_spawns@,
        final(world).pending_deletes@ == old(world).pending_deletes@,
{
    let config = EnemyConfig {
        sprite: string_of("alma"),
        position: Vec2 { x: 850_000, y: 400_000 },
        velocity: Vec2 { x: -150, y: 0 },
        score: 200,
        shooter_config: Some(
            ShooterConfig {
                projectile_sprite: string_of("tiro"),
                maximum_projectiles: 1,
                coefficient_1: 250,
                coefficient_2: 0,
            },
        ),
    };
    let ghost c = config;
    create_enemy(world, config);
    proof {
        assert(flyer_config(c));
    }
}

/// What the boss is spawned from.
#[derive(Clone, Debug)]
pub struct BossConfig {
    pub sprite: String,
    pub angry_sprite: String,
    pub position: Vec2,
    pub lives: i64,
    pub normal_lives: i64,
    pub shooter_config: ShooterConfig,
}

impl Default for BossConfig {
    /// The stock boss: ten lives, five of them in the calm phase.
    fn default() -> (c: BossConfig)
        ensures
            c.sprite@ == "chefe"@,
            c.angry_sprite@ == "chefeapelao"@,
            c.position == (Vec2 { x: 748_500, y: 428_000 }),
            c.lives == 10,
            c.normal_lives == 5,
            c.shooter_config.projectile_sprite@ == "tiro"@,
            c.shooter_config.maximum_projectiles == 2,
            c.shooter_config.coefficient_1 == 75,
            c.shooter_config.coefficient_2 == -50,
    {
        BossConfig {
            sprite: string_of("chefe"),
            angry_sprite: string_of("chefeapelao"),
            position: Vec2 { x: 748_500, y: 428_000 },
            lives: 10,
            normal_lives: 5,
            shooter_config: ShooterConfig {
                projectile_sprite: string_of("tiro"),
                maximum_projectiles: 2,
                coefficient_1: 75,
                coefficient_2: -50,
            },
        }
    }
}

impl BossConfig {
    /// An equal copy.
    pub fn duplicate(&self) -> (c: BossConfig)
        ensures
            c == *self,
    {
        BossConfig {
            sprite: self.sprite.clone(),
            angry_sprite: self.angry_sprite.clone(),
            position: self.position,
            lives: self.lives,
            normal_lives: self.normal_lives,
            shooter_config: self.shooter_config.duplicate(),
        }
    }
}

/// Points a boss stomp is worth.
pub const BOSS_STOMP_SCORE: i64 = 300;

/// The component bundle a boss config unfolds to.  The boss is stationary
/// and not watched for leaving the screen.
pub open spec fn boss_bundle(config: BossConfig) -> SpawnBundle {
    SpawnBundle {
        boss: Some(Boss { lives: config.lives, normal_lives: config.normal_lives }),
        position: Some(Position { position: config.position }),
        render: Some(Render { sprite: config.sprite, bounding_box: None }),
        enemy: Some(Enemy { score: BOSS_STOMP_SCORE }),
        change_sprite: Some(ChangeSprite { new_sprite: config.angry_sprite, do_change: false }),
        shooter: Some(shooter_component(config.shooter_config)),
        ..SpawnBundle::spec_empty()
    }
}

/// Creates the boss immediately.
pub fn create_boss(world: &mut World, config: BossConfig)
    ensures
        final(world).slots@ == old(world).slots@.push(
            Slot::from_bundle(boss_bundle(config), old(world).next_generation),
        ),
        final(world).next_generation == next_gen(old(world).next_generation),
        final(world).pending_spawns@ == old(world).pending_spawns@,
        final(world).pending_deletes@ == old(world).pending_deletes@,
{
    let mut bundle = SpawnBundle::empty();
    bundle.boss = Some(Boss { lives: config.lives, normal_lives: config.normal_lives });
    bundle.position = Some(Position { position: config.position });
    bundle.render = Some(Render { sprite: config.sprite, bounding_box: None });
    bundle.enemy = Some(Enemy { score: BOSS_STOMP_SCORE });
    bundle.change_sprite = Some(
        ChangeSprite { new_sprite: config.angry_sprite, do_change: false },
    );
    bundle.shooter = Some(
        Shooter {
            projectile_sprite: config.shooter_config.projectile_sprite,
            maximum_fireballs: config.shooter_config.maximum_projectiles,
            fireball_amount: 0,
            coefficient_1: config.shooter_config.coefficient_1,
            coefficient_2: config.shooter_config.coefficient_2,
        },
    );
    world.create(bundle);
}

/// What one fireball is spawned from.
#[derive(Clone, Debug)]
pub struct FireballConfig {
    pub sprite: String,
    pub position: Vec2,
    pub velocity: Vec2,
}

/// What a fireball shower is spawned from; `spawn_height` is the y
/// coordinate (milli-units) the fireballs start from.
#[derive(Clone, Debug)]
pub struct FireballShowerConfig {
    pub sprite: String,
    pub spawn_height: i64,
}

impl Default for FireballShowerConfig {
    /// The stock shower: fire sprites dropping in from above the screen.
    fn default() -> (c: FireballShowerConfig)
        ensures
            c.sprite@ == "fogo"@,
            c.spawn_height == -100_000,
    {
        FireballShowerConfig { sprite: string_of("fogo"), spawn_height: -100_000 }
    }
}

/// The component bundle a fireball unfolds to: watched for leaving the
/// screen, owned by `owner_id`'s slot or ownerless for the shower.
pub open spec fn fireball_bundle(owner_id: Option<usize>, config: FireballConfig) -> SpawnBundle {
    SpawnBundle {
        fireball: Some(Fireball { owner_id }),
        out_of_bounds: Some(CalculateOutOfBounds),
        render: Some(Render { sprite: config.sprite, bounding_box: None }),
        position: Some(Position { position: config.position }),
        velocity: Some(Velocity { velocity: config.velocity }),
        ..SpawnBundle::spec_empty()
    }
}

/// Builds a fireball's component bundle; the caller decides whether to
/// realize it immediately (shower) or defer it (shooters mid-pipeline).
pub fn create_fireball(owner_id: Option<usize>, config: FireballConfig) -> (b: SpawnBundle)
    ensures
        b == fireball_bundle(owner_id, config),
{
    let mut bundle = SpawnBundle::empty();
    bundle.fireball = Some(Fireball { owner_id });
    bundle.out_of_bounds = Some(CalculateOutOfBounds);
    bundle.render = Some(Render { sprite: config.sprite, bounding_box: None });
    bundle.position = Some(Position { position: config.position });
    bundle.velocity = Some(Velocity { velocity: config.velocity });
    bundle
}

/// How many fireballs the stepping rule `x_init, x_init + step, ...` places
/// before reaching `x_end` (inclusive start, exclusive end).
pub open spec fn shower_count(x: int, x_end: int, step: int) -> int
    decreases x_end - x + step,
    when step >= 1
{
    if x >= x_end {
        0
    } else {
        1 + shower_count(x + step, x_end, step)
    }
}

/// The stepping rule places a non-negative number of fireballs.
pub proof fn lemma_shower_count_nonneg(x: int, x_end: int, step: int)
    requires
        step >= 1,
    ensures
        shower_count(x, x_end, step) >= 0,
    decreases x_end - x + step,
{
    if x < x_end {
        lemma_shower_count_nonneg(x + step, x_end, step)
    }
}

/// One shower fireball as placed at column `x` (world units): ownerless,
/// falling at `250 ± jitter` units per second from the configured height.
pub open spec fn shower_slot_ok(
    s: Slot,
    sprite: Seq<char>,
    spawn_height: i64,
    x: int,
    generation: u64,
) -> bool {
    exists|c: FireballConfig|
        {
            &&& c.sprite@ == sprite
            &&& c.position == (Vec2 { x: sat64(x * 1000) as i64, y: spawn_height })
            &&& c.velocity.x == 0
            &&& 240 <= c.velocity.y < 260
            &&& s == Slot::from_bundle(#[trigger] fireball_bundle(None, c), generation)
        }
}

/// Places one ownerless fireball per step position in `x_init..x_end`
/// (world units), immediately.  Column `k` is exactly `x_init + k * step`.
pub fn create_fireball_shower_at(
    world: &mut World,
    config: &FireballShowerConfig,
    x_init: i64,
    x_end: i64,
    step: i64,
)
    requires
        step >= 1,
    ensures
        final(world).slots@.len() == old(world).slots@.len() + shower_count(
            x_init as int,
            x_end as int,
            step as int,
        ),
        forall|i: int| 0 <= i < old(world).slots@.len() ==> final(world).slots@[i] == old(world).slots@[i],
        forall|k: int|
            0 <= k < shower_count(x_init as int, x_end as int, step as int)
                ==> shower_slot_ok(
                #[trigger] final(world).slots@[old(world).slots@.len() + k],
                config.sprite@,
                config.spawn_height,
                x_init + k * (step as int),
                gen_plus(old(world).next_generation, k),
            ),
        forall|k: int|
            old(world).slots@.len() <= k < final(world).slots@.len() ==> (
            #[trigger] final(world).slots@[k]).hero is None,
        final(world).next_generation == gen_plus(
            old(world).next_generation,
            shower_count(x_init as int, x_end as int, step as int),
        ),
        final(world).pending_spawns@ == old(world).pending_spawns@,
        final(world).pending_deletes@ == old(world).pending_deletes@,
{
    proof {
        lemma_shower_count_nonneg(x_init as int, x_end as int, step as int);
    }
    let ghost total = shower_count(x_init as int, x_end as int, step as int);
    let ghost n0 = world.slots@.len() as int;
    let ghost g0 = world.next_generation;
    let mut x: i128 = x_init as i128;
    let ghost mut k: int = 0;
    while x < x_end as i128
        invariant
            step >= 1,
            x_init as int <= x as int,
            x as int == x_init + k * (step as int),
            0 <= k,
            k + shower_count(x as int, x_end as int, step as int) == total,
            0 <= n0,
            world.slots@.len() == n0 + k,
            forall|i: int| 0 <= i < n0 ==> world.slots@[i] == old(world).slots@[i],
            forall|m: int|
                0 <= m < k ==> shower_slot_ok(
                    #[trigger] world.slots@[n0 + m],
                    config.sprite@,
                    config.spawn_height,
                    x_init + m * (step as int),
                    gen_plus(g0, m),
                ),
            forall|m: int|
                n0 <= m < world.slots@.len() ==> (#[trigger] world.slots@[m]).hero is None,
            world.next_generation == gen_plus(g0, k),
            world.pending_spawns@ == old(world).pending_spawns@,
            world.pending_deletes@ == old(world).pending_deletes@,
        decreases x_end as int - x as int + step as int,
    {
        proof {
            lemma_shower_count_nonneg(x as int + step as int, x_end as int, step as int);
        }
        let jitter = pick_in_range(-10, 10);
        let x_milli: i64 = if x > 9_223_372_036_854_775i128 {
            i64::MAX
        } else if x < -9_223_372_036_854_775i128 {
            i64::MIN
        } else {
            (x as i64) * 1000
        };
        let fireball_config = FireballConfig {
            sprite: config.sprite.clone(),
            position: Vec2 { x: x_milli, y: config.spawn_height },
            velocity: Vec2 { x: 0, y: 250 + jitter },
        };
        let ghost c = fireball_config;
        let ghost before = world.slots@;
        let ghost pushed = Slot::from_bundle(fireball_bundle(None, c), gen_plus(g0, k));
        let bundle = create_fireball(None, fireball_config);
        world.create(bundle);
        proof {
            assert(world.slots@ == before.push(pushed));
            assert(c.sprite@ == config.sprite@);
            assert(shower_slot_ok(
                world.slots@[n0 + k],
                config.sprite@,
                config.spawn_height,
                x_init + k * (step as int),
                gen_plus(g0, k),
            ));
            k = k + 1;
            assert((k - 1) * (step as int) + step == k * (step as int)) by (nonlinear_arith);
            assert forall|m: int| 0 <= m < k implies shower_slot_ok(
                #[trigger] world.slots@[n0 + m],
                config.sprite@,
                config.spawn_height,
                x_init + m * (step as int),
                gen_plus(g0, m),
            ) by {
                if m < k - 1 {
                    assert(world.slots@[n0 + m] == before[n0 + m]);
                }
            }
        }
        x = x + step as i128;
    }
    proof {
        assert(shower_count(x as int, x_end as int, step as int) == 0);
    }
}

/// Creates a fireball shower with the stock randomness: start column in
/// `0..100`, end column in `810..900`, step in `90..120` (world units).
pub fn create_fireball_shower(world: &mut World, config: FireballShowerConfig)
    ensures
        exists|x_init: i64, x_end: i64, step: i64|
            {
                &&& 0 <= x_init < 100
                &&& 810 <= x_end < 900
                &&& 90 <= step < 120
                &&& final(world).slots@.len() == old(world).slots@.len() + #[trigger] shower_count(
                    x_init as int,
                    x_end as int,
                    step as int,
                )
                &&& forall|k: int|
                    0 <= k < shower_count(x_init as int, x_end as int, step as int)
                        ==> shower_slot_ok(
                        #[trigger] final(world).slots@[old(world).slots@.len() + k],
                        config.sprite@,
                        config.spawn_height,
                        x_init + k * (step as int),
                        gen_plus(old(world).next_generation, k),
                    )
                &&& final(world).next_generation == gen_plus(
                    old(world).next_generation,
                    shower_count(x_init as int, x_end as int, step as int),
                )
            },
        forall|i: int| 0 <= i < old(world).slots@.len() ==> final(world).slots@[i] == old(world).slots@[i],
        forall|k: int|
            old(world).slots@.len() <= k < final(world).slots@.len() ==> (
            #[trigger] final(world).slots@[k]).hero is None,
        final(world).pending_spawns@ == old(world).pending_spawns@,
        final(world).pending_deletes@ == old(world).pending_deletes@,
{
    let x_init = pick_in_range(0, 100);
    let x_end = pick_in_range(810, 900);
    let step = pick_in_range(90, 120);
    create_fireball_shower_at(world, &config, x_init, x_end, step);
}

} // verus!
