//! The wave spawn factory: one spawn policy value (fixed round-robin or
//! uniform-random pick over a configured list of archetypes), invoked by the
//! scene's wave scheduler, dropping a healing potion every few waves.

use crate::enemy::{
    create_fireball_shower, create_flyer, create_shooter, create_walker, enemy_bundle,
    flyer_config, lemma_shower_count_nonneg, shooter_enemy_config, shower_count, shower_slot_ok,
    walker_config, EnemyConfig, EnemyType, FireballShowerConfig,
};
use crate::healing::{create_healing_potion, healing_bundle, stock_healing_config, HealingConfig};
use crate::num::{sat64, sat_add64};
use crate::rng::pick_in_range;
use crate::world::{gen_plus, Slot, World};
use vstd::prelude::*;

verus! {

/// How the next archetype is picked.
#[derive(Clone, Copy, Debug, PartialEq, Eq, Structural)]
pub enum FactoryType {
    Fixed,
    Random,
}

/// What a factory is configured from: the pick policy, the archetype list,
/// and how often (in waves) a healing potion drops.
#[derive(Clone, Debug)]
pub struct EntityFactoryConfig {
    pub factory_type: FactoryType,
    pub enemy_types: Vec<EnemyType>,
    pub healing_interval: Option<i64>,
}

impl Default for EntityFactoryConfig {
    /// The stock round: walkers and shooters in turn, a potion every third
    /// wave.
    fn default() -> (c: EntityFactoryConfig)
        ensures
            c.factory_type == FactoryType::Fixed,
            c.enemy_types@ == seq![EnemyType::Walker, EnemyType::Shooter],
            c.healing_interval == Some(3i64),
    {
        let mut enemy_types: Vec<EnemyType> = Vec::new();
        enemy_types.push(EnemyType::Walker);
        enemy_types.push(EnemyType::Shooter);
        proof {
            assert(enemy_types@ =~= seq![EnemyType::Walker, EnemyType::Shooter]);
        }
        EntityFactoryConfig {
            factory_type: FactoryType::Fixed,
            enemy_types,
            healing_interval: Some(3),
        }
    }
}

impl EntityFactoryConfig {
    /// An equal copy.
    pub fn duplicate(&self) -> (c: EntityFactoryConfig)
        ensures
            c.factory_type == self.factory_type,
            c.enemy_types@ == self.enemy_types@,
            c.healing_interval == self.healing_interval,
    {
        let mut enemy_types: Vec<EnemyType> = Vec::new();
        let n = self.enemy_types.len();
        let mut i: usize = 0;
        while i < n
            invariant
                i <= n,
                n == self.enemy_types@.len(),
                enemy_types@ == self.enemy_types@.take(i as int),
            decreases n - i,
        {
            enemy_types.push(self.enemy_types[i]);
            proof {
                assert(self.enemy_types@.take(i as int + 1) =~= self.enemy_types@.take(
                    i as int,
                ).push(self.enemy_types@[i as int]));
            }
            i = i + 1;
        }
        proof {
            assert(self.enemy_types@.take(n as int) =~= self.enemy_types@);
        }
        EntityFactoryConfig {
            factory_type: self.factory_type,
            enemy_types,
            healing_interval: self.healing_interval,
        }
    }
}

/// The factory: configuration plus the running wave counter.
pub struct EntityFactory {
    pub factory_type: FactoryType,
    pub enemy_types: Vec<EnemyType>,
    pub healing_interval: Option<i64>,
    pub counter: i64,
}

/// A factory stays usable: at least one archetype to pick from, a strictly
/// positive healing cadence if any, and a non-negative counter.
pub open spec fn factory_wf(f: EntityFactory) -> bool {
    &&& f.enemy_types@.len() > 0
    &&& match f.healing_interval {
        Some(iv) => iv >= 1,
        None => true,
    }
    &&& f.counter >= 0
}

/// The table growth one archetype pick causes, from `pre` to `mid`, under
/// the creation stamp `g`.
pub open spec fn spawn_of(t: EnemyType, pre: Seq<Slot>, mid: Seq<Slot>, g: u64) -> bool {
    match t {
        EnemyType::Walker => exists|c: EnemyConfig|
            walker_config(c) && mid == pre.push(Slot::from_bundle(#[trigger] enemy_bundle(c), g)),
        EnemyType::Shooter => exists|c: EnemyConfig|
            shooter_enemy_config(c) && mid == pre.push(
                Slot::from_bundle(#[trigger] enemy_bundle(c), g),
            ),
        EnemyType::Flyer => exists|c: EnemyConfig|
            flyer_config(c) && mid == pre.push(Slot::from_bundle(#[trigger] enemy_bundle(c), g)),
        EnemyType::FireballShower => {
            &&& forall|i: int| 0 <= i < pre.len() ==> mid[i] == pre[i]
            &&& exists|x_init: i64, x_end: i64, step: i64|
                {
                    &&& 0 <= x_init < 100
                    &&& 810 <= x_end < 900
                    &&& 90 <= step < 120
                    &&& mid.len() == pre.len() + #[trigger] shower_count(
                        x_init as int,
                        x_end as int,
                        step as int,
                    )
                    &&& forall|k: int|
                        0 <= k < shower_count(x_init as int, x_end as int, step as int)
                            ==> shower_slot_ok(
                            #[trigger] mid[pre.len() + k],
                            "fogo"@,
                            (-100_000) as i64,
                            x_init + k * (step as int),
                            gen_plus(g, k),
                        )
                }
        },
    }
}

/// The whole world effect of one wave call on factory `f`: the picked
/// archetype's batch, then a stock potion on every healing tick.
pub open spec fn wave_spawn_effect(f: EntityFactory, pre: Seq<Slot>, post: Seq<Slot>, g: u64) -> bool {
    exists|pos: int, mid: Seq<Slot>|
        {
            &&& 0 <= pos < f.enemy_types@.len()
            &&& (f.factory_type == FactoryType::Fixed ==> pos == (f.counter as usize as int) % (
            f.enemy_types@.len() as int))
            &&& #[trigger] spawn_of(f.enemy_types@[pos], pre, mid, g)
            &&& match f.healing_interval {
                Some(iv) => if f.counter % iv == 0 {
                    exists|c: HealingConfig, g2: u64|
                        stock_healing_config(c) && post == mid.push(
                            #[trigger] Slot::from_bundle(healing_bundle(c), g2),
                        )
                } else {
                    post == mid
                },
                None => post == mid,
            }
        }
}

impl EntityFactory {
    /// A fresh factory for one round.
    pub fn new(config: EntityFactoryConfig) -> (f: EntityFactory)
        requires
            config.enemy_types@.len() > 0,
            match config.healing_interval {
                Some(iv) => iv >= 1,
                None => true,
            },
        ensures
            f.factory_type == config.factory_type,
            f.enemy_types@ == config.enemy_types@,
            f.healing_interval == config.healing_interval,
            f.counter == 0,
            factory_wf(f),
    {
        EntityFactory {
            factory_type: config.factory_type,
            enemy_types: config.enemy_types,
            healing_interval: config.healing_interval,
            counter: 0,
        }
    }

    /// One wave: picks an archetype — round-robin on the wave counter, or
    /// uniformly at random — spawns it, drops a potion on every
    /// `healing_interval`-th wave, and advances the counter.
    pub fn create_entity(&mut self, world: &mut World)
        requires
            factory_wf(*old(self)),
        ensures
            factory_wf(*final(self)),
            final(self).factory_type == old(self).factory_type,
            final(self).enemy_types@ == old(self).enemy_types@,
            final(self).healing_interval == old(self).healing_interval,
            final(self).counter as int == sat64(old(self).counter + 1),
            final(world).pending_spawns@ == old(world).pending_spawns@,
            final(world).pending_deletes@ == old(world).pending_deletes@,
            forall|i: int|
                0 <= i < old(world).slots@.len() ==> final(world).slots@[i] == old(
                    world,
                ).slots@[i],
            final(world).slots@.len() >= old(world).slots@.len(),
            forall|k: int|
                old(world).slots@.len() <= k < final(world).slots@.len() ==> (
                #[trigger] final(world).slots@[k]).hero is None,
            wave_spawn_effect(
                *old(self),
                old(world).slots@,
                final(world).slots@,
                old(world).next_generation,
            ),
    {
        let len = self.enemy_types.len();
        let pos: usize = match self.factory_type {
            FactoryType::Fixed => (self.counter as usize) % len,
            FactoryType::Random => {
                let bound: i64 = if len as u64 >= i64::MAX as u64 {
                    i64::MAX
                } else {
                    len as i64
                };
                let p = pick_in_range(0, bound);
                proof {
                    assert(0 <= p < bound);
                    assert((p as usize) < len);
                }
                p as usize
            },
        };
        proof {
            assert(pos < len);
        }
        let ghost pre = world.slots@;
        let ghost g0 = world.next_generation;
        let picked = self.enemy_types[pos];
        match picked {
            EnemyType::Walker => create_walker(world),
            EnemyType::Shooter => create_shooter(world),
            EnemyType::Flyer => create_flyer(world),
            EnemyType::FireballShower => {
                create_fireball_shower(world, FireballShowerConfig::default());
                proof {
                    let (xi, xe, st) = choose|xi: i64, xe: i64, st: i64|
                        {
                            &&& 0 <= xi < 100
                            &&& 810 <= xe < 900
                            &&& 90 <= st < 120
                            &&& world.slots@.len() == pre.len() + crate::enemy::shower_count(
                                xi as int,
                                xe as int,
                                st as int,
                            )
                        };
                    lemma_shower_count_nonneg(xi as int, xe as int, st as int);
                }
            },
        }
        let ghost mid = world.slots@;
        proof {
            assert(spawn_of(picked, pre, mid, g0));
        }
        let healing_tick: bool = match self.healing_interval {
            Some(iv) => self.counter % iv == 0,
            None => false,
        };
        if healing_tick {
            let hconfig = HealingConfig::default();
            let ghost hc = hconfig;
            create_healing_potion(world, hconfig);
            proof {
                assert(stock_healing_config(hc));
            }
        }
        self.counter = sat_add64(self.counter, 1);
        proof {
            assert forall|k: int|
                pre.len() <= k < world.slots@.len() implies (#[trigger] world.slots@[k]).hero
                is None by {
                if k < mid.len() {
                    assert(world.slots@[k] == mid[k]);
                }
            }
            let pos_g = pos as int;
            assert(0 <= pos_g < old(self).enemy_types@.len());
            assert(spawn_of(old(self).enemy_types@[pos_g], old(world).slots@, mid, old(
                world,
            ).next_generation));
        }
    }
}

} // verus!
