//! The healing-pickup archetype: a potion that falls from a random spot at
//! the top of the screen and restores one life on touch.

use crate::component::{CalculateOutOfBounds, Healing, Position, Render, Velocity};
use crate::geom::Vec2;
use crate::rng::pick_in_range;
use crate::text::string_of;
use crate::world::{next_gen, EntityId, Slot, SpawnBundle, World};
use vstd::prelude::*;

verus! {

/// What a healing pickup is spawned from.
#[derive(Clone, Debug)]
pub struct HealingConfig {
    pub sprite: String,
    pub position: Vec2,
    pub velocity: Vec2,
    pub score: i64,
}

impl Default for HealingConfig {
    /// The stock potion: worth 50 points, falling at 250 units per second
    /// from a uniformly random x above the screen.
    fn default() -> (c: HealingConfig)
        ensures
            c.sprite@ == "potion"@,
            50_000 <= c.position.x < 700_000,
            c.position.y == -100_000,
            c.velocity == (Vec2 { x: 0, y: 250 }),
            c.score == 50,
    {
        HealingConfig {
            sprite: string_of("potion"),
            position: Vec2 { x: pick_in_range(50_000, 700_000), y: -100_000 },
            velocity: Vec2 { x: 0, y: 250 },
            score: 50,
        }
    }
}

/// The stock potion the factory drops on a healing tick.
pub open spec fn stock_healing_config(c: HealingConfig) -> bool {
    &&& c.sprite@ == "potion"@
    &&& 50_000 <= c.position.x < 700_000
    &&& c.position.y == (-100_000) as i64
    &&& c.velocity == (Vec2 { x: 0, y: 250 })
    &&& c.score == 50
}

/// The component bundle a healing config unfolds to.
pub open spec fn healing_bundle(config: HealingConfig) -> SpawnBundle {
    SpawnBundle {
        out_of_bounds: Some(CalculateOutOfBounds),
        position: Some(Position { position: config.position }),
        velocity: Some(Velocity { velocity: config.velocity }),
        render: Some(Render { sprite: config.sprite, bounding_box: None }),
        healing: Some(Healing { score: config.score }),
        ..SpawnBundle::spec_empty()
    }
}

/// Creates a healing pickup immediately.
pub fn create_healing_potion(world: &mut World, config: HealingConfig) -> (id: EntityId)
    ensures
        final(world).slots@ == old(world).slots@.push(
            Slot::from_bundle(healing_bundle(config), old(world).next_generation),
        ),
        final(world).next_generation == next_gen(old(world).next_generation),
        final(world).pending_spawns@ == old(world).pending_spawns@,
        final(world).pending_deletes@ == old(world).pending_deletes@,
        id.index == old(world).slots@.len(),
        id.generation == old(world).next_generation,
{
    let mut bundle = SpawnBundle::empty();
    bundle.out_of_bounds = Some(CalculateOutOfBounds);
    bundle.position = Some(Position { position: config.position });
    bundle.velocity = Some(Velocity { velocity: config.velocity });
    bundle.render = Some(Render { sprite: config.sprite, bounding_box: None });
    bundle.healing = Some(Healing { score: config.score });
    world.create(bundle)
}

} // verus!
