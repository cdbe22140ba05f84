//! The hero archetype: its spawn bundle and the body/feet split used by the
//! collision rules.

use crate::component::{CalculateOutOfBounds, Hero, Position, Render, Velocity};
use crate::geom::{Rect, Vec2};
use crate::num::{sat64, sat_add64};
use crate::text::string_of;
use crate::world::{next_gen, EntityId, Slot, SpawnBundle, World};
use vstd::prelude::*;

verus! {

/// Height of the hero's "feet" band, in milli-units.
pub const HERO_FEET_HEIGHT: i64 = 10_000;

/// Splits the hero's bounding box, re-centred at `position`, into the body
/// (everything above the feet) and the feet (the bottom band), returned in
/// that order.  Corners are floored halves, saturated on the `i64` range.
pub fn get_hero_body_feet_area(self_area: Rect, position: Vec2) -> (r: (Rect, Rect))
    requires
        self_area.width >= 0,
        self_area.height >= 0,
    ensures
        r.0.x as int == sat64(position.x - self_area.width / 2),
        r.0.y as int == sat64(position.y - self_area.height / 2),
        r.0.width == self_area.width,
        r.0.height == self_area.height - HERO_FEET_HEIGHT,
        r.1.x == r.0.x,
        r.1.y as int == sat64(r.0.y + (self_area.height - HERO_FEET_HEIGHT)),
        r.1.width == self_area.width,
        r.1.height == HERO_FEET_HEIGHT,
{
    let centered = self_area.with_center(position);
    let body = Rect {
        x: centered.x,
        y: centered.y,
        width: centered.width,
        height: centered.height - HERO_FEET_HEIGHT,
    };
    let feet = Rect {
        x: centered.x,
        y: sat_add64(centered.y, centered.height - HERO_FEET_HEIGHT),
        width: centered.width,
        height: HERO_FEET_HEIGHT,
    };
    (body, feet)
}

/// What a hero is spawned from.
#[derive(Clone, Debug)]
pub struct HeroConfig {
    pub sprite: String,
    pub position: Vec2,
    pub lives: i64,
}

impl Default for HeroConfig {
    /// The stock hero: five lives, standing on the ground mid-screen.
    fn default() -> (c: HeroConfig)
        ensures
            c.sprite@ == "heroi"@,
            c.position == (Vec2 { x: 425_000, y: 425_000 }),
            c.lives == 5,
    {
        HeroConfig {
            sprite: string_of("heroi"),
            position: Vec2 { x: 425_000, y: 425_000 },
            lives: 5,
        }
    }
}

impl HeroConfig {
    /// An equal copy.
    pub fn duplicate(&self) -> (c: HeroConfig)
        ensures
            c == *self,
    {
        HeroConfig {
            sprite: self.sprite.clone(),
            position: self.position,
            lives: self.lives,
        }
    }
}

/// The component bundle a hero config unfolds to.
pub open spec fn hero_bundle(config: HeroConfig) -> SpawnBundle {
    SpawnBundle {
        hero: Some(
            Hero {
                lives: config.lives,
                score: 0,
                blinking: false,
                render: true,
                reset_position: false,
                blink_timer: 0,
            },
        ),
        out_of_bounds: Some(CalculateOutOfBounds),
        position: Some(Position { position: config.position }),
        velocity: Some(Velocity { velocity: Vec2 { x: 0, y: 0 } }),
        render: Some(Render { sprite: config.sprite, bounding_box: None }),
        ..SpawnBundle::spec_empty()
    }
}

/// Creates the hero immediately (scene setup runs outside the pipeline).
pub fn create_hero(world: &mut World, config: HeroConfig) -> (id: EntityId)
    requires
        config.lives >= 0,
    ensures
        final(world).slots@ == old(world).slots@.push(
            Slot::from_bundle(hero_bundle(config), old(world).next_generation),
        ),
        final(world).next_generation == next_gen(old(world).next_generation),
        final(world).pending_spawns@ == old(world).pending_spawns@,
        final(world).pending_deletes@ == old(world).pending_deletes@,
        id.index == old(world).slots@.len(),
        id.generation == old(world).next_generation,
{
    let mut bundle = SpawnBundle::empty();
    bundle.hero = Some(
        Hero {
            lives: config.lives,
            score: 0,
            blinking: false,
            render: true,
            reset_position: false,
            blink_timer: 0,
        },
    );
    bundle.out_of_bounds = Some(CalculateOutOfBounds);
    bundle.position = Some(Position { position: config.position });
    bundle.velocity = Some(Velocity { velocity: Vec2 { x: 0, y: 0 } });
    bundle.render = Some(Render { sprite: config.sprite, bounding_box: None });
    world.create(bundle)
}

} // verus!
