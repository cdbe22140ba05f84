//! The component records that entities carry.
//!
//! A component is plain data with no behaviour.  Coordinates live in
//! milli-units, velocities in world units per second, timers in
//! milliseconds and the shooter's aim coefficients in thousandths, so that
//! every rule of the simulation is exact integer arithmetic.

use crate::geom::{Extent, Vec2};
use crate::resources::LabelVariable;
use vstd::prelude::*;

verus! {

/// Current world coordinate, in milli-units.
#[derive(Clone, Copy, Debug, PartialEq, Eq, Structural)]
pub struct Position {
    pub position: Vec2,
}

/// World units per second.
#[derive(Clone, Copy, Debug, PartialEq, Eq, Structural)]
pub struct Velocity {
    pub velocity: Vec2,
}

/// Sprite key plus the bounding box cached on first draw; while the box is
/// absent the entity cannot collide.
#[derive(Clone, Debug, PartialEq)]
pub struct Render {
    pub sprite: String,
    pub bounding_box: Option<Extent>,
}

/// Governs projectile spawning: the fireball system tops the live owned
/// count up to `maximum_fireballs` each tick.  The aim coefficients are in
/// thousandths; shot `k` (counted from 0) leaves with horizontal velocity
/// `-(coefficient_1 * (k + 1) + coefficient_2 + jitter)` units per second.
#[derive(Clone, Debug, PartialEq)]
pub struct Shooter {
    pub projectile_sprite: String,
    pub maximum_fireballs: u64,
    pub fireball_amount: u64,
    pub coefficient_1: i64,
    pub coefficient_2: i64,
}

/// A HUD text bound to one variable of the label dictionary.
#[derive(Clone, Copy, Debug, PartialEq, Eq, Structural)]
pub struct Label {
    pub bind_variable: LabelVariable,
}

/// The player's singleton record; `lives` never goes negative, and
/// `blinking` grants damage immunity while the blink timer runs.
#[derive(Clone, Copy, Debug, PartialEq, Eq, Structural)]
pub struct Hero {
    pub lives: i64,
    pub score: i64,
    pub blinking: bool,
    pub render: bool,
    pub reset_position: bool,
    pub blink_timer: u64,
}

/// Boss health: `lives` reaching 0 ends the round in victory,
/// `normal_lives` reaching 0 triggers the angry phase.
#[derive(Clone, Copy, Debug, PartialEq, Eq, Structural)]
pub struct Boss {
    pub lives: i64,
    pub normal_lives: i64,
}

/// A sprite swap: once `do_change` is raised the render pass shows
/// `new_sprite` instead of the entity's own.
#[derive(Clone, Debug, PartialEq)]
pub struct ChangeSprite {
    pub new_sprite: String,
    pub do_change: bool,
}

/// A stompable foe worth `score` points.
#[derive(Clone, Copy, Debug, PartialEq, Eq, Structural)]
pub struct Enemy {
    pub score: i64,
}

/// A pickup restoring one life and worth `score` points.
#[derive(Clone, Copy, Debug, PartialEq, Eq, Structural, Default)]
pub struct Healing {
    pub score: i64,
}

/// Marker: a backdrop, drawn but inert.
#[derive(Clone, Copy, Debug, PartialEq, Eq, Structural, Default)]
pub struct Background;

/// Marker: the out-of-bounds pass watches this entity.
#[derive(Clone, Copy, Debug, PartialEq, Eq, Structural, Default)]
pub struct CalculateOutOfBounds;

/// A projectile; `owner_id` names the shooter's slot, or is absent for the
/// ambient fireball shower.
#[derive(Clone, Copy, Debug, PartialEq, Eq, Structural, Default)]
pub struct Fireball {
    pub owner_id: Option<usize>,
}

} // verus!
