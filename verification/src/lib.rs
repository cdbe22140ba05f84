//! Runtime simulation core of a small 2D arcade game: an entity-component
//! store with deferred structural mutation, a fixed per-tick pipeline of
//! systems (input, integration, projectile spawning, collision resolution,
//! out-of-bounds cleanup, blink timing), spawning factories for each entity
//! archetype, and a scene controller that drives wave scheduling and the
//! round's state machine.
//!
//! Everything that decides or computes lives here and is verified; drawing,
//! audio playback, wall-clock time and the window loop are outside
//! collaborators that exchange plain values with this crate.

pub mod component;
pub mod enemy;
pub mod entity_factory;
pub mod geom;
pub mod healing;
pub mod hero;
pub mod music;
pub mod num;
pub mod resources;
pub mod scene;
pub mod system;
pub mod text;
pub mod world;
mod rng;
