//! The fixed per-tick pipeline.  While the round is running the scene
//! controller invokes the systems strictly in this order:
//! [`hero_control::HeroControlSystem`], [`walk::WalkSystem`],
//! [`fireball::FireballSystem`], [`collision::CollisionSystem`],
//! [`out_of_bounds::OutOfBoundsSystem`], [`hero_blinking::HeroBlinkingSystem`];
//! the order is a correctness requirement, not an optimisation.  The two
//! render passes are read-only plans handed to the drawing backend.

pub mod collision;
pub mod fireball;
pub mod hero_blinking;
pub mod hero_control;
pub mod out_of_bounds;
pub mod render;
pub mod walk;

pub use collision::CollisionSystem;
pub use fireball::FireballSystem;
pub use hero_blinking::HeroBlinkingSystem;
pub use hero_control::HeroControlSystem;
pub use out_of_bounds::OutOfBoundsSystem;
pub use render::{LabelRenderSystem, RenderSystem};
pub use walk::WalkSystem;
