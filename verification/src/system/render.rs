//! The two read-only render plans.  Drawing itself is an outside
//! collaborator: these passes compute exactly what should be drawn where,
//! and the backend reports each sprite's bounding box back through
//! [`crate::world::World::set_bounding_box`] — the cache that first makes an
//! entity collidable.

use crate::geom::Vec2;
use crate::resources::{LabelVariable, VariableDictionary};
use crate::world::{Slot, World};
use vstd::prelude::*;

verus! {

/// One sprite draw request: table row, sprite key, centre position.
#[derive(Clone, Debug)]
pub struct DrawCommand {
    pub index: usize,
    pub sprite: String,
    pub position: Vec2,
}

/// One label draw request: table row, display text, centre position.
#[derive(Clone, Debug)]
pub struct LabelCommand {
    pub index: usize,
    pub text: String,
    pub position: Vec2,
}

/// The sprite-drawing plan.
pub struct RenderSystem;

/// The label-drawing plan.
pub struct LabelRenderSystem;

/// Whether row `s` is drawn: live, positioned, renderable, and — for the
/// hero — currently visible in the blink cycle.
pub open spec fn drawn(s: Slot) -> bool {
    &&& s.alive
    &&& s.position is Some
    &&& s.render is Some
    &&& (s.hero is Some ==> s.hero->Some_0.render)
}

/// The sprite a drawn row shows: its swap sprite once the swap fired, else
/// its own.
pub open spec fn sprite_of(s: Slot) -> String {
    if s.change_sprite is Some && s.change_sprite->Some_0.do_change {
        s.change_sprite->Some_0.new_sprite
    } else {
        s.render->Some_0.sprite
    }
}

/// The draw requests for the first `n` rows, in row order.
pub open spec fn draw_plan(slots: Seq<Slot>, n: int) -> Seq<DrawCommand>
    decreases n,
{
    if n <= 0 {
        Seq::empty()
    } else {
        let rest = draw_plan(slots, n - 1);
        if drawn(slots[n - 1]) {
            rest.push(
                DrawCommand {
                    index: (n - 1) as usize,
                    sprite: sprite_of(slots[n - 1]),
                    position: slots[n - 1].position->Some_0.position,
                },
            )
        } else {
            rest
        }
    }
}

/// Whether row `s` carries a label bound to a variable the dictionary
/// holds text for.
pub open spec fn labelled(s: Slot) -> bool {
    &&& s.alive
    &&& s.position is Some
    &&& s.label is Some
    &&& s.label->Some_0.bind_variable != LabelVariable::EngineVersion
}

/// The text a labelled row shows.  The dictionary carries no text for
/// `EngineVersion`, and `labelled` excludes it, so that arm is never
/// reached.
pub open spec fn label_text(s: Slot, dict: VariableDictionary) -> String {
    match s.label->Some_0.bind_variable {
        LabelVariable::HeroLives => dict.hero_lives,
        LabelVariable::FramesPerSecond => dict.frames_per_second,
        LabelVariable::Score => dict.score,
        LabelVariable::EngineVersion => dict.score,
    }
}

/// The label requests for the first `n` rows, in row order.
pub open spec fn label_plan(slots: Seq<Slot>, dict: VariableDictionary, n: int) -> Seq<
    LabelCommand,
>
    decreases n,
{
    if n <= 0 {
        Seq::empty()
    } else {
        let rest = label_plan(slots, dict, n - 1);
        if labelled(slots[n - 1]) {
            rest.push(
                LabelCommand {
                    index: (n - 1) as usize,
                    text: label_text(slots[n - 1], dict),
                    position: slots[n - 1].position->Some_0.position,
                },
            )
        } else {
            rest
        }
    }
}

impl RenderSystem {
    /// Computes the draw requests for the whole table, in row order.  The
    /// world itself is untouched.
    pub fn run(world: &World) -> (r: Vec<DrawCommand>)
        ensures
            r@ == draw_plan(world.slots@, world.slots@.len() as int),
    {
        let n = world.slots.len();
        let mut r: Vec<DrawCommand> = Vec::new();
        let mut i: usize = 0;
        while i < n
            invariant
                i <= n,
                n == world.slots@.len(),
                r@ == draw_plan(world.slots@, i as int),
            decreases n - i,
        {
            let row = &world.slots[i];
            let visible = row.alive && row.position.is_some() && row.render.is_some() && match &row.hero {
                Some(h) => h.render,
                None => true,
            };
            if visible {
                let sprite = match &row.change_sprite {
                    Some(cs) => if cs.do_change {
                        cs.new_sprite.clone()
                    } else {
                        match &row.render {
                            Some(render) => render.sprite.clone(),
                            None => String::new(),
                        }
                    },
                    None => match &row.render {
                        Some(render) => render.sprite.clone(),
                        None => String::new(),
                    },
                };
                let position = match &row.position {
                    Some(p) => p.position,
                    None => Vec2 { x: 0, y: 0 },
                };
                r.push(DrawCommand { index: i, sprite, position });
            }
            i = i + 1;
        }
        r
    }
}

impl LabelRenderSystem {
    /// Computes the label requests for the whole table, in row order.
    pub fn run(world: &World, dict: &VariableDictionary) -> (r: Vec<LabelCommand>)
        ensures
            r@ == label_plan(world.slots@, *dict, world.slots@.len() as int),
    {
        let n = world.slots.len();
        let mut r: Vec<LabelCommand> = Vec::new();
        let mut i: usize = 0;
        while i < n
            invariant
                i <= n,
                n == world.slots@.len(),
                r@ == label_plan(world.slots@, *dict, i as int),
            decreases n - i,
        {
            let row = &world.slots[i];
            let bound: Option<LabelVariable> = match &row.label {
                Some(label) => Some(label.bind_variable),
                None => None,
            };
            let has = row.alive && row.position.is_some() && match bound {
                Some(v) => !matches!(v, LabelVariable::EngineVersion),
                None => false,
            };
            if has {
                let text = match bound {
                    Some(LabelVariable::HeroLives) => dict.hero_lives.clone(),
                    Some(LabelVariable::FramesPerSecond) => dict.frames_per_second.clone(),
                    Some(LabelVariable::Score) => dict.score.clone(),
                    _ => dict.score.clone(),
                };
                let position = match &row.position {
                    Some(p) => p.position,
                    None => Vec2 { x: 0, y: 0 },
                };
                r.push(LabelCommand { index: i, text, position });
            }
            i = i + 1;
        }
        r
    }
}

} // verus!
