//! Round-scoped shared resources: the outcome flag, the pressed-key
//! snapshot, the elapsed-time delta and the label-text dictionary.  Each is
//! plain data rebuilt or mutated once per tick and handed to the systems by
//! the scene controller.

use vstd::prelude::*;

verus! {

/// The variables a HUD label can be bound to.
#[derive(Clone, Copy, Debug, PartialEq, Eq, Structural)]
pub enum LabelVariable {
    HeroLives,
    FramesPerSecond,
    Score,
    EngineVersion,
}

/// How the round ended.
#[derive(Clone, Copy, Debug, PartialEq, Eq, Structural)]
pub enum GameStateFlag {
    Victory,
    Defeat,
}

/// The outcome flag the collision pass raises and the controller consumes.
#[derive(Clone, Copy, Debug, PartialEq, Eq, Structural, Default)]
pub struct GameStateFlagRes {
    pub flag: Option<GameStateFlag>,
}

/// Current display text for each bound label variable.
#[derive(Clone, Debug, PartialEq)]
pub struct VariableDictionary {
    pub hero_lives: String,
    pub frames_per_second: String,
    pub score: String,
}

impl VariableDictionary {
    /// The text bound to `variable`, if the dictionary carries one;
    /// `EngineVersion` is not carried.
    pub fn get(&self, variable: LabelVariable) -> (r: Option<&String>)
        ensures
            variable == LabelVariable::HeroLives ==> r == Some(&self.hero_lives),
            variable == LabelVariable::FramesPerSecond ==> r == Some(&self.frames_per_second),
            variable == LabelVariable::Score ==> r == Some(&self.score),
            variable == LabelVariable::EngineVersion ==> r is None,
    {
        match variable {
            LabelVariable::HeroLives => Some(&self.hero_lives),
            LabelVariable::FramesPerSecond => Some(&self.frames_per_second),
            LabelVariable::Score => Some(&self.score),
            LabelVariable::EngineVersion => None,
        }
    }
}

/// The movement keys the simulation reads.
#[derive(Clone, Copy, Debug, PartialEq, Eq, Structural)]
pub enum KeyboardKeys {
    KeyUp,
    KeyLeft,
    KeyRight,
}

/// Snapshot of the pressed movement keys for the current tick.
#[derive(Clone, Copy, Debug, PartialEq, Eq, Structural, Default)]
pub struct PressedKeys {
    pub up: bool,
    pub left: bool,
    pub right: bool,
}

impl PressedKeys {
    /// No key held.
    pub fn new() -> (r: PressedKeys)
        ensures
            r == (PressedKeys { up: false, left: false, right: false }),
    {
        PressedKeys { up: false, left: false, right: false }
    }

    pub open spec fn spec_contains(self, key: KeyboardKeys) -> bool {
        match key {
            KeyboardKeys::KeyUp => self.up,
            KeyboardKeys::KeyLeft => self.left,
            KeyboardKeys::KeyRight => self.right,
        }
    }

    /// Whether `key` is currently held.
    pub fn contains(&self, key: KeyboardKeys) -> (r: bool)
        ensures
            r == self.spec_contains(key),
    {
        match key {
            KeyboardKeys::KeyUp => self.up,
            KeyboardKeys::KeyLeft => self.left,
            KeyboardKeys::KeyRight => self.right,
        }
    }

    pub open spec fn spec_set(self, key: KeyboardKeys, held: bool) -> PressedKeys {
        match key {
            KeyboardKeys::KeyUp => PressedKeys { up: held, ..self },
            KeyboardKeys::KeyLeft => PressedKeys { left: held, ..self },
            KeyboardKeys::KeyRight => PressedKeys { right: held, ..self },
        }
    }

    /// Records that `key` was pressed.
    pub fn add(&mut self, key: KeyboardKeys)
        ensures
            *final(self) == old(self).spec_set(key, true),
    {
        match key {
            KeyboardKeys::KeyUp => self.up = true,
            KeyboardKeys::KeyLeft => self.left = true,
            KeyboardKeys::KeyRight => self.right = true,
        }
    }

    /// Records that `key` was released.
    pub fn remove(&mut self, key: KeyboardKeys)
        ensures
            *final(self) == old(self).spec_set(key, false),
    {
        match key {
            KeyboardKeys::KeyUp => self.up = false,
            KeyboardKeys::KeyLeft => self.left = false,
            KeyboardKeys::KeyRight => self.right = false,
        }
    }
}

/// Wall-clock time elapsed since the previous tick, in milliseconds,
/// unclamped: a stalled frame yields one oversized integration step.
#[derive(Clone, Copy, Debug, PartialEq, Eq, Structural, Default)]
pub struct DeltaTime {
    pub milliseconds: u64,
}

} // verus!
