//! The scene controller: owns the entity store and the per-round state
//! machine (initializing → running → game over), advances the wave
//! scheduler, runs the system pipeline each tick in its fixed order,
//! interprets the outcome flag and reconciles the store once per frame.
//! Audio is an outside collaborator: a tick returns the track requests it
//! wants played, in order.

use crate::component::{Background, Label, Position, Render};
use crate::enemy::{boss_bundle, create_boss, BossConfig};
use crate::entity_factory::{factory_wf, wave_spawn_effect, EntityFactory, EntityFactoryConfig};
use crate::geom::Vec2;
use crate::hero::{create_hero, hero_bundle, HeroConfig};
use crate::music::Music;
use crate::resources::{
    DeltaTime, GameStateFlag, GameStateFlagRes, KeyboardKeys, LabelVariable, PressedKeys,
    VariableDictionary,
};
use crate::system::collision::{
    collision_spec, heroes_nonneg, lemma_collision_heroes_nonneg, CollisionState, CollisionSystem,
};
use crate::system::fireball::{
    row_have, row_need, spawn_index, spawned_ok, topped_slot, total_need, FireballSystem,
};
use crate::system::hero_blinking::{blink_slot, HeroBlinkingSystem};
use crate::system::hero_control::{control_slot, HeroControlSystem};
use crate::system::out_of_bounds::{clamp_slot, oob_deletes, OutOfBoundsSystem};
use crate::system::walk::{walk_slot, WalkSystem};
use crate::text::{dec_string, i64_to_string, string_of};
use crate::world::{after_deletes, gen_plus, next_gen, EntityId, Slot, SpawnBundle, World};
use vstd::prelude::*;

verus! {

/// The round's state machine.
#[derive(Clone, Copy, Debug, PartialEq, Eq, Structural)]
pub enum GameState {
    Initializing,
    Running,
    GameOver,
}

/// Everything one round is configured from.
#[derive(Clone, Debug)]
pub struct SceneConfig {
    pub atlas: String,
    pub font: String,
    pub main_background: String,
    pub defeat_background: String,
    pub victory_background: String,
    pub hero_config: HeroConfig,
    pub boss_config: BossConfig,
    pub entity_factory_config: EntityFactoryConfig,
    pub boss_cycle: u32,
    pub new_body_cycle: u64,
}

/// A usable round configuration: a live hero, a positive wave cadence, a
/// boss wave to reach, and a usable spawn factory.
pub open spec fn scene_config_wf(c: SceneConfig) -> bool {
    &&& c.hero_config.lives >= 0
    &&& c.new_body_cycle >= 1
    &&& c.boss_cycle >= 1
    &&& c.entity_factory_config.enemy_types@.len() > 0
    &&& match c.entity_factory_config.healing_interval {
        Some(iv) => iv >= 1,
        None => true,
    }
}

impl Default for SceneConfig {
    /// The stock round: eleven waves at a cadence of 210 ticks, then the
    /// boss.
    fn default() -> (c: SceneConfig)
        ensures
            c.atlas@ == "evil_alligator.atlas"@,
            c.font@ == "cmunrm.ttf"@,
            c.main_background@ == "cenario"@,
            c.defeat_background@ == "inferno"@,
            c.victory_background@ == "ceu"@,
            c.hero_config.lives == 5,
            c.boss_cycle == 11,
            c.new_body_cycle == 210,
            scene_config_wf(c),
    {
        SceneConfig {
            atlas: string_of("evil_alligator.atlas"),
            font: string_of("cmunrm.ttf"),
            main_background: string_of("cenario"),
            defeat_background: string_of("inferno"),
            victory_background: string_of("ceu"),
            hero_config: HeroConfig::default(),
            boss_config: BossConfig::default(),
            entity_factory_config: EntityFactoryConfig::default(),
            boss_cycle: 11,
            new_body_cycle: 210,
        }
    }
}

/// The component bundle of a backdrop.
pub open spec fn background_bundle(sprite: String) -> SpawnBundle {
    SpawnBundle {
        background: Some(Background),
        position: Some(Position { position: Vec2 { x: 400_000, y: 300_000 } }),
        render: Some(Render { sprite, bounding_box: None }),
        ..SpawnBundle::spec_empty()
    }
}

/// The component bundle of a HUD label.
pub open spec fn label_bundle(variable: LabelVariable, position: Vec2) -> SpawnBundle {
    SpawnBundle {
        label: Some(Label { bind_variable: variable }),
        position: Some(Position { position }),
        ..SpawnBundle::spec_empty()
    }
}

/// Creates a backdrop immediately.
pub fn create_background(world: &mut World, sprite: String) -> (id: EntityId)
    ensures
        final(world).slots@ == old(world).slots@.push(
            Slot::from_bundle(background_bundle(sprite), old(world).next_generation),
        ),
        final(world).next_generation == next_gen(old(world).next_generation),
        final(world).pending_spawns@ == old(world).pending_spawns@,
        final(world).pending_deletes@ == old(world).pending_deletes@,
        id.index == old(world).slots@.len(),
{
    let mut bundle = SpawnBundle::empty();
    bundle.background = Some(Background);
    bundle.position = Some(Position { position: Vec2 { x: 400_000, y: 300_000 } });
    bundle.render = Some(Render { sprite, bounding_box: None });
    world.create(bundle)
}

/// Creates a HUD label immediately.
pub fn create_label(world: &mut World, variable: LabelVariable, position: Vec2) -> (id: EntityId)
    ensures
        final(world).slots@ == old(world).slots@.push(
            Slot::from_bundle(label_bundle(variable, position), old(world).next_generation),
        ),
        final(world).next_generation == next_gen(old(world).next_generation),
        final(world).pending_spawns@ == old(world).pending_spawns@,
        final(world).pending_deletes@ == old(world).pending_deletes@,
        id.index == old(world).slots@.len(),
{
    let mut bundle = SpawnBundle::empty();
    bundle.label = Some(Label { bind_variable: variable });
    bundle.position = Some(Position { position });
    world.create(bundle)
}

/// The wave scheduler's timer after one tick: it counts frames until the
/// boss wave is reached, then freezes.
pub open spec fn wave_timer_after(timer: u64, counter: u32, boss_cycle: u32) -> u64 {
    if counter < boss_cycle {
        if timer < u64::MAX {
            (timer + 1) as u64
        } else {
            timer
        }
    } else {
        timer
    }
}

/// The wave counter after one tick: it advances every `cadence` frames.
pub open spec fn wave_counter_after(timer: u64, counter: u32, boss_cycle: u32, cadence: u64) -> u32 {
    if counter < boss_cycle && cadence > 0 && wave_timer_after(timer, counter, boss_cycle)
        % cadence == 0 {
        (counter + 1) as u32
    } else {
        counter
    }
}

/// Whether this tick starts the round's music (the first running frame).
pub open spec fn wave_plays_normal(timer: u64, counter: u32, boss_cycle: u32) -> bool {
    counter < boss_cycle && timer == 0
}

/// Whether this tick is the boss wave: the counter advances and reaches the
/// boss index, spawning the boss and switching the music, exactly once.
pub open spec fn wave_spawns_boss(timer: u64, counter: u32, boss_cycle: u32, cadence: u64) -> bool {
    &&& counter < boss_cycle
    &&& cadence > 0
    &&& wave_timer_after(timer, counter, boss_cycle) % cadence == 0
    &&& counter + 1 == boss_cycle
}

/// The track requests one scheduler tick emits.
pub open spec fn wave_music(timer: u64, counter: u32, boss_cycle: u32, cadence: u64) -> Seq<
    Music,
> {
    (if wave_plays_normal(timer, counter, boss_cycle) {
        seq![Music::NormalMusic]
    } else {
        Seq::empty()
    }).add(
        if wave_spawns_boss(timer, counter, boss_cycle, cadence) {
            seq![Music::BossMusic]
        } else {
            Seq::empty()
        },
    )
}

/// The table after the control and walk passes of one tick.
pub open spec fn moved_slots(w: Seq<Slot>, keys: PressedKeys, t: u64) -> Seq<Slot> {
    Seq::new(w.len(), |i: int| walk_slot(control_slot(w[i], keys), t))
}

/// The same table once the projectile pass has refreshed every shooter's
/// bookkeeping.
pub open spec fn armed_slots(w: Seq<Slot>, keys: PressedKeys, t: u64) -> Seq<Slot> {
    let m = moved_slots(w, keys, t);
    Seq::new(m.len(), |i: int| topped_slot(m, i))
}

/// The collision outcome of the tick, resolved on the wave-spawned table
/// `w` after the control, walk and projectile passes.
pub open spec fn tick_collision(
    w: Seq<Slot>,
    keys: PressedKeys,
    t: u64,
    flag0: Option<GameStateFlag>,
) -> CollisionState {
    collision_spec(armed_slots(w, keys, t), flag0)
}

/// The table at the end of the pipeline: collision, then the horizontal
/// clamp, then the blink step.
pub open spec fn pipeline_slots(
    w: Seq<Slot>,
    keys: PressedKeys,
    t: u64,
    flag0: Option<GameStateFlag>,
) -> Seq<Slot> {
    let c = tick_collision(w, keys, t, flag0);
    Seq::new(c.slots.len(), |i: int| blink_slot(clamp_slot(c.slots[i]), t))
}

/// Every deletion the tick queues, in order: the collision pass's kills,
/// then the out-of-bounds discards.
pub open spec fn pipeline_deletes(
    w: Seq<Slot>,
    keys: PressedKeys,
    t: u64,
    flag0: Option<GameStateFlag>,
) -> Seq<EntityId> {
    let c = tick_collision(w, keys, t, flag0);
    let clamped = Seq::new(c.slots.len(), |i: int| clamp_slot(c.slots[i]));
    c.kills + oob_deletes(clamped, clamped.len() as int)
}

/// The deferred projectile queue the tick builds: exactly the fireball
/// pass's shortfall spawns over the moved table, in row order.
pub open spec fn tick_spawn_queue_ok(q: Seq<SpawnBundle>, m: Seq<Slot>) -> bool {
    &&& q.len() == total_need(m, m.len() as int)
    &&& forall|i: int, j: int|
        0 <= i < m.len() && 0 <= j < row_need(m, i) ==> spawned_ok(
            q[#[trigger] spawn_index(m, i, j)],
            m,
            i,
            row_have(m, i) + j,
        )
}

/// The wave phase's effect on the table: nothing off-cadence, the boss
/// bundle exactly on the boss wave, one factory wave otherwise.
pub open spec fn wave_effect(s: Scene, w1: Seq<Slot>, g1: u64) -> bool {
    let timer1 = wave_timer_after(s.cycle_timer, s.cycle_counter, s.config.boss_cycle);
    if s.cycle_counter < s.config.boss_cycle && s.config.new_body_cycle > 0 && timer1
        % s.config.new_body_cycle == 0 {
        if s.cycle_counter + 1 == s.config.boss_cycle {
            &&& w1 == s.world.slots@.push(
                Slot::from_bundle(boss_bundle(s.config.boss_config), s.world.next_generation),
            )
            &&& g1 == next_gen(s.world.next_generation)
        } else {
            wave_spawn_effect(s.entity_factory, s.world.slots@, w1, s.world.next_generation)
        }
    } else {
        w1 == s.world.slots@ && g1 == s.world.next_generation
    }
}

/// How the outcome flag is interpreted: victory and defeat end the round,
/// deleting every entity and appending the matching backdrop under stamp
/// `g`; no flag leaves the table alone.
pub open spec fn outcome_slots(
    p: Seq<Slot>,
    flag: Option<GameStateFlag>,
    g: u64,
    config: SceneConfig,
) -> Seq<Slot> {
    match flag {
        None => p,
        Some(GameStateFlag::Victory) => Seq::new(p.len(), |i: int| p[i].killed()).push(
            Slot::from_bundle(background_bundle(config.victory_background), g),
        ),
        Some(GameStateFlag::Defeat) => Seq::new(p.len(), |i: int| p[i].killed()).push(
            Slot::from_bundle(background_bundle(config.defeat_background), g),
        ),
    }
}

/// The closing track each outcome requests.
pub open spec fn outcome_music(flag: Option<GameStateFlag>) -> Seq<Music> {
    match flag {
        None => Seq::empty(),
        Some(GameStateFlag::Victory) => seq![Music::VictoryMusic],
        Some(GameStateFlag::Defeat) => seq![Music::GameOverMusic],
    }
}

/// The state each outcome leaves the round in.
pub open spec fn outcome_state(flag: Option<GameStateFlag>) -> GameState {
    if flag is Some {
        GameState::GameOver
    } else {
        GameState::Running
    }
}

/// The scheduler state `(timer, counter)` after `n` ticks from a fresh
/// round.
pub open spec fn wave_state_n(n: nat, boss_cycle: u32, cadence: u64) -> (u64, u32)
    decreases n,
{
    if n == 0 {
        (0u64, 0u32)
    } else {
        let prev = wave_state_n((n - 1) as nat, boss_cycle, cadence);
        (
            wave_timer_after(prev.0, prev.1, boss_cycle),
            wave_counter_after(prev.0, prev.1, boss_cycle, cadence),
        )
    }
}

/// Law: from a fresh round with cadence `c` and boss wave `b`, the first
/// `c * b` ticks count frames one by one and advance the wave counter every
/// `c` frames, and the boss branch fires on tick `n` exactly when
/// `n == c * b` — once, with the music switch on that same tick.
pub proof fn lemma_wave_schedule(n: nat, b: u32, c: u64)
    requires
        1 <= c,
        1 <= b,
        n <= c * b,
        (c as int) * (b as int) < u64::MAX,
    ensures
        wave_state_n(n, b, c).0 == n,
        wave_state_n(n, b, c).1 == (n as int) / (c as int),
        n >= 1 ==> (wave_spawns_boss(
            wave_state_n((n - 1) as nat, b, c).0,
            wave_state_n((n - 1) as nat, b, c).1,
            b,
            c,
        ) <==> n == c * b),
    decreases n,
{
    if n == 0 {
        assert(0int / c as int == 0) by (nonlinear_arith)
            requires
                c >= 1,
        ;
    } else {
        lemma_wave_schedule((n - 1) as nat, b, c);
        let m = (n - 1) as nat;
        assert((m as int) / (c as int) < (b as int)) by (nonlinear_arith)
            requires
                c >= 1,
                b >= 1,
                0 <= (m as int),
                (m as int) < (c as int) * (b as int),
        ;
        assert(n < u64::MAX);
        if (n as int) % (c as int) == 0 {
            assert((n as int) / (c as int) == (m as int) / (c as int) + 1 && ((n as int) / (
            c as int)) * (c as int) == n as int) by (nonlinear_arith)
                requires
                    c >= 1,
                    (n as int) == (m as int) + 1,
                    0 <= (m as int),
                    (n as int) % (c as int) == 0,
            ;
            assert(((m as int) / (c as int) + 1 == b as int) <==> n as int == (c as int) * (
            b as int)) by (nonlinear_arith)
                requires
                    c >= 1,
                    b >= 1,
                    (n as int) <= (c as int) * (b as int),
                    ((n as int) / (c as int)) * (c as int) == n as int,
                    (n as int) / (c as int) == (m as int) / (c as int) + 1,
            ;
        } else {
            assert((n as int) / (c as int) == (m as int) / (c as int)) by (nonlinear_arith)
                requires
                    c >= 1,
                    (n as int) == (m as int) + 1,
                    0 <= (m as int),
                    (n as int) % (c as int) != 0,
            ;
            assert((n as int) != (c as int) * (b as int)) by (nonlinear_arith)
                requires
                    c >= 1,
                    (n as int) % (c as int) != 0,
                    (b as int) >= 1,
            ;
        }
    }
}

/// The scene: store, state machine, scheduler, resources and configuration.
pub struct Scene {
    pub world: World,
    pub hero: EntityId,
    pub state: GameState,
    pub cycle_timer: u64,
    pub cycle_counter: u32,
    pub entity_factory: EntityFactory,
    pub config: SceneConfig,
    pub flag: GameStateFlagRes,
    pub pressed_keys: PressedKeys,
    pub delta: DeltaTime,
    pub dictionary: VariableDictionary,
}

/// A scene stays usable while its factory and cadence do; between ticks
/// both deferred queues are empty (the tick that fills them drains them).
pub open spec fn scene_wf(s: Scene) -> bool {
    &&& factory_wf(s.entity_factory)
    &&& s.config.new_body_cycle >= 1
    &&& s.world.pending_spawns@.len() == 0
    &&& s.world.pending_deletes@.len() == 0
}

/// The five entities a fresh scene holds: the backdrop, three HUD labels,
/// and the hero.
pub open spec fn initial_slots(config: SceneConfig) -> Seq<Slot> {
    seq![
        Slot::from_bundle(background_bundle(config.main_background), 0),
        Slot::from_bundle(
            label_bundle(LabelVariable::FramesPerSecond, Vec2 { x: 20_000, y: 587_000 }),
            1,
        ),
        Slot::from_bundle(label_bundle(LabelVariable::HeroLives, Vec2 { x: 10_000, y: 20_000 }), 2),
        Slot::from_bundle(label_bundle(LabelVariable::Score, Vec2 { x: 730_000, y: 20_000 }), 3),
        Slot::from_bundle(hero_bundle(config.hero_config), 4),
    ]
}

impl Scene {
    /// Builds a fresh round: backdrop, HUD labels and hero in the store,
    /// scheduler at zero, waiting for the assets before running.
    pub fn new(config: SceneConfig) -> (s: Scene)
        requires
            scene_config_wf(config),
        ensures
            s.state == GameState::Initializing,
            s.cycle_timer == 0,
            s.cycle_counter == 0,
            s.flag.flag is None,
            s.pressed_keys == (PressedKeys { up: false, left: false, right: false }),
            s.config == config,
            s.world.slots@ == initial_slots(config),
            s.world.pending_spawns@.len() == 0,
            s.world.pending_deletes@.len() == 0,
            s.hero.index == 4,
            s.hero.generation == 4,
            s.delta.milliseconds == 0,
            s.dictionary.hero_lives@ == "5"@,
            s.dictionary.frames_per_second@ == "60"@,
            s.dictionary.score@ == "0"@,
            scene_wf(s),
    {
        let mut world = World::new();
        create_background(&mut world, config.main_background.clone());
        create_label(
            &mut world,
            LabelVariable::FramesPerSecond,
            Vec2 { x: 20_000, y: 587_000 },
        );
        create_label(&mut world, LabelVariable::HeroLives, Vec2 { x: 10_000, y: 20_000 });
        create_label(&mut world, LabelVariable::Score, Vec2 { x: 730_000, y: 20_000 });
        let hero = create_hero(&mut world, config.hero_config.duplicate());
        let entity_factory = EntityFactory::new(config.entity_factory_config.duplicate());
        proof {
            assert(world.slots@ =~= initial_slots(config));
        }
        Scene {
            world,
            hero,
            state: GameState::Initializing,
            cycle_timer: 0,
            cycle_counter: 0,
            entity_factory,
            config,
            flag: GameStateFlagRes { flag: None },
            pressed_keys: PressedKeys::new(),
            delta: DeltaTime { milliseconds: 0 },
            dictionary: VariableDictionary {
                hero_lives: string_of("5"),
                frames_per_second: string_of("60"),
                score: string_of("0"),
            },
        }
    }

    /// The outside world reports the visual assets loaded: the round starts.
    pub fn assets_loaded(&mut self)
        ensures
            final(self).state == (if old(self).state == GameState::Initializing {
                GameState::Running
            } else {
                old(self).state
            }),
            *final(self) == (Scene { state: final(self).state, ..*old(self) }),
    {
        if self.state == GameState::Initializing {
            self.state = GameState::Running;
        }
    }

    /// A movement key changed state; only a running round listens.
    pub fn key_event(&mut self, key: KeyboardKeys, pressed: bool)
        ensures
            final(self).pressed_keys == (if old(self).state == GameState::Running {
                old(self).pressed_keys.spec_set(key, pressed)
            } else {
                old(self).pressed_keys
            }),
            *final(self) == (Scene { pressed_keys: final(self).pressed_keys, ..*old(self) }),
    {
        if self.state == GameState::Running {
            if pressed {
                self.pressed_keys.add(key);
            } else {
                self.pressed_keys.remove(key);
            }
        }
    }

    /// Escape: a running round forfeits (defeat on the next tick); a
    /// finished round asks the session to close.
    pub fn escape_pressed(&mut self) -> (close: bool)
        ensures
            close == (old(self).state == GameState::GameOver),
            final(self).flag.flag == (if old(self).state == GameState::Running {
                Some(GameStateFlag::Defeat)
            } else {
                old(self).flag.flag
            }),
            *final(self) == (Scene { flag: final(self).flag, ..*old(self) }),
    {
        match self.state {
            GameState::Running => {
                self.flag.flag = Some(GameStateFlag::Defeat);
                false
            },
            GameState::GameOver => true,
            GameState::Initializing => false,
        }
    }

    /// Return/confirm: only a finished round asks the session to close.
    pub fn confirm_pressed(&self) -> (close: bool)
        ensures
            close == (self.state == GameState::GameOver),
    {
        self.state == GameState::GameOver
    }

    /// Refreshes the HUD texts from the hero's record; the frame rate text
    /// comes from the window backend.
    pub fn update_labels(&mut self, fps_text: String)
        ensures
            *final(self) == (Scene { dictionary: final(self).dictionary, ..*old(self) }),
            ({
                let i = old(self).hero.index as int;
                if 0 <= i < old(self).world.slots@.len() && old(self).world.slots@[i].alive && old(
                    self,
                ).world.slots@[i].generation == old(self).hero.generation && old(
                    self,
                ).world.slots@[i].hero is Some {
                    let h = old(self).world.slots@[i].hero->Some_0;
                    &&& final(self).dictionary.hero_lives@ == dec_string(h.lives as int)
                    &&& final(self).dictionary.score@ == dec_string(h.score as int)
                    &&& final(self).dictionary.frames_per_second@ == fps_text@
                } else {
                    final(self).dictionary == old(self).dictionary
                }
            }),
    {
        let i = self.hero.index;
        if i < self.world.slots.len() {
            let alive: bool;
            let generation: u64;
            let hero: Option<crate::component::Hero>;
            {
                let row = &self.world.slots[i];
                alive = row.alive;
                generation = row.generation;
                hero = row.hero;
            }
            if alive && generation == self.hero.generation && hero.is_some() {
                let h = hero.unwrap();
                self.dictionary = VariableDictionary {
                    hero_lives: i64_to_string(h.lives),
                    frames_per_second: fps_text,
                    score: i64_to_string(h.score),
                };
            }
        }
    }

    /// Round teardown: every entity deleted at once, the round over.
    fn end_game(&mut self)
        ensures
            final(self).state == GameState::GameOver,
            final(self).world.slots@.len() == old(self).world.slots@.len(),
            forall|i: int|
                0 <= i < old(self).world.slots@.len() ==> final(self).world.slots@[i] == old(
                    self,
                ).world.slots@[i].killed(),
            final(self).world.pending_spawns@ == old(self).world.pending_spawns@,
            final(self).world.pending_deletes@ == old(self).world.pending_deletes@,
            final(self).world.next_generation == old(self).world.next_generation,
            *final(self) == (Scene { world: final(self).world, state: GameState::GameOver, ..*old(self) }),
    {
        self.world.delete_all();
        self.state = GameState::GameOver;
    }

    /// One tick of a running round; returns the track requests, in order.
    pub fn update(&mut self, delta_ms: u64) -> (music: Vec<Music>)
        requires
            scene_wf(*old(self)),
        ensures
            scene_wf(*final(self)),
            final(self).config == old(self).config,
            final(self).hero == old(self).hero,
            final(self).pressed_keys == old(self).pressed_keys,
            final(self).world.pending_spawns@.len() == 0,
            final(self).world.pending_deletes@.len() == 0,
            heroes_nonneg(old(self).world.slots@) ==> heroes_nonneg(final(self).world.slots@),
            old(self).state != GameState::Running ==> {
                &&& final(self).state == old(self).state
                &&& final(self).cycle_timer == old(self).cycle_timer
                &&& final(self).cycle_counter == old(self).cycle_counter
                &&& final(self).flag == old(self).flag
                &&& final(self).world.slots@ == old(self).world.slots@
                &&& music@ == Seq::<Music>::empty()
            },
            old(self).state == GameState::Running ==> {
                let timer0 = old(self).cycle_timer;
                let counter0 = old(self).cycle_counter;
                let b = old(self).config.boss_cycle;
                let c = old(self).config.new_body_cycle;
                &&& final(self).cycle_timer == wave_timer_after(timer0, counter0, b)
                &&& final(self).cycle_counter == wave_counter_after(timer0, counter0, b, c)
                &&& final(self).delta.milliseconds == delta_ms
                &&& final(self).flag.flag is None
                &&& exists|w1: Seq<Slot>, g1: u64, q: Seq<SpawnBundle>|
                    #![trigger wave_effect(*old(self), w1, g1), tick_spawn_queue_ok(
                        q,
                        moved_slots(w1, old(self).pressed_keys, delta_ms),
                    )]
                    {
                        let keys = old(self).pressed_keys;
                        let f0 = old(self).flag.flag;
                        let cfg = old(self).config;
                        let oflag = tick_collision(w1, keys, delta_ms, f0).flag;
                        let base = outcome_slots(
                            pipeline_slots(w1, keys, delta_ms, f0),
                            oflag,
                            g1,
                            cfg,
                        );
                        let dels = pipeline_deletes(w1, keys, delta_ms, f0);
                        let g2 = if oflag is Some {
                            next_gen(g1)
                        } else {
                            g1
                        };
                        &&& wave_effect(*old(self), w1, g1)
                        &&& tick_spawn_queue_ok(q, moved_slots(w1, keys, delta_ms))
                        &&& final(self).state == outcome_state(oflag)
                        &&& music@ == wave_music(timer0, counter0, b, c).add(outcome_music(oflag))
                        &&& final(self).world.slots@.len() == base.len() + q.len()
                        &&& (forall|i: int|
                            0 <= i < base.len() ==> final(self).world.slots@[i] == after_deletes(
                                base,
                                dels,
                                i,
                            ))
                        &&& (forall|k: int|
                            0 <= k < q.len() ==> final(self).world.slots@[base.len() + k]
                                == Slot::from_bundle(q[k], gen_plus(g2, k)))
                    }
            },
    {
        let ghost hn0 = heroes_nonneg(old(self).world.slots@);
        let ghost mut w_sched: Seq<Slot> = Seq::empty();
        let ghost mut g_sched: u64 = 0;
        let ghost mut oflag_g: Option<GameStateFlag> = None;
        let ghost mut base_g: Seq<Slot> = Seq::empty();
        let ghost mut dels_g: Seq<EntityId> = Seq::empty();
        let ghost mut g2_g: u64 = 0;
        let mut music: Vec<Music> = Vec::new();
        if self.state == GameState::Running {
            self.delta = DeltaTime { milliseconds: delta_ms };

            // Wave scheduler.
            if self.cycle_counter < self.config.boss_cycle {
                if self.cycle_timer == 0 {
                    music.push(Music::NormalMusic);
                }
                self.cycle_timer = if self.cycle_timer < u64::MAX {
                    self.cycle_timer + 1
                } else {
                    self.cycle_timer
                };
                if self.cycle_timer % self.config.new_body_cycle == 0 {
                    self.cycle_counter = self.cycle_counter + 1;
                    if self.cycle_counter == self.config.boss_cycle {
                        music.push(Music::BossMusic);
                        let boss_config = self.config.boss_config.duplicate();
                        create_boss(&mut self.world, boss_config);
                        proof {
                            if hn0 {
                                assert forall|i: int|
                                    0 <= i < self.world.slots@.len() && (
                                    #[trigger] self.world.slots@[i]).hero is Some implies self.world.slots@[i].hero->Some_0.lives
                                    >= 0 by {
                                    if i < old(self).world.slots@.len() {
                                        assert(self.world.slots@[i] == old(
                                            self,
                                        ).world.slots@[i]);
                                    }
                                }
                                assert(heroes_nonneg(self.world.slots@));
                            }
                        }
                    } else {
                        self.entity_factory.create_entity(&mut self.world);
                        proof {
                            if hn0 {
                                assert forall|i: int|
                                    0 <= i < self.world.slots@.len() && (
                                    #[trigger] self.world.slots@[i]).hero is Some implies self.world.slots@[i].hero->Some_0.lives
                                    >= 0 by {
                                    if i < old(self).world.slots@.len() {
                                        assert(self.world.slots@[i] == old(
                                            self,
                                        ).world.slots@[i]);
                                    }
                                }
                                assert(heroes_nonneg(self.world.slots@));
                            }
                        }
                    }
                }
            }
            proof {
                assert(music@ =~= wave_music(
                    old(self).cycle_timer,
                    old(self).cycle_counter,
                    old(self).config.boss_cycle,
                    old(self).config.new_body_cycle,
                ));
            }

            proof {
                if hn0 {
                    assert(heroes_nonneg(self.world.slots@));
                }
                w_sched = self.world.slots@;
                g_sched = self.world.next_generation;
                assert(wave_effect(*old(self), w_sched, g_sched));
            }

            // The pipeline, in its fixed order.
            HeroControlSystem::run(&mut self.world, &self.pressed_keys);
            proof {
                if hn0 {
                    assert forall|i: int|
                        0 <= i < self.world.slots@.len() && (
                        #[trigger] self.world.slots@[i]).hero is Some implies self.world.slots@[i].hero->Some_0.lives
                        >= 0 by {
                        assert(self.world.slots@[i] == crate::system::hero_control::control_slot(
                            w_sched[i],
                            self.pressed_keys,
                        ));
                    }
                    assert(heroes_nonneg(self.world.slots@));
                }
            }
            let ghost w_ctl = self.world.slots@;
            WalkSystem::run(&mut self.world, &self.delta);
            proof {
                if hn0 {
                    assert forall|i: int|
                        0 <= i < self.world.slots@.len() && (
                        #[trigger] self.world.slots@[i]).hero is Some implies self.world.slots@[i].hero->Some_0.lives
                        >= 0 by {
                        assert(self.world.slots@[i] == crate::system::walk::walk_slot(
                            w_ctl[i],
                            self.delta.milliseconds,
                        ));
                    }
                    assert(heroes_nonneg(self.world.slots@));
                }
            }
            let ghost w_walk = self.world.slots@;
            FireballSystem::run(&mut self.world);
            proof {
                if hn0 {
                    assert forall|i: int|
                        0 <= i < self.world.slots@.len() && (
                        #[trigger] self.world.slots@[i]).hero is Some implies self.world.slots@[i].hero->Some_0.lives
                        >= 0 by {
                        assert(self.world.slots@[i] == crate::system::fireball::topped_slot(
                            w_walk,
                            i,
                        ));
                    }
                    assert(heroes_nonneg(self.world.slots@));
                }
            }
            let ghost w_fb = self.world.slots@;
            let ghost f_pre = self.flag.flag;
            CollisionSystem::run(&mut self.world, &mut self.flag);
            proof {
                if hn0 {
                    lemma_collision_heroes_nonneg(w_fb, f_pre, w_fb.len() as int);
                    assert(heroes_nonneg(self.world.slots@));
                }
            }
            let ghost w_col = self.world.slots@;
            OutOfBoundsSystem::run(&mut self.world);
            proof {
                if hn0 {
                    assert forall|i: int|
                        0 <= i < self.world.slots@.len() && (
                        #[trigger] self.world.slots@[i]).hero is Some implies self.world.slots@[i].hero->Some_0.lives
                        >= 0 by {
                        assert(self.world.slots@[i] == crate::system::out_of_bounds::clamp_slot(
                            w_col[i],
                        ));
                    }
                    assert(heroes_nonneg(self.world.slots@));
                }
            }
            let ghost w_oob = self.world.slots@;
            HeroBlinkingSystem::run(&mut self.world, &self.delta);
            proof {
                if hn0 {
                    assert forall|i: int|
                        0 <= i < self.world.slots@.len() && (
                        #[trigger] self.world.slots@[i]).hero is Some implies self.world.slots@[i].hero->Some_0.lives
                        >= 0 by {
                        assert(self.world.slots@[i] == crate::system::hero_blinking::blink_slot(
                            w_oob[i],
                            self.delta.milliseconds,
                        ));
                    }
                    assert(heroes_nonneg(self.world.slots@));
                }
            }
            let ghost w_blk = self.world.slots@;
            proof {
                let keys = old(self).pressed_keys;
                let f0 = old(self).flag.flag;
                // Control and walk compose into the moved table.
                assert(moved_slots(w_sched, keys, delta_ms) =~= w_walk) by {
                    assert forall|i: int| 0 <= i < w_sched.len() implies moved_slots(
                        w_sched,
                        keys,
                        delta_ms,
                    )[i] == w_walk[i] by {
                        assert(w_ctl[i] == control_slot(w_sched[i], keys));
                        assert(w_walk[i] == walk_slot(w_ctl[i], delta_ms));
                    }
                }
                // The projectile pass arms the moved table.
                assert(armed_slots(w_sched, keys, delta_ms) =~= w_fb) by {
                    assert forall|i: int| 0 <= i < w_walk.len() implies armed_slots(
                        w_sched,
                        keys,
                        delta_ms,
                    )[i] == w_fb[i] by {
                        assert(w_fb[i] == topped_slot(w_walk, i));
                    }
                }
                // Collision resolves on the armed table.
                assert(f_pre == f0);
                let cst = tick_collision(w_sched, keys, delta_ms, f0);
                assert(cst == collision_spec(w_fb, f_pre));
                assert(w_col == cst.slots);
                assert(self.flag.flag == cst.flag);
                // Clamp, then blink.
                let clamped = Seq::new(cst.slots.len(), |i: int| clamp_slot(cst.slots[i]));
                assert(clamped =~= w_oob) by {
                    assert forall|i: int| 0 <= i < w_col.len() implies clamped[i] == w_oob[i] by {
                        assert(w_oob[i] == clamp_slot(w_col[i]));
                    }
                }
                assert(pipeline_slots(w_sched, keys, delta_ms, f0) =~= w_blk) by {
                    assert forall|i: int| 0 <= i < w_oob.len() implies pipeline_slots(
                        w_sched,
                        keys,
                        delta_ms,
                        f0,
                    )[i] == w_blk[i] by {
                        assert(w_blk[i] == blink_slot(w_oob[i], delta_ms));
                        assert(clamped[i] == clamp_slot(cst.slots[i]));
                    }
                }
                // The tick's deletions, in order: the kills, then the
                // out-of-bounds discards (both queues started empty).
                assert(self.world.pending_deletes@ =~= pipeline_deletes(
                    w_sched,
                    keys,
                    delta_ms,
                    f0,
                ));
                // The deferred projectile queue is the fireball pass's.
                assert(tick_spawn_queue_ok(
                    self.world.pending_spawns@,
                    moved_slots(w_sched, keys, delta_ms),
                )) by {
                    let m = moved_slots(w_sched, keys, delta_ms);
                    assert(m == w_walk);
                    assert forall|i: int, j: int|
                        0 <= i < m.len() && 0 <= j < row_need(m, i) implies spawned_ok(
                        self.world.pending_spawns@[#[trigger] spawn_index(m, i, j)],
                        m,
                        i,
                        row_have(m, i) + j,
                    ) by {
                        assert(spawned_ok(
                            self.world.pending_spawns@[0 + spawn_index(w_walk, i, j)],
                            w_walk,
                            i,
                            row_have(w_walk, i) + j,
                        ));
                    }
                }
            }

            // Outcome.
            let outcome = self.flag.flag;
            match outcome {
                Some(GameStateFlag::Victory) => {
                    self.end_game();
                    create_background(&mut self.world, self.config.victory_background.clone());
                    music.push(Music::VictoryMusic);
                    self.flag.flag = None;
                    proof {
                        assert(heroes_nonneg(self.world.slots@));
                        assert(self.world.slots@ =~= outcome_slots(
                            w_blk,
                            Some(GameStateFlag::Victory),
                            g_sched,
                            old(self).config,
                        ));
                    }
                },
                Some(GameStateFlag::Defeat) => {
                    self.end_game();
                    create_background(&mut self.world, self.config.defeat_background.clone());
                    music.push(Music::GameOverMusic);
                    self.flag.flag = None;
                    proof {
                        assert(heroes_nonneg(self.world.slots@));
                        assert(self.world.slots@ =~= outcome_slots(
                            w_blk,
                            Some(GameStateFlag::Defeat),
                            g_sched,
                            old(self).config,
                        ));
                    }
                },
                None => {},
            }
            proof {
                assert(music@ =~= wave_music(
                    old(self).cycle_timer,
                    old(self).cycle_counter,
                    old(self).config.boss_cycle,
                    old(self).config.new_body_cycle,
                ).add(outcome_music(outcome)));
                let keys = old(self).pressed_keys;
                let f0 = old(self).flag.flag;
                let cst = tick_collision(w_sched, keys, delta_ms, f0);
                assert(outcome == cst.flag);
                oflag_g = cst.flag;
                base_g = outcome_slots(
                    pipeline_slots(w_sched, keys, delta_ms, f0),
                    cst.flag,
                    g_sched,
                    old(self).config,
                );
                dels_g = pipeline_deletes(w_sched, keys, delta_ms, f0);
                g2_g = if cst.flag is Some {
                    next_gen(g_sched)
                } else {
                    g_sched
                };
                assert(self.world.slots@ == base_g);
                assert(self.world.pending_deletes@ == dels_g);
                assert(self.world.next_generation == g2_g);
                assert(self.state == outcome_state(cst.flag));
                assert(tick_spawn_queue_ok(
                    self.world.pending_spawns@,
                    moved_slots(w_sched, keys, delta_ms),
                ));
            }
        }
        proof {
            if hn0 {
                assert(heroes_nonneg(self.world.slots@));
            }
            assert forall|q: int|
                0 <= q < self.world.pending_spawns@.len() implies (
                #[trigger] self.world.pending_spawns@[q]).hero is None by {}
        }
        let ghost w_pre = self.world.slots@;
        let ghost sp_pre = self.world.pending_spawns@;
        let ghost dl_pre = self.world.pending_deletes@;
        let ghost g_pre = self.world.next_generation;
        self.world.reconcile();
        proof {
            if old(self).state == GameState::Running {
                assert(w_pre == base_g);
                assert(dl_pre == dels_g);
                assert(g_pre == g2_g);
                assert(wave_effect(*old(self), w_sched, g_sched));
                assert(tick_spawn_queue_ok(
                    sp_pre,
                    moved_slots(w_sched, old(self).pressed_keys, delta_ms),
                ));
                assert(self.world.slots@.len() == base_g.len() + sp_pre.len());
                assert forall|i: int| 0 <= i < base_g.len() implies self.world.slots@[i]
                    == after_deletes(base_g, dels_g, i) by {}
                assert forall|k: int| 0 <= k < sp_pre.len() implies self.world.slots@[base_g.len()
                    + k] == Slot::from_bundle(sp_pre[k], gen_plus(g2_g, k)) by {}
            } else {
                assert(self.world.slots@ =~= old(self).world.slots@) by {
                    assert forall|i: int| 0 <= i < w_pre.len() implies self.world.slots@[i]
                        == w_pre[i] by {
                        assert(self.world.slots@[i] == after_deletes(w_pre, dl_pre, i));
                        assert(!crate::world::delete_hits(w_pre, dl_pre, i));
                    }
                }
            }
            if hn0 {
                assert forall|i: int|
                    0 <= i < self.world.slots@.len() && (
                    #[trigger] self.world.slots@[i]).hero is Some implies self.world.slots@[i].hero->Some_0.lives
                    >= 0 by {
                    if i < w_pre.len() {
                        assert(self.world.slots@[i] == crate::world::after_deletes(
                            w_pre,
                            dl_pre,
                            i,
                        ));
                    } else {
                        let k = i - w_pre.len();
                        assert(self.world.slots@[w_pre.len() + k] == crate::world::Slot::from_bundle(
                            sp_pre[k],
                            crate::world::gen_plus(g_pre, k),
                        ));
                    }
                }
                assert(heroes_nonneg(self.world.slots@));
            }
        }
        music
    }
}

} // verus!
