use eangine::music::Music;
use eangine::resources::{GameStateFlag, KeyboardKeys, LabelVariable};
use eangine::scene::{GameState, Scene, SceneConfig};
use eangine::system::{LabelRenderSystem, RenderSystem};

#[test]
fn fresh_scene_holds_backdrop_labels_and_hero() {
    let s = Scene::new(SceneConfig::default());
    assert_eq!(s.state, GameState::Initializing);
    assert_eq!(s.cycle_timer, 0);
    assert_eq!(s.cycle_counter, 0);
    assert_eq!(s.world.slots.len(), 5);
    assert!(s.world.slots[0].background.is_some());
    assert_eq!(
        s.world.slots[1].label.unwrap().bind_variable,
        LabelVariable::FramesPerSecond
    );
    assert_eq!(
        s.world.slots[2].label.unwrap().bind_variable,
        LabelVariable::HeroLives
    );
    assert_eq!(
        s.world.slots[3].label.unwrap().bind_variable,
        LabelVariable::Score
    );
    assert!(s.world.slots[4].hero.is_some());
    assert_eq!(s.hero.index, 4);
}

#[test]
fn nothing_simulates_before_the_assets_load() {
    let mut s = Scene::new(SceneConfig::default());
    let music = s.update(16);
    assert!(music.is_empty());
    assert_eq!(s.state, GameState::Initializing);
    assert_eq!(s.cycle_timer, 0);
    s.assets_loaded();
    assert_eq!(s.state, GameState::Running);
}

#[test]
fn first_running_tick_starts_the_music() {
    let mut s = Scene::new(SceneConfig::default());
    s.assets_loaded();
    let music = s.update(16);
    assert_eq!(music, vec![Music::NormalMusic]);
    assert_eq!(s.cycle_timer, 1);
    let music2 = s.update(16);
    assert!(music2.is_empty());
    assert_eq!(s.cycle_timer, 2);
}

#[test]
fn boss_wave_fires_exactly_once_at_cadence_times_boss_index() {
    // Cadence 210, boss wave 11: after exactly 210 * 11 ticks the boss
    // branch fires, once, switching the music on that same tick.
    let mut s = Scene::new(SceneConfig::default());
    s.assets_loaded();
    let total = 210u64 * 11;
    let mut boss_ticks: Vec<u64> = Vec::new();
    for tick in 1..=total {
        let music = s.update(0);
        if music.contains(&Music::BossMusic) {
            boss_ticks.push(tick);
        }
    }
    assert_eq!(boss_ticks, vec![total]);
    assert_eq!(s.cycle_counter, 11);
    assert_eq!(s.cycle_timer, total);
    // The boss is in the world, alive.
    assert!(s
        .world
        .slots
        .iter()
        .any(|slot| slot.alive && slot.boss.is_some()));
    // The scheduler is done: a further tick fires nothing.
    let music = s.update(0);
    assert!(music.is_empty());
    assert_eq!(s.cycle_timer, total);
}

#[test]
fn forfeit_ends_the_round_with_game_over_music() {
    let mut s = Scene::new(SceneConfig::default());
    s.assets_loaded();
    let close = s.escape_pressed();
    assert!(!close);
    let music = s.update(16);
    // First tick plays the round music, then the forfeit lands.
    assert_eq!(music, vec![Music::NormalMusic, Music::GameOverMusic]);
    assert_eq!(s.state, GameState::GameOver);
    assert_eq!(s.flag.flag, None);
    // Every original entity was deleted; the game-over backdrop stands.
    assert!(s.world.slots[4].hero.is_none());
    let backdrop = s.world.slots.iter().rev().find(|slot| slot.alive).unwrap();
    assert_eq!(backdrop.render.as_ref().unwrap().sprite, "inferno");
    // On the game-over screen, escape or return closes the session.
    assert!(s.escape_pressed());
    assert!(s.confirm_pressed());
}

#[test]
fn movement_keys_only_register_while_running() {
    let mut s = Scene::new(SceneConfig::default());
    s.key_event(KeyboardKeys::KeyLeft, true);
    assert!(!s.pressed_keys.left);
    s.assets_loaded();
    s.key_event(KeyboardKeys::KeyLeft, true);
    assert!(s.pressed_keys.left);
    s.key_event(KeyboardKeys::KeyLeft, false);
    assert!(!s.pressed_keys.left);
}

#[test]
fn labels_follow_the_hero_record() {
    let mut s = Scene::new(SceneConfig::default());
    s.assets_loaded();
    s.update_labels(String::from("59"));
    assert_eq!(s.dictionary.hero_lives, "5");
    assert_eq!(s.dictionary.score, "0");
    assert_eq!(s.dictionary.frames_per_second, "59");
    let commands = LabelRenderSystem::run(&s.world, &s.dictionary);
    assert_eq!(commands.len(), 3);
    assert_eq!(commands[0].text, "59");
    assert_eq!(commands[1].text, "5");
    assert_eq!(commands[2].text, "0");
}

#[test]
fn render_plan_lists_backdrop_and_hero() {
    let s = Scene::new(SceneConfig::default());
    let plan = RenderSystem::run(&s.world);
    // The backdrop and the hero have sprites; labels do not.
    assert_eq!(plan.len(), 2);
    assert_eq!(plan[0].sprite, "cenario");
    assert_eq!(plan[0].index, 0);
    assert_eq!(plan[1].sprite, "heroi");
    assert_eq!(plan[1].index, 4);
}

#[test]
fn render_plan_honours_sprite_swap_and_blinking() {
    let mut s = Scene::new(SceneConfig::default());
    // Hide the hero as the blink cycle would.
    if let Some(h) = s.world.slots[4].hero.as_mut() {
        h.render = false;
    }
    // Swap the backdrop's sprite.
    s.world.slots[0].change_sprite = Some(eangine::component::ChangeSprite {
        new_sprite: String::from("ceu"),
        do_change: true,
    });
    let plan = RenderSystem::run(&s.world);
    assert_eq!(plan.len(), 1);
    assert_eq!(plan[0].sprite, "ceu");
}

#[test]
fn victory_flag_swaps_to_the_victory_backdrop() {
    let mut s = Scene::new(SceneConfig::default());
    s.assets_loaded();
    s.flag.flag = Some(GameStateFlag::Victory);
    let music = s.update(16);
    assert_eq!(music, vec![Music::NormalMusic, Music::VictoryMusic]);
    assert_eq!(s.state, GameState::GameOver);
    let backdrop = s.world.slots.iter().rev().find(|slot| slot.alive).unwrap();
    assert_eq!(backdrop.render.as_ref().unwrap().sprite, "ceu");
}

#[test]
fn walking_ticks_move_the_world() {
    let mut s = Scene::new(SceneConfig::default());
    s.assets_loaded();
    s.key_event(KeyboardKeys::KeyRight, true);
    s.update(16);
    // One tick at 250 units/s for 16 ms moves the hero 4 units right.
    let p = s.world.slots[4].position.unwrap().position;
    assert_eq!(p.x, 425_000 + 250 * 16);
}

#[test]
fn escape_before_the_round_starts_does_nothing() {
    let mut s = Scene::new(SceneConfig::default());
    let close = s.escape_pressed();
    assert!(!close);
    assert_eq!(s.flag.flag, None);
    assert_eq!(s.state, GameState::Initializing);
}
