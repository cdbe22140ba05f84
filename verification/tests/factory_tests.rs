use eangine::enemy::{
    create_boss, create_fireball_shower_at, create_flyer, create_shooter, create_walker,
    BossConfig, FireballShowerConfig,
};
use eangine::entity_factory::{EntityFactory, EntityFactoryConfig, FactoryType};
use eangine::healing::{create_healing_potion, HealingConfig};
use eangine::hero::{create_hero, HeroConfig};
use eangine::world::World;

#[test]
fn walker_enters_from_either_side() {
    let mut w = World::new();
    create_walker(&mut w);
    let s = &w.slots[0];
    let p = s.position.unwrap().position;
    let v = s.velocity.unwrap().velocity;
    let sprite = &s.render.as_ref().unwrap().sprite;
    assert_eq!(s.enemy.unwrap().score, 100);
    assert!(s.out_of_bounds.is_some());
    assert!(s.shooter.is_none());
    assert_eq!(p.y, 432_000);
    if sprite == "andador" {
        assert_eq!(p.x, 850_000);
        assert_eq!((v.x, v.y), (-125, 0));
    } else {
        assert_eq!(sprite, "andador_flipped");
        assert_eq!(p.x, -50_000);
        assert_eq!((v.x, v.y), (125, 0));
    }
}

#[test]
fn shooter_and_flyer_carry_their_aim() {
    let mut w = World::new();
    create_shooter(&mut w);
    create_flyer(&mut w);
    let sh = w.slots[0].shooter.as_ref().unwrap();
    assert_eq!(sh.maximum_fireballs, 2);
    assert_eq!(sh.coefficient_1, 175);
    assert_eq!(sh.coefficient_2, 0);
    assert_eq!(sh.projectile_sprite, "tiro");
    assert_eq!(w.slots[0].enemy.unwrap().score, 200);
    let fl = w.slots[1].shooter.as_ref().unwrap();
    assert_eq!(fl.maximum_fireballs, 1);
    assert_eq!(fl.coefficient_1, 250);
    assert_eq!(w.slots[1].position.unwrap().position.y, 400_000);
}

#[test]
fn boss_bundle_is_complete() {
    let mut w = World::new();
    create_boss(&mut w, BossConfig::default());
    let s = &w.slots[0];
    assert_eq!(s.boss.unwrap().lives, 10);
    assert_eq!(s.boss.unwrap().normal_lives, 5);
    assert_eq!(s.enemy.unwrap().score, 300);
    assert_eq!(s.render.as_ref().unwrap().sprite, "chefe");
    assert_eq!(s.change_sprite.as_ref().unwrap().new_sprite, "chefeapelao");
    assert!(!s.change_sprite.as_ref().unwrap().do_change);
    let sh = s.shooter.as_ref().unwrap();
    assert_eq!(sh.maximum_fireballs, 2);
    assert_eq!(sh.coefficient_1, 75);
    assert_eq!(sh.coefficient_2, -50);
    // The boss is stationary and never discarded for leaving the screen.
    assert!(s.velocity.is_none());
    assert!(s.out_of_bounds.is_none());
    let p = s.position.unwrap().position;
    assert_eq!((p.x, p.y), (748_500, 428_000));
}

#[test]
fn hero_bundle_is_complete() {
    let mut w = World::new();
    let id = create_hero(&mut w, HeroConfig::default());
    assert_eq!(id.index, 0);
    let s = &w.slots[0];
    let h = s.hero.unwrap();
    assert_eq!(h.lives, 5);
    assert_eq!(h.score, 0);
    assert!(!h.blinking);
    assert!(h.render);
    let p = s.position.unwrap().position;
    assert_eq!((p.x, p.y), (425_000, 425_000));
    let v = s.velocity.unwrap().velocity;
    assert_eq!((v.x, v.y), (0, 0));
    assert!(s.out_of_bounds.is_some());
    assert_eq!(s.render.as_ref().unwrap().sprite, "heroi");
}

#[test]
fn healing_default_falls_from_a_random_column() {
    let mut w = World::new();
    let config = HealingConfig::default();
    assert!(config.position.x >= 50_000 && config.position.x < 700_000);
    create_healing_potion(&mut w, config);
    let s = &w.slots[0];
    assert_eq!(s.healing.unwrap().score, 50);
    assert_eq!(s.position.unwrap().position.y, -100_000);
    let v = s.velocity.unwrap().velocity;
    assert_eq!((v.x, v.y), (0, 250));
}

#[test]
fn shower_follows_the_stepping_rule() {
    // x_init=10, x_end=820, step=100 places fireballs at columns
    // 10, 110, ..., 810: inclusive start, exclusive end, nine in all.
    let mut w = World::new();
    let config = FireballShowerConfig::default();
    create_fireball_shower_at(&mut w, &config, 10, 820, 100);
    assert_eq!(w.slots.len(), 9);
    for k in 0..9 {
        let s = &w.slots[k];
        let p = s.position.unwrap().position;
        assert_eq!(p.x, (10 + 100 * k as i64) * 1000);
        assert_eq!(p.y, -100_000);
        let v = s.velocity.unwrap().velocity;
        assert_eq!(v.x, 0);
        assert!(v.y >= 240 && v.y < 260);
        assert_eq!(s.fireball.unwrap().owner_id, None);
        assert_eq!(s.render.as_ref().unwrap().sprite, "fogo");
        assert!(s.out_of_bounds.is_some());
    }
}

#[test]
fn shower_with_empty_range_places_nothing() {
    let mut w = World::new();
    let config = FireballShowerConfig::default();
    create_fireball_shower_at(&mut w, &config, 820, 10, 100);
    assert_eq!(w.slots.len(), 0);
}

#[test]
fn fixed_factory_round_robins_and_heals_every_third_wave() {
    let mut w = World::new();
    let mut f = EntityFactory::new(EntityFactoryConfig::default());
    // Wave 0: walker + potion (counter 0 is a multiple of 3).
    f.create_entity(&mut w);
    assert_eq!(w.slots.len(), 2);
    assert!(w.slots[0].shooter.is_none());
    assert!(w.slots[0].enemy.is_some());
    assert!(w.slots[1].healing.is_some());
    // Wave 1: shooter, no potion.
    f.create_entity(&mut w);
    assert_eq!(w.slots.len(), 3);
    assert!(w.slots[2].shooter.is_some());
    // Wave 2: walker again, no potion.
    f.create_entity(&mut w);
    assert_eq!(w.slots.len(), 4);
    assert!(w.slots[3].shooter.is_none());
    // Wave 3: shooter + potion.
    f.create_entity(&mut w);
    assert_eq!(w.slots.len(), 6);
    assert!(w.slots[4].shooter.is_some());
    assert!(w.slots[5].healing.is_some());
}

#[test]
fn random_factory_picks_from_the_list() {
    let mut w = World::new();
    let config = EntityFactoryConfig {
        factory_type: FactoryType::Random,
        enemy_types: vec![eangine::enemy::EnemyType::Flyer],
        healing_interval: None,
    };
    let mut f = EntityFactory::new(config);
    f.create_entity(&mut w);
    // Only flyers to pick from, and no potion without an interval.
    assert_eq!(w.slots.len(), 1);
    let sh = w.slots[0].shooter.as_ref().unwrap();
    assert_eq!(sh.coefficient_1, 250);
}
