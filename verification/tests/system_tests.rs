use eangine::component::{Enemy, Fireball, Healing, Hero, Position, Render, Shooter, Velocity};
use eangine::geom::{Extent, Vec2};
use eangine::resources::{DeltaTime, GameStateFlag, GameStateFlagRes, PressedKeys};
use eangine::system::{
    CollisionSystem, FireballSystem, HeroBlinkingSystem, HeroControlSystem, OutOfBoundsSystem,
    WalkSystem,
};
use eangine::world::{SpawnBundle, World};

fn moving_bundle(x: i64, y: i64, dx: i64, dy: i64) -> SpawnBundle {
    let mut b = SpawnBundle::empty();
    b.position = Some(Position { position: Vec2 { x, y } });
    b.velocity = Some(Velocity { velocity: Vec2 { x: dx, y: dy } });
    b
}

fn hero_bundle_at(x: i64, y: i64, lives: i64) -> SpawnBundle {
    let mut b = moving_bundle(x, y, 0, 0);
    b.hero = Some(Hero {
        lives,
        score: 0,
        blinking: false,
        render: true,
        reset_position: false,
        blink_timer: 0,
    });
    b.render = Some(Render { sprite: String::from("heroi"), bounding_box: None });
    b.out_of_bounds = Some(eangine::component::CalculateOutOfBounds);
    b
}

fn rendered(mut b: SpawnBundle, sprite: &str) -> SpawnBundle {
    b.render = Some(Render { sprite: String::from(sprite), bounding_box: None });
    b
}

#[test]
fn walk_moves_by_velocity_times_elapsed() {
    // Position' = position + velocity * t, exactly (milli-units, ms).
    let mut w = World::new();
    w.create(moving_bundle(425_000, 300_000, 250, -400));
    WalkSystem::run(&mut w, &DeltaTime { milliseconds: 16 });
    let p = w.slots[0].position.unwrap().position;
    assert_eq!(p.x, 425_000 + 250 * 16);
    assert_eq!(p.y, 300_000 - 400 * 16);
}

#[test]
fn walk_skips_rows_without_velocity() {
    let mut w = World::new();
    let mut b = SpawnBundle::empty();
    b.position = Some(Position { position: Vec2 { x: 7, y: 8 } });
    w.create(b);
    WalkSystem::run(&mut w, &DeltaTime { milliseconds: 1000 });
    let p = w.slots[0].position.unwrap().position;
    assert_eq!((p.x, p.y), (7, 8));
}

#[test]
fn hero_control_jumps_only_when_grounded() {
    let mut w = World::new();
    w.create(hero_bundle_at(425_000, 425_000, 5));
    let keys = PressedKeys { up: true, left: false, right: false };
    HeroControlSystem::run(&mut w, &keys);
    assert_eq!(w.slots[0].velocity.unwrap().velocity.y, -400);
    // Above the ceiling the hero is pushed back down.
    let mut w2 = World::new();
    w2.create(hero_bundle_at(425_000, 250_000, 5));
    HeroControlSystem::run(&mut w2, &keys);
    assert_eq!(w2.slots[0].velocity.unwrap().velocity.y, 200);
}

#[test]
fn hero_control_horizontal_rule() {
    let mut w = World::new();
    w.create(hero_bundle_at(425_000, 425_000, 5));
    HeroControlSystem::run(&mut w, &PressedKeys { up: false, left: false, right: true });
    assert_eq!(w.slots[0].velocity.unwrap().velocity.x, 250);
    HeroControlSystem::run(&mut w, &PressedKeys { up: false, left: true, right: false });
    assert_eq!(w.slots[0].velocity.unwrap().velocity.x, -250);
    // Both or neither held: stand still.
    HeroControlSystem::run(&mut w, &PressedKeys { up: false, left: true, right: true });
    assert_eq!(w.slots[0].velocity.unwrap().velocity.x, 0);
}

#[test]
fn hero_control_honours_position_reset() {
    let mut w = World::new();
    let mut b = hero_bundle_at(600_000, 350_000, 5);
    if let Some(h) = b.hero.as_mut() {
        h.reset_position = true;
    }
    w.create(b);
    HeroControlSystem::run(&mut w, &PressedKeys::new());
    let p = w.slots[0].position.unwrap().position;
    assert_eq!((p.x, p.y), (15_000, 300_000));
    assert!(!w.slots[0].hero.unwrap().reset_position);
}

#[test]
fn out_of_bounds_clamps_hero_and_never_deletes_it() {
    let mut w = World::new();
    w.create(hero_bundle_at(900_000, 425_000, 5));
    OutOfBoundsSystem::run(&mut w);
    assert_eq!(w.slots[0].position.unwrap().position.x, 785_000);
    assert_eq!(w.pending_deletes.len(), 0);
    w.reconcile();
    assert!(w.slots[0].alive);
}

#[test]
fn out_of_bounds_discards_watched_strays() {
    let mut w = World::new();
    let mut stray = moving_bundle(950_000, 100_000, 0, 0);
    stray.out_of_bounds = Some(eangine::component::CalculateOutOfBounds);
    w.create(stray);
    // An unwatched entity at the same spot stays.
    w.create(moving_bundle(950_000, 100_000, 0, 0));
    OutOfBoundsSystem::run(&mut w);
    assert_eq!(w.pending_deletes.len(), 1);
    w.reconcile();
    assert!(!w.slots[0].alive);
    assert!(w.slots[1].alive);
}

#[test]
fn blinking_expires_after_its_duration() {
    let mut w = World::new();
    let mut b = hero_bundle_at(0, 0, 5);
    if let Some(h) = b.hero.as_mut() {
        h.blinking = true;
        h.blink_timer = 1200;
    }
    w.create(b);
    HeroBlinkingSystem::run(&mut w, &DeltaTime { milliseconds: 100 });
    let h = w.slots[0].hero.unwrap();
    assert!(!h.blinking);
    assert!(h.render);
    assert_eq!(h.blink_timer, 0);
}

#[test]
fn blinking_flickers_on_the_period() {
    let mut w = World::new();
    let mut b = hero_bundle_at(0, 0, 5);
    if let Some(h) = b.hero.as_mut() {
        h.blinking = true;
        h.blink_timer = 0;
    }
    w.create(b);
    // Timer reaches 100: window 0, visible.
    HeroBlinkingSystem::run(&mut w, &DeltaTime { milliseconds: 100 });
    assert!(w.slots[0].hero.unwrap().render);
    // Timer reaches 200: window 1, hidden.
    HeroBlinkingSystem::run(&mut w, &DeltaTime { milliseconds: 100 });
    assert!(!w.slots[0].hero.unwrap().render);
}

#[test]
fn fireball_pass_tops_up_to_the_maximum() {
    let mut w = World::new();
    let mut shooter = moving_bundle(700_000, 400_000, 0, 0);
    shooter.shooter = Some(Shooter {
        projectile_sprite: String::from("tiro"),
        maximum_fireballs: 2,
        fireball_amount: 0,
        coefficient_1: 175,
        coefficient_2: 0,
    });
    let sid = w.create(shooter);
    FireballSystem::run(&mut w);
    // Both shots are queued, none live yet this tick.
    assert_eq!(w.slots.len(), 1);
    assert_eq!(w.pending_spawns.len(), 2);
    assert_eq!(w.slots[0].shooter.as_ref().unwrap().fireball_amount, 2);
    w.reconcile();
    assert_eq!(w.slots.len(), 3);
    for k in 1..3 {
        let f = w.slots[k].fireball.unwrap();
        assert_eq!(f.owner_id, Some(sid.index));
        let v = w.slots[k].velocity.unwrap().velocity;
        assert_eq!(v.y, 0);
        // Shot k-1 aims at -(175 * k + jitter), jitter in 0..84.
        let k_i64 = k as i64;
        assert!(v.x <= -(175 * k_i64));
        assert!(v.x > -(175 * k_i64) - 84);
        assert_eq!(
            w.slots[k].render.as_ref().unwrap().sprite,
            String::from("tiro")
        );
    }
    // The next pass finds the maximum already live and queues nothing.
    FireballSystem::run(&mut w);
    assert_eq!(w.pending_spawns.len(), 0);
}

#[test]
fn deferred_projectiles_are_invisible_to_this_ticks_collision() {
    // A shooter overlapping the hero queues a projectile; the projectile
    // cannot hurt the hero this tick, only the next one.
    let mut w = World::new();
    w.create(hero_bundle_at(400_000, 300_000, 5));
    w.set_bounding_box(0, Extent { width: 50_000, height: 100_000 });
    let mut shooter = moving_bundle(400_000, 300_000, 0, 0);
    shooter.shooter = Some(Shooter {
        projectile_sprite: String::from("tiro"),
        maximum_fireballs: 1,
        fireball_amount: 0,
        coefficient_1: 0,
        coefficient_2: 0,
    });
    w.create(shooter);
    FireballSystem::run(&mut w);
    let mut flag = GameStateFlagRes { flag: None };
    CollisionSystem::run(&mut w, &mut flag);
    // No live fireball yet: the hero is untouched.
    assert_eq!(w.slots[0].hero.unwrap().lives, 5);
    w.reconcile();
    // Now the projectile is live at the shooter's position; give it a box
    // and run the next tick's collision.
    assert_eq!(w.slots.len(), 3);
    assert!(w.slots[2].fireball.is_some());
    w.set_bounding_box(2, Extent { width: 10_000, height: 10_000 });
    CollisionSystem::run(&mut w, &mut flag);
    assert_eq!(w.slots[0].hero.unwrap().lives, 4);
}

#[test]
fn stomp_kills_and_scores_without_damage() {
    let mut w = World::new();
    w.create(hero_bundle_at(400_000, 300_000, 5));
    w.set_bounding_box(0, Extent { width: 50_000, height: 100_000 });
    // Hero box spans y 250..350 units; feet band 340..350.  Enemy of height
    // 100 centred at y=390 has its head band at 340..350.
    let mut enemy = rendered(moving_bundle(400_000, 390_000, 0, 0), "andador");
    enemy.enemy = Some(Enemy { score: 100 });
    w.create(enemy);
    w.set_bounding_box(1, Extent { width: 50_000, height: 100_000 });
    let mut flag = GameStateFlagRes { flag: None };
    CollisionSystem::run(&mut w, &mut flag);
    let h = w.slots[0].hero.unwrap();
    assert_eq!(h.score, 100);
    assert_eq!(h.lives, 5);
    assert!(!h.blinking);
    assert_eq!(flag.flag, None);
    assert_eq!(w.pending_deletes.len(), 1);
    w.reconcile();
    assert!(!w.slots[1].alive);
}

#[test]
fn body_contact_costs_one_life_and_shields() {
    let mut w = World::new();
    w.create(hero_bundle_at(400_000, 300_000, 5));
    w.set_bounding_box(0, Extent { width: 50_000, height: 100_000 });
    // Same centre: bodies overlap, feet/head do not.
    let mut enemy = rendered(moving_bundle(400_000, 300_000, 0, 0), "andador");
    enemy.enemy = Some(Enemy { score: 100 });
    w.create(enemy);
    w.set_bounding_box(1, Extent { width: 50_000, height: 100_000 });
    // A second enemy also in contact: the shield from the first hit holds.
    let mut enemy2 = rendered(moving_bundle(401_000, 300_000, 0, 0), "andador");
    enemy2.enemy = Some(Enemy { score: 100 });
    w.create(enemy2);
    w.set_bounding_box(2, Extent { width: 50_000, height: 100_000 });
    let mut flag = GameStateFlagRes { flag: None };
    CollisionSystem::run(&mut w, &mut flag);
    let h = w.slots[0].hero.unwrap();
    assert_eq!(h.lives, 4);
    assert!(h.blinking);
    assert_eq!(h.score, 0);
    assert_eq!(w.pending_deletes.len(), 0);
}

#[test]
fn entities_without_a_cached_box_cannot_collide() {
    let mut w = World::new();
    w.create(hero_bundle_at(400_000, 300_000, 5));
    w.set_bounding_box(0, Extent { width: 50_000, height: 100_000 });
    let mut enemy = rendered(moving_bundle(400_000, 300_000, 0, 0), "andador");
    enemy.enemy = Some(Enemy { score: 100 });
    w.create(enemy);
    // No bounding box was ever drawn for the enemy.
    let mut flag = GameStateFlagRes { flag: None };
    CollisionSystem::run(&mut w, &mut flag);
    assert_eq!(w.slots[0].hero.unwrap().lives, 5);
}

#[test]
fn healing_pickup_grants_a_life_and_points() {
    let mut w = World::new();
    w.create(hero_bundle_at(400_000, 300_000, 2));
    w.set_bounding_box(0, Extent { width: 50_000, height: 100_000 });
    let mut potion = rendered(moving_bundle(400_000, 310_000, 0, 0), "potion");
    potion.healing = Some(Healing { score: 50 });
    w.create(potion);
    w.set_bounding_box(1, Extent { width: 20_000, height: 20_000 });
    let mut flag = GameStateFlagRes { flag: None };
    CollisionSystem::run(&mut w, &mut flag);
    let h = w.slots[0].hero.unwrap();
    assert_eq!(h.lives, 3);
    assert_eq!(h.score, 50);
    w.reconcile();
    assert!(!w.slots[1].alive);
}

#[test]
fn fireball_hit_at_one_life_raises_defeat() {
    // Hero at one life, not blinking, overlapping a fireball body: after the
    // collision pass the hero is at zero lives and blinking, the fireball is
    // deleted, and the defeat flag is raised before the tick ends.
    let mut w = World::new();
    w.create(hero_bundle_at(400_000, 300_000, 1));
    w.set_bounding_box(0, Extent { width: 50_000, height: 100_000 });
    let mut ball = rendered(moving_bundle(400_000, 300_000, 0, 0), "fogo");
    ball.fireball = Some(Fireball { owner_id: None });
    w.create(ball);
    w.set_bounding_box(1, Extent { width: 10_000, height: 10_000 });
    let mut flag = GameStateFlagRes { flag: None };
    CollisionSystem::run(&mut w, &mut flag);
    let h = w.slots[0].hero.unwrap();
    assert_eq!(h.lives, 0);
    assert!(h.blinking);
    assert_eq!(flag.flag, Some(GameStateFlag::Defeat));
    // Both the fireball and the hero are queued for deletion this tick.
    assert_eq!(w.pending_deletes.len(), 2);
    w.reconcile();
    assert!(!w.slots[0].alive);
    assert!(!w.slots[1].alive);
}

#[test]
fn boss_stomp_decrements_and_wins_at_zero() {
    let mut w = World::new();
    w.create(hero_bundle_at(400_000, 300_000, 5));
    w.set_bounding_box(0, Extent { width: 50_000, height: 100_000 });
    let mut boss = rendered(moving_bundle(400_000, 390_000, 0, 0), "chefe");
    boss.enemy = Some(Enemy { score: 300 });
    boss.boss = Some(eangine::component::Boss { lives: 1, normal_lives: 1 });
    w.create(boss);
    w.set_bounding_box(1, Extent { width: 50_000, height: 100_000 });
    let mut flag = GameStateFlagRes { flag: None };
    CollisionSystem::run(&mut w, &mut flag);
    let h = w.slots[0].hero.unwrap();
    assert_eq!(h.score, 300);
    assert_eq!(h.lives, 5);
    assert!(h.blinking);
    assert!(h.reset_position);
    assert_eq!(w.slots[1].boss.unwrap().lives, 0);
    assert_eq!(flag.flag, Some(GameStateFlag::Victory));
    w.reconcile();
    assert!(!w.slots[1].alive);
}

#[test]
fn boss_phase_change_turns_it_angry() {
    let mut w = World::new();
    w.create(hero_bundle_at(400_000, 300_000, 5));
    w.set_bounding_box(0, Extent { width: 50_000, height: 100_000 });
    let mut boss = rendered(moving_bundle(400_000, 390_000, 0, 0), "chefe");
    boss.enemy = Some(Enemy { score: 300 });
    boss.boss = Some(eangine::component::Boss { lives: 10, normal_lives: 1 });
    boss.change_sprite = Some(eangine::component::ChangeSprite {
        new_sprite: String::from("chefeapelao"),
        do_change: false,
    });
    boss.shooter = Some(Shooter {
        projectile_sprite: String::from("tiro"),
        maximum_fireballs: 2,
        fireball_amount: 0,
        coefficient_1: 75,
        coefficient_2: -50,
    });
    w.create(boss);
    w.set_bounding_box(1, Extent { width: 50_000, height: 100_000 });
    let mut flag = GameStateFlagRes { flag: None };
    CollisionSystem::run(&mut w, &mut flag);
    assert_eq!(w.slots[1].boss.unwrap().lives, 9);
    assert_eq!(w.slots[1].boss.unwrap().normal_lives, 0);
    assert!(w.slots[1].change_sprite.as_ref().unwrap().do_change);
    assert_eq!(w.slots[1].shooter.as_ref().unwrap().maximum_fireballs, 4);
    assert_eq!(flag.flag, None);
    // The fight continues: the boss stays.
    w.reconcile();
    assert!(w.slots[1].alive);
}

#[test]
fn fireballs_of_other_owners_do_not_count() {
    let mut w = World::new();
    let mut shooter = moving_bundle(700_000, 400_000, 0, 0);
    shooter.shooter = Some(Shooter {
        projectile_sprite: String::from("tiro"),
        maximum_fireballs: 1,
        fireball_amount: 0,
        coefficient_1: 175,
        coefficient_2: 0,
    });
    w.create(shooter);
    // A stray fireball owned by some other row.
    let mut stray = moving_bundle(100_000, 100_000, 0, 0);
    stray.fireball = Some(Fireball { owner_id: Some(5) });
    w.create(stray);
    // An ownerless shower fireball.
    let mut shower = moving_bundle(200_000, 100_000, 0, 0);
    shower.fireball = Some(Fireball { owner_id: None });
    w.create(shower);
    FireballSystem::run(&mut w);
    // Neither counted toward the shooter, so one spawn was queued.
    assert_eq!(w.pending_spawns.len(), 1);
    assert_eq!(w.slots[0].shooter.as_ref().unwrap().fireball_amount, 1);
}

#[test]
fn shield_holds_across_ticks_until_it_expires() {
    let mut w = World::new();
    w.create(hero_bundle_at(400_000, 300_000, 5));
    w.set_bounding_box(0, Extent { width: 50_000, height: 100_000 });
    let mut enemy = rendered(moving_bundle(400_000, 300_000, 0, 0), "andador");
    enemy.enemy = Some(Enemy { score: 100 });
    w.create(enemy);
    w.set_bounding_box(1, Extent { width: 50_000, height: 100_000 });
    let mut flag = GameStateFlagRes { flag: None };
    // First tick: contact damage and the shield goes up.
    CollisionSystem::run(&mut w, &mut flag);
    HeroBlinkingSystem::run(&mut w, &DeltaTime { milliseconds: 100 });
    assert_eq!(w.slots[0].hero.unwrap().lives, 4);
    assert!(w.slots[0].hero.unwrap().blinking);
    // Second tick: still blinking, still in contact, no further damage.
    CollisionSystem::run(&mut w, &mut flag);
    assert_eq!(w.slots[0].hero.unwrap().lives, 4);
    // Once the shield expires, contact hurts again.
    HeroBlinkingSystem::run(&mut w, &DeltaTime { milliseconds: 1200 });
    assert!(!w.slots[0].hero.unwrap().blinking);
    CollisionSystem::run(&mut w, &mut flag);
    assert_eq!(w.slots[0].hero.unwrap().lives, 3);
}
