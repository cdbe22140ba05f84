use eangine::component::{Enemy, Position};
use eangine::geom::{Extent, Vec2};
use eangine::world::{EntityId, SpawnBundle, World};

fn enemy_bundle_at(x: i64, y: i64, score: i64) -> SpawnBundle {
    let mut b = SpawnBundle::empty();
    b.position = Some(Position { position: Vec2 { x, y } });
    b.enemy = Some(Enemy { score });
    b
}

#[test]
fn create_returns_fresh_identifiers() {
    let mut w = World::new();
    let a = w.create(enemy_bundle_at(0, 0, 1));
    let b = w.create(enemy_bundle_at(1, 1, 2));
    assert_eq!(a.index, 0);
    assert_eq!(b.index, 1);
    assert_ne!(a.generation, b.generation);
    assert!(w.slots[0].alive);
    assert!(w.slots[1].alive);
    assert_eq!(w.slots[1].enemy.unwrap().score, 2);
}

#[test]
fn immediate_delete_clears_the_row() {
    let mut w = World::new();
    let a = w.create(enemy_bundle_at(0, 0, 1));
    w.delete(a);
    assert!(!w.slots[0].alive);
    assert!(w.slots[0].enemy.is_none());
    assert!(w.slots[0].position.is_none());
}

#[test]
fn stale_delete_is_a_no_op() {
    let mut w = World::new();
    let a = w.create(enemy_bundle_at(0, 0, 1));
    // Wrong generation: ignored.
    w.delete(EntityId { index: a.index, generation: a.generation + 1 });
    assert!(w.slots[0].alive);
    // Out-of-range index: ignored.
    w.delete(EntityId { index: 7, generation: 0 });
    assert!(w.slots[0].alive);
    // Deleting twice is harmless.
    w.delete(a);
    w.delete(a);
    assert!(!w.slots[0].alive);
}

#[test]
fn deferred_mutation_waits_for_reconcile() {
    let mut w = World::new();
    let a = w.create(enemy_bundle_at(0, 0, 1));
    w.create_deferred(enemy_bundle_at(5, 5, 9));
    w.delete_deferred(a);
    // Nothing structural happened yet.
    assert_eq!(w.slots.len(), 1);
    assert!(w.slots[0].alive);
    w.reconcile();
    // The deletion and the creation both landed, and the queues are empty.
    assert_eq!(w.slots.len(), 2);
    assert!(!w.slots[0].alive);
    assert!(w.slots[1].alive);
    assert_eq!(w.slots[1].enemy.unwrap().score, 9);
    assert_eq!(w.pending_spawns.len(), 0);
    assert_eq!(w.pending_deletes.len(), 0);
}

#[test]
fn delete_all_spares_the_queues() {
    let mut w = World::new();
    w.create(enemy_bundle_at(0, 0, 1));
    w.create(enemy_bundle_at(1, 1, 2));
    w.create_deferred(enemy_bundle_at(2, 2, 3));
    w.delete_all();
    assert!(!w.slots[0].alive);
    assert!(!w.slots[1].alive);
    assert_eq!(w.pending_spawns.len(), 1);
    w.reconcile();
    assert_eq!(w.slots.len(), 3);
    assert!(w.slots[2].alive);
}

#[test]
fn bounding_box_is_cached_on_render_rows_only() {
    let mut w = World::new();
    let mut b = enemy_bundle_at(0, 0, 1);
    b.render = Some(eangine::component::Render {
        sprite: String::from("andador"),
        bounding_box: None,
    });
    let a = w.create(b);
    w.set_bounding_box(a.index, Extent { width: 40_000, height: 60_000 });
    let cached = w.slots[0].render.as_ref().unwrap().bounding_box.unwrap();
    assert_eq!(cached.width, 40_000);
    assert_eq!(cached.height, 60_000);
    // A row without a render record ignores the report.
    let c = w.create(enemy_bundle_at(1, 1, 2));
    w.set_bounding_box(c.index, Extent { width: 1, height: 1 });
    assert!(w.slots[1].render.is_none());
}
