//! The entity store: a generational table of component records plus the two
//! deferred-mutation queues.
//!
//! An entity is an index into the table together with the generation stamp it
//! was created under; a deletion is honoured only while both still match, so
//! a stale identifier is a harmless no-op.  Structural changes requested
//! while the per-tick systems iterate the table go through the queues and are
//! applied by [`World::reconcile`], called exactly once per frame after all
//! systems have run; immediate creation and deletion are reserved for code
//! that runs outside the pipeline (scene setup, round teardown).

use crate::component::{
    Background, Boss, CalculateOutOfBounds, ChangeSprite, Enemy, Fireball, Healing, Hero, Label,
    Position, Render, Shooter, Velocity,
};
use crate::geom::Extent;
use vstd::prelude::*;

verus! {

/// An entity identifier: table index plus generation stamp.
#[derive(Clone, Copy, Debug, PartialEq, Eq, Structural)]
pub struct EntityId {
    pub index: usize,
    pub generation: u64,
}

/// One row of the table: the liveness bit, the generation stamp, and an
/// optional record per component kind.  A dead row carries no components.
#[derive(Clone, Debug)]
pub struct Slot {
    pub generation: u64,
    pub alive: bool,
    pub position: Option<Position>,
    pub velocity: Option<Velocity>,
    pub render: Option<Render>,
    pub shooter: Option<Shooter>,
    pub label: Option<Label>,
    pub hero: Option<Hero>,
    pub boss: Option<Boss>,
    pub change_sprite: Option<ChangeSprite>,
    pub enemy: Option<Enemy>,
    pub healing: Option<Healing>,
    pub background: Option<Background>,
    pub out_of_bounds: Option<CalculateOutOfBounds>,
    pub fireball: Option<Fireball>,
}

/// The component bundle of one entity about to be created.
#[derive(Clone, Debug)]
pub struct SpawnBundle {
    pub position: Option<Position>,
    pub velocity: Option<Velocity>,
    pub render: Option<Render>,
    pub shooter: Option<Shooter>,
    pub label: Option<Label>,
    pub hero: Option<Hero>,
    pub boss: Option<Boss>,
    pub change_sprite: Option<ChangeSprite>,
    pub enemy: Option<Enemy>,
    pub healing: Option<Healing>,
    pub background: Option<Background>,
    pub out_of_bounds: Option<CalculateOutOfBounds>,
    pub fireball: Option<Fireball>,
}

impl SpawnBundle {
    /// A bundle with no components; factories fill in what they need.
    pub fn empty() -> (b: SpawnBundle)
        ensures
            b == SpawnBundle::spec_empty(),
    {
        SpawnBundle {
            position: None,
            velocity: None,
            render: None,
            shooter: None,
            label: None,
            hero: None,
            boss: None,
            change_sprite: None,
            enemy: None,
            healing: None,
            background: None,
            out_of_bounds: None,
            fireball: None,
        }
    }

    pub open spec fn spec_empty() -> SpawnBundle {
        SpawnBundle {
            position: None,
            velocity: None,
            render: None,
            shooter: None,
            label: None,
            hero: None,
            boss: None,
            change_sprite: None,
            enemy: None,
            healing: None,
            background: None,
            out_of_bounds: None,
            fireball: None,
        }
    }
}

impl Slot {
    /// The live row a bundle becomes when realized under stamp `generation`.
    pub open spec fn from_bundle(b: SpawnBundle, generation: u64) -> Slot {
        Slot {
            generation,
            alive: true,
            position: b.position,
            velocity: b.velocity,
            render: b.render,
            shooter: b.shooter,
            label: b.label,
            hero: b.hero,
            boss: b.boss,
            change_sprite: b.change_sprite,
            enemy: b.enemy,
            healing: b.healing,
            background: b.background,
            out_of_bounds: b.out_of_bounds,
            fireball: b.fireball,
        }
    }

    /// The same row after deletion: dead, components dropped, stamp kept.
    pub open spec fn killed(self) -> Slot {
        Slot {
            generation: self.generation,
            alive: false,
            position: None,
            velocity: None,
            render: None,
            shooter: None,
            label: None,
            hero: None,
            boss: None,
            change_sprite: None,
            enemy: None,
            healing: None,
            background: None,
            out_of_bounds: None,
            fireball: None,
        }
    }
}

/// The generation stamp following `g`.
pub open spec fn next_gen(g: u64) -> u64 {
    if g == u64::MAX {
        0
    } else {
        (g + 1) as u64
    }
}

/// The generation stamp `k` creations after `g`.
pub open spec fn gen_plus(g: u64, k: int) -> u64
    decreases k,
{
    if k <= 0 {
        g
    } else {
        next_gen(gen_plus(g, k - 1))
    }
}

/// Whether some queued deletion legitimately targets row `i` of `slots`:
/// the row is live and both index and stamp match.
pub open spec fn delete_hits(slots: Seq<Slot>, dels: Seq<EntityId>, i: int) -> bool {
    exists|k: int|
        0 <= k < dels.len() && (#[trigger] dels[k]).index == i && dels[k].generation
            == slots[i].generation && slots[i].alive
}

/// Row `i` after the whole deletion queue has been applied.
pub open spec fn after_deletes(slots: Seq<Slot>, dels: Seq<EntityId>, i: int) -> Slot {
    if delete_hits(slots, dels, i) {
        slots[i].killed()
    } else {
        slots[i]
    }
}

/// The identifier of row `i`.
pub open spec fn id_of(slots: Seq<Slot>, i: int) -> EntityId {
    EntityId { index: i as usize, generation: slots[i].generation }
}

/// Extending the deletion queue by one entry hits row `i` exactly when the
/// queue already hit it or the new entry targets it.
pub proof fn lemma_delete_hits_push(slots: Seq<Slot>, dels: Seq<EntityId>, d: EntityId, i: int)
    requires
        0 <= i < slots.len(),
    ensures
        delete_hits(slots, dels.push(d), i) <==> (delete_hits(slots, dels, i) || (d.index == i
            && d.generation == slots[i].generation && slots[i].alive)),
{
    let ext = dels.push(d);
    if delete_hits(slots, ext, i) {
        let k = choose|k: int|
            0 <= k < ext.len() && (#[trigger] ext[k]).index == i && ext[k].generation
                == slots[i].generation && slots[i].alive;
        if k < dels.len() {
            assert(dels[k] == ext[k]);
            assert(delete_hits(slots, dels, i));
        } else {
            assert(ext[k] == d);
        }
    }
    if delete_hits(slots, dels, i) {
        let k = choose|k: int|
            0 <= k < dels.len() && (#[trigger] dels[k]).index == i && dels[k].generation
                == slots[i].generation && slots[i].alive;
        assert(ext[k] == dels[k]);
        assert(delete_hits(slots, ext, i));
    }
    if d.index == i && d.generation == slots[i].generation && slots[i].alive {
        assert(ext[dels.len() as int] == d);
        assert(delete_hits(slots, ext, i));
    }
}

/// The entity store.
pub struct World {
    pub slots: Vec<Slot>,
    pub next_generation: u64,
    pub pending_spawns: Vec<SpawnBundle>,
    pub pending_deletes: Vec<EntityId>,
}

impl World {
    /// An empty store.
    pub fn new() -> (w: World)
        ensures
            w.slots@.len() == 0,
            w.next_generation == 0,
            w.pending_spawns@.len() == 0,
            w.pending_deletes@.len() == 0,
    {
        World {
            slots: Vec::new(),
            next_generation: 0,
            pending_spawns: Vec::new(),
            pending_deletes: Vec::new(),
        }
    }

    /// Immediately realizes `bundle` as a fresh entity and returns its
    /// identifier; legal only outside the system pipeline.
    pub fn create(&mut self, bundle: SpawnBundle) -> (id: EntityId)
        ensures
            final(self).slots@ == old(self).slots@.push(
                Slot::from_bundle(bundle, old(self).next_generation),
            ),
            final(self).next_generation == next_gen(old(self).next_generation),
            final(self).pending_spawns@ == old(self).pending_spawns@,
            final(self).pending_deletes@ == old(self).pending_deletes@,
            id.index == old(self).slots@.len(),
            id.generation == old(self).next_generation,
    {
        let generation = self.next_generation;
        let index = self.slots.len();
        self.slots.push(
            Slot {
                generation,
                alive: true,
                position: bundle.position,
                velocity: bundle.velocity,
                render: bundle.render,
                shooter: bundle.shooter,
                label: bundle.label,
                hero: bundle.hero,
                boss: bundle.boss,
                change_sprite: bundle.change_sprite,
                enemy: bundle.enemy,
                healing: bundle.healing,
                background: bundle.background,
                out_of_bounds: bundle.out_of_bounds,
                fireball: bundle.fireball,
            },
        );
        self.next_generation = if generation == u64::MAX {
            0
        } else {
            generation + 1
        };
        EntityId { index, generation }
    }

    /// Queues `bundle` for creation at the next reconciliation point; used by
    /// systems that are mid-iteration over the table.
    pub fn create_deferred(&mut self, bundle: SpawnBundle)
        ensures
            final(self).slots@ == old(self).slots@,
            final(self).next_generation == old(self).next_generation,
            final(self).pending_spawns@ == old(self).pending_spawns@.push(bundle),
            final(self).pending_deletes@ == old(self).pending_deletes@,
    {
        self.pending_spawns.push(bundle);
    }

    /// Queues `id` for deletion at the next reconciliation point.
    pub fn delete_deferred(&mut self, id: EntityId)
        ensures
            final(self).slots@ == old(self).slots@,
            final(self).next_generation == old(self).next_generation,
            final(self).pending_spawns@ == old(self).pending_spawns@,
            final(self).pending_deletes@ == old(self).pending_deletes@.push(id),
    {
        self.pending_deletes.push(id);
    }

    /// Clears row `i`; the stamp survives so the row's old identifiers stay
    /// recognisably stale.
    fn kill_row(&mut self, i: usize)
        requires
            i < old(self).slots@.len(),
        ensures
            final(self).slots@ == old(self).slots@.update(i as int, old(self).slots@[i as int].killed()),
            final(self).next_generation == old(self).next_generation,
            final(self).pending_spawns@ == old(self).pending_spawns@,
            final(self).pending_deletes@ == old(self).pending_deletes@,
    {
        let row = &mut self.slots[i];
        row.alive = false;
        row.position = None;
        row.velocity = None;
        row.render = None;
        row.shooter = None;
        row.label = None;
        row.hero = None;
        row.boss = None;
        row.change_sprite = None;
        row.enemy = None;
        row.healing = None;
        row.background = None;
        row.out_of_bounds = None;
        row.fireball = None;
    }

    /// Immediately deletes `id` if it is still current; otherwise does
    /// nothing.  Legal only outside the system pipeline.
    pub fn delete(&mut self, id: EntityId)
        ensures
            final(self).slots@.len() == old(self).slots@.len(),
            forall|i: int|
                0 <= i < old(self).slots@.len() ==> final(self).slots@[i] == after_deletes(
                    old(self).slots@,
                    seq![id],
                    i,
                ),
            final(self).next_generation == old(self).next_generation,
            final(self).pending_spawns@ == old(self).pending_spawns@,
            final(self).pending_deletes@ == old(self).pending_deletes@,
    {
        if id.index < self.slots.len() {
            let row = &self.slots[id.index];
            if row.alive && row.generation == id.generation {
                self.kill_row(id.index);
            }
        }
        proof {
            assert forall|i: int| 0 <= i < old(self).slots@.len() implies self.slots@[i]
                == after_deletes(old(self).slots@, seq![id], i) by {
                lemma_delete_hits_push(old(self).slots@, Seq::empty(), id, i);
                assert(Seq::<EntityId>::empty().push(id) =~= seq![id]);
                assert(!delete_hits(old(self).slots@, Seq::<EntityId>::empty(), i));
            }
        }
    }

    /// Deletes every entity at once (round teardown); the queues survive and
    /// are still drained by the next reconciliation.
    pub fn delete_all(&mut self)
        ensures
            final(self).slots@.len() == old(self).slots@.len(),
            forall|i: int|
                0 <= i < old(self).slots@.len() ==> final(self).slots@[i] == old(
                    self,
                ).slots@[i].killed(),
            final(self).next_generation == old(self).next_generation,
            final(self).pending_spawns@ == old(self).pending_spawns@,
            final(self).pending_deletes@ == old(self).pending_deletes@,
    {
        let n = self.slots.len();
        let mut i: usize = 0;
        while i < n
            invariant
                i <= n,
                n == self.slots@.len(),
                forall|j: int| 0 <= j < i ==> self.slots@[j] == old(self).slots@[j].killed(),
                forall|j: int| i <= j < n ==> self.slots@[j] == old(self).slots@[j],
                self.next_generation == old(self).next_generation,
                self.pending_spawns@ == old(self).pending_spawns@,
                self.pending_deletes@ == old(self).pending_deletes@,
            decreases n - i,
        {
            self.kill_row(i);
            i = i + 1;
        }
    }

    /// The once-per-frame reconciliation: applies every queued deletion,
    /// then realizes every queued creation in order at the end of the table,
    /// then leaves both queues empty.
    pub fn reconcile(&mut self)
        ensures
            final(self).slots@.len() == old(self).slots@.len() + old(self).pending_spawns@.len(),
            forall|i: int|
                0 <= i < old(self).slots@.len() ==> final(self).slots@[i] == after_deletes(
                    old(self).slots@,
                    old(self).pending_deletes@,
                    i,
                ),
            forall|k: int|
                0 <= k < old(self).pending_spawns@.len() ==> final(self).slots@[old(
                    self,
                ).slots@.len() + k] == Slot::from_bundle(
                    old(self).pending_spawns@[k],
                    gen_plus(old(self).next_generation, k),
                ),
            final(self).next_generation == gen_plus(
                old(self).next_generation,
                old(self).pending_spawns@.len() as int,
            ),
            final(self).pending_spawns@.len() == 0,
            final(self).pending_deletes@.len() == 0,
    {
        let ghost slots0 = self.slots@;
        let ghost dels0 = self.pending_deletes@;
        let n = self.slots.len();
        let mut k: usize = 0;
        while k < self.pending_deletes.len()
            invariant
                k <= self.pending_deletes@.len(),
                self.pending_deletes@ == dels0,
                self.slots@.len() == slots0.len(),
                n == slots0.len(),
                forall|i: int|
                    0 <= i < slots0.len() ==> self.slots@[i] == after_deletes(
                        slots0,
                        dels0.take(k as int),
                        i,
                    ),
                self.next_generation == old(self).next_generation,
                self.pending_spawns@ == old(self).pending_spawns@,
            decreases self.pending_deletes@.len() - k,
        {
            let d = self.pending_deletes[k];
            proof {
                assert(dels0.take(k as int + 1) =~= dels0.take(k as int).push(dels0[k as int]));
            }
            if d.index < n {
                let row = &self.slots[d.index];
                if row.alive && row.generation == d.generation {
                    self.kill_row(d.index);
                }
            }
            proof {
                assert forall|i: int| 0 <= i < slots0.len() implies self.slots@[i] == after_deletes(
                    slots0,
                    dels0.take(k as int + 1),
                    i,
                ) by {
                    lemma_delete_hits_push(slots0, dels0.take(k as int), d, i);
                }
            }
            k = k + 1;
        }
        proof {
            assert(dels0.take(dels0.len() as int) =~= dels0);
        }
        self.pending_deletes.clear();

        let ghost killed = self.slots@;
        let ghost spawns0 = self.pending_spawns@;
        let ghost g0 = self.next_generation;
        let mut spawns: Vec<SpawnBundle> = Vec::new();
        core::mem::swap(&mut spawns, &mut self.pending_spawns);
        let total = spawns.len();
        let ghost mut j: int = 0;
        while spawns.len() > 0
            invariant
                0 <= j <= spawns0.len(),
                total == spawns0.len(),
                spawns@ == spawns0.skip(j),
                self.slots@.len() == killed.len() + j,
                forall|i: int| 0 <= i < killed.len() ==> self.slots@[i] == killed[i],
                forall|m: int|
                    0 <= m < j ==> self.slots@[killed.len() + m] == Slot::from_bundle(
                        spawns0[m],
                        gen_plus(g0, m),
                    ),
                self.next_generation == gen_plus(g0, j),
                self.pending_spawns@.len() == 0,
                self.pending_deletes@.len() == 0,
            decreases spawns@.len(),
        {
            let bundle = spawns.remove(0);
            proof {
                assert(spawns0.skip(j)[0] == spawns0[j]);
                assert(spawns0.skip(j).remove(0) =~= spawns0.skip(j + 1));
            }
            let generation = self.next_generation;
            self.slots.push(
                Slot {
                    generation,
                    alive: true,
                    position: bundle.position,
                    velocity: bundle.velocity,
                    render: bundle.render,
                    shooter: bundle.shooter,
                    label: bundle.label,
                    hero: bundle.hero,
                    boss: bundle.boss,
                    change_sprite: bundle.change_sprite,
                    enemy: bundle.enemy,
                    healing: bundle.healing,
                    background: bundle.background,
                    out_of_bounds: bundle.out_of_bounds,
                    fireball: bundle.fireball,
                },
            );
            self.next_generation = if generation == u64::MAX {
                0
            } else {
                generation + 1
            };
            proof {
                j = j + 1;
            }
        }
        proof {
            assert(j == spawns0.len());
            assert(dels0.take(dels0.len() as int) == dels0);
            assert forall|i: int| 0 <= i < slots0.len() implies self.slots@[i] == after_deletes(
                slots0,
                dels0,
                i,
            ) by {
                assert(self.slots@[i] == killed[i]);
                assert(killed[i] == after_deletes(slots0, dels0.take(dels0.len() as int), i));
            }
        }
    }

    /// Caches a freshly drawn bounding box on row `index`; ignored when the
    /// row is not a live renderable entity.
    pub fn set_bounding_box(&mut self, index: usize, extent: Extent)
        ensures
            final(self).slots@.len() == old(self).slots@.len(),
            forall|i: int|
                0 <= i < old(self).slots@.len() && i != index ==> final(self).slots@[i] == old(
                    self,
                ).slots@[i],
            (index < old(self).slots@.len() && old(self).slots@[index as int].alive && old(
                self,
            ).slots@[index as int].render is Some) ==> final(self).slots@[index as int] == (Slot {
                render: Some(
                    Render {
                        sprite: old(self).slots@[index as int].render->Some_0.sprite,
                        bounding_box: Some(extent),
                    },
                ),
                ..old(self).slots@[index as int]
            }),
            !(index < old(self).slots@.len() && old(self).slots@[index as int].alive && old(
                self,
            ).slots@[index as int].render is Some) ==> final(self).slots@ == old(self).slots@,
            final(self).next_generation == old(self).next_generation,
            final(self).pending_spawns@ == old(self).pending_spawns@,
            final(self).pending_deletes@ == old(self).pending_deletes@,
    {
        if index < self.slots.len() {
            let row = &mut self.slots[index];
            if row.alive && row.render.is_some() {
                match &mut row.render {
                    Some(render) => {
                        render.bounding_box = Some(extent);
                    },
                    None => {},
                }
            }
        }
    }
}

} // verus!
