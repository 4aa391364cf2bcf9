//! The ECS manager: a world of entities, each a stable 128-bit handle
//! plus a set of components, and the store of models that renderable
//! components refer to.
//!
//! Lookup and destruction are defined by the first entity carrying the
//! handle's identifier; destroying an unknown handle returns `false` and
//! changes nothing.

use vstd::prelude::*;
use crate::component::{
    CameraComponent, NameComponent, PhysicsComponent, RenderableComponent, Transform2DComponent,
    Transform3DComponent,
};
use crate::entity::EntityHandle;
use crate::model::Model;
use crate::system::{
    physics_system, rendering_system, spec_is_synced, spec_last_write, spec_physics_step_rec,
    spec_sync_writes, spec_transform_step_rec, transform_system,
};

verus! {

/// What one tick does to one entity: the physics step, then the
/// transform step.
pub open spec fn spec_run_entity(e: EntityRec, dt: u32) -> EntityRec {
    spec_transform_step_rec(spec_physics_step_rec(e, dt), dt)
}

/// The set of components an entity carries; a component is attached when
/// its slot is `Some`. An entity with no components is valid but inert.
pub struct ComponentSet {
    pub name: Option<NameComponent>,
    pub transform2d: Option<Transform2DComponent>,
    pub transform3d: Option<Transform3DComponent>,
    pub physics: Option<PhysicsComponent>,
    pub renderable: Option<RenderableComponent>,
    pub camera: Option<CameraComponent>,
}

impl ComponentSet {
    /// The empty component set.
    pub fn empty() -> (r: ComponentSet)
        ensures
            r.name is None,
            r.transform2d is None,
            r.transform3d is None,
            r.physics is None,
            r.renderable is None,
            r.camera is None,
    {
        ComponentSet {
            name: None,
            transform2d: None,
            transform3d: None,
            physics: None,
            renderable: None,
            camera: None,
        }
    }
}

/// One entity: its handle's identifier and its components.
pub struct EntityRec {
    pub id: u128,
    pub components: ComponentSet,
}

/// The world: all entities, and the model store that renderable
/// components index into.
pub struct World {
    pub entities: Vec<EntityRec>,
    pub models: Vec<Model>,
}

/// True iff no two stored entities carry the same identifier. Handles
/// are process-unique, so every world built through the manager's API
/// keeps this; it is the hypothesis under which a destroyed handle is
/// guaranteed to resolve to nothing.
pub open spec fn spec_entity_ids_unique(entities: Seq<EntityRec>) -> bool {
    forall|i: int, j: int|
        0 <= i < j < entities.len() ==> (#[trigger] entities[i]).id != (#[trigger] entities[j]).id
}

/// Removing an entity keeps the identifiers distinct.
pub proof fn lemma_unique_after_remove(entities: Seq<EntityRec>, i: int)
    requires
        spec_entity_ids_unique(entities),
        0 <= i < entities.len(),
    ensures
        spec_entity_ids_unique(entities.remove(i)),
{
    let r = entities.remove(i);
    assert forall|a: int, b: int| 0 <= a < b < r.len() implies (#[trigger] r[a]).id != (
    #[trigger] r[b]).id by {
        let ea = if a < i {
            entities[a]
        } else {
            entities[a + 1]
        };
        let eb = if b < i {
            entities[b]
        } else {
            entities[b + 1]
        };
        assert(r[a] == ea);
        assert(r[b] == eb);
    }
}

/// Law: once an entity is destroyed, its handle resolves to nothing.
/// With distinct stored identifiers — which process-unique handles give —
/// removing the (then only) entity carrying the identifier leaves no
/// entity that a later lookup could find.
pub proof fn lemma_destroyed_handle_resolves_no_more(entities: Seq<EntityRec>, id: u128, i: int)
    requires
        spec_entity_ids_unique(entities),
        0 <= i < entities.len(),
        entities[i].id == id,
    ensures
        spec_find_entity(entities.remove(i), id) is None,
{
    let r = entities.remove(i);
    assert forall|j: int| 0 <= j < r.len() implies (#[trigger] r[j]).id != id by {
        if j < i {
            assert(r[j] == entities[j]);
        } else {
            assert(r[j] == entities[j + 1]);
        }
    }
    assert(!(exists|k: int| 0 <= k < r.len() && r[k].id == id));
}

/// The index of the first entity carrying `id`, if any.
pub open spec fn spec_find_entity(entities: Seq<EntityRec>, id: u128) -> Option<int> {
    if exists|i: int| 0 <= i < entities.len() && entities[i].id == id {
        Some(
            choose|i: int|
                0 <= i < entities.len() && entities[i].id == id && forall|j: int|
                    0 <= j < i ==> entities[j].id != id,
        )
    } else {
        None
    }
}

impl World {
    /// An empty world.
    pub fn new() -> (r: World)
        ensures
            r.entities@ == Seq::<EntityRec>::empty(),
            r.models@ == Seq::<Model>::empty(),
    {
        let r = World { entities: Vec::new(), models: Vec::new() };
        proof {
            assert(r.entities@ =~= Seq::<EntityRec>::empty());
            assert(r.models@ =~= Seq::<Model>::empty());
        }
        r
    }

    /// Add a model to the store; renderable components refer to it by the
    /// returned index.
    pub fn add_model(&mut self, model: Model) -> (idx: usize)
        ensures
            final(self).models@ == old(self).models@.push(model),
            final(self).entities@ == old(self).entities@,
            idx == old(self).models@.len(),
    {
        let idx = self.models.len();
        self.models.push(model);
        idx
    }

    /// The index of the first entity carrying the identifier, if any.
    pub fn find_entity(&self, id: u128) -> (r: Option<usize>)
        ensures
            match r {
                Some(i) => spec_find_entity(self.entities@, id) == Some(i as int) && i
                    < self.entities@.len() && self.entities@[i as int].id == id && forall|j: int|
                    0 <= j < i ==> self.entities@[j].id != id,
                None => spec_find_entity(self.entities@, id) is None,
            },
    {
        let mut i: usize = 0;
        while i < self.entities.len()
            invariant
                0 <= i <= self.entities@.len(),
                forall|j: int| 0 <= j < i ==> self.entities@[j].id != id,
            decreases self.entities@.len() - i,
        {
            if self.entities[i].id == id {
                proof {
                    let k = i as int;
                    let es = self.entities@;
                    assert(0 <= k < es.len() && es[k].id == id && forall|j: int|
                        0 <= j < k ==> es[j].id != id);
                    let c = choose|c: int|
                        0 <= c < es.len() && es[c].id == id && forall|j: int|
                            0 <= j < c ==> es[j].id != id;
                    if c < k {
                        assert(es[c].id != id);
                    }
                    if k < c {
                        assert(es[k].id != id);
                    }
                }
                return Some(i);
            }
            i += 1;
        }
        None
    }
}

/// The main ECS (Entity Component System) manager.
pub struct EcsManager {
    /// The world containing all entities and components.
    world: World,
}

impl EcsManager {
    /// The world, for contracts.
    pub closed spec fn spec_world(&self) -> World {
        self.world
    }

    /// Create a new ECS manager over an empty world.
    pub fn new() -> (r: EcsManager)
        ensures
            r.spec_world().entities@ == Seq::<EntityRec>::empty(),
            r.spec_world().models@ == Seq::<Model>::empty(),
    {
        EcsManager { world: World::new() }
    }

    /// Get a reference to the world.
    pub fn world(&self) -> (r: &World)
        ensures
            *r == self.spec_world(),
    {
        &self.world
    }

    /// Get a mutable reference to the world.
    pub fn world_mut(&mut self) -> (r: &mut World)
        ensures
            *r == old(self).spec_world(),
            final(self).spec_world() == *final(r),
    {
        &mut self.world
    }

    /// Create a new entity holding exactly the given components; the
    /// returned handle is immediately usable for lookup (its identifier
    /// is random, so freshness against the existing entities is the
    /// hypothesis of the lookup and uniqueness clauses).
    pub fn create_entity(&mut self, components: ComponentSet) -> (h: EntityHandle)
        ensures
            final(self).spec_world().entities@.len() == old(self).spec_world().entities@.len() + 1,
            final(self).spec_world().entities@.last().id == h.uuid,
            final(self).spec_world().entities@.last().components == components,
            final(self).spec_world().entities@.drop_last() == old(self).spec_world().entities@,
            final(self).spec_world().models@ == old(self).spec_world().models@,
            spec_find_entity(old(self).spec_world().entities@, h.uuid) is None
                ==> spec_find_entity(final(self).spec_world().entities@, h.uuid) == Some(
                old(self).spec_world().entities@.len() as int,
            ),
            (spec_entity_ids_unique(old(self).spec_world().entities@) && spec_find_entity(
                old(self).spec_world().entities@,
                h.uuid,
            ) is None) ==> spec_entity_ids_unique(final(self).spec_world().entities@),
    {
        let handle = EntityHandle::generate();
        let ghost before = self.world.entities@;
        self.world.entities.push(EntityRec { id: handle.uuid, components });
        proof {
            let now = self.world.entities@;
            let n = before.len() as int;
            assert(now.drop_last() =~= before);
            if spec_find_entity(before, handle.uuid) is None {
                assert forall|j: int| 0 <= j < n implies (#[trigger] before[j]).id
                    != handle.uuid by {
                    if before[j].id == handle.uuid {
                        assert(0 <= j < before.len() && before[j].id == handle.uuid);
                        assert(spec_find_entity(before, handle.uuid) is Some);
                    }
                }
                assert(0 <= n < now.len() && now[n].id == handle.uuid && forall|j: int|
                    0 <= j < n ==> (#[trigger] now[j]).id != handle.uuid);
                let c = choose|c: int|
                    0 <= c < now.len() && now[c].id == handle.uuid && forall|j: int|
                        0 <= j < c ==> now[j].id != handle.uuid;
                if c < n {
                    assert(now[c].id != handle.uuid);
                }
                if n < c {
                    assert(now[n].id != handle.uuid);
                }
                assert(spec_find_entity(now, handle.uuid) == Some(n));
                if spec_entity_ids_unique(before) {
                    assert forall|a: int, b: int| 0 <= a < b < now.len() implies (
                    #[trigger] now[a]).id != (#[trigger] now[b]).id by {
                        if b < n {
                            assert(now[a] == before[a]);
                            assert(now[b] == before[b]);
                        } else {
                            assert(now[a] == before[a]);
                            assert(now[b].id == handle.uuid);
                        }
                    }
                }
            }
        }
        handle
    }

    /// Get the index of an entity by its handle.
    pub fn get_entity(&self, handle: &EntityHandle) -> (r: Option<usize>)
        ensures
            match r {
                Some(i) => spec_find_entity(self.spec_world().entities@, handle.uuid) == Some(
                    i as int,
                ) && i < self.spec_world().entities@.len() && self.spec_world().entities@[
                    i as int
                ].id == handle.uuid,
                None => spec_find_entity(self.spec_world().entities@, handle.uuid) is None,
            },
    {
        self.world.find_entity(handle.uuid)
    }

    /// Destroy an entity by its handle. Returns `false`, changing
    /// nothing, if the handle is unknown (already destroyed or never
    /// created); this is an ordinary outcome, not an error. With distinct
    /// stored identifiers, a destroyed handle no longer resolves and the
    /// identifiers stay distinct.
    pub fn destroy_entity(&mut self, handle: &EntityHandle) -> (destroyed: bool)
        ensures
            match spec_find_entity(old(self).spec_world().entities@, handle.uuid) {
                Some(i) => destroyed && final(self).spec_world().entities@
                    == old(self).spec_world().entities@.remove(i),
                None => !destroyed && *final(self) == *old(self),
            },
            final(self).spec_world().models@ == old(self).spec_world().models@,
            spec_entity_ids_unique(old(self).spec_world().entities@) ==> (spec_entity_ids_unique(
                final(self).spec_world().entities@,
            ) && spec_find_entity(final(self).spec_world().entities@, handle.uuid) is None),
    {
        match self.world.find_entity(handle.uuid) {
            Some(i) => {
                let ghost before = self.world.entities@;
                self.world.entities.remove(i);
                proof {
                    if spec_entity_ids_unique(before) {
                        lemma_unique_after_remove(before, i as int);
                        lemma_destroyed_handle_resolves_no_more(before, handle.uuid, i as int);
                    }
                }
                true
            },
            None => false,
        }
    }

    /// Run all systems for one tick, in their fixed order: physics, then
    /// transform integration, then rendering synchronization. Every
    /// entity takes the physics step and then the transform step; every
    /// model ends up synced with the last write of the rendering pass
    /// over the updated entities, or untouched if no visible renderable
    /// targets it.
    pub fn run_systems(&mut self, delta_time: u32)
        ensures
            final(self).spec_world().entities@.len() == old(self).spec_world().entities@.len(),
            forall|k: int|
                0 <= k < old(self).spec_world().entities@.len()
                    ==> final(self).spec_world().entities@[k] == spec_run_entity(
                    #[trigger] old(self).spec_world().entities@[k],
                    delta_time,
                ),
            final(self).spec_world().models@.len() == old(self).spec_world().models@.len(),
            forall|m: int|
                0 <= m < old(self).spec_world().models@.len() ==> match spec_last_write(
                    spec_sync_writes(final(self).spec_world().entities@),
                    m,
                ) {
                    Some(t) => spec_is_synced(
                        old(self).spec_world().models@[m],
                        #[trigger] final(self).spec_world().models@[m],
                        t,
                    ),
                    None => final(self).spec_world().models@[m]
                        == old(self).spec_world().models@[m],
                },
    {
        physics_system(&mut self.world, delta_time);
        transform_system(&mut self.world, delta_time);
        rendering_system(&mut self.world);
    }
}

} // verus!
