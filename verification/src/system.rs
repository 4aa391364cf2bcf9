//! The three per-tick systems, in their fixed run order: physics
//! integration, transform integration, and rendering synchronization.
//!
//! Physics applies gravity to every physics component that opts in;
//! transform integrates 2D position and rotation from the physics
//! velocities; rendering-sync pushes the world transform of every visible
//! renderable into its model's uniform buffer image. The sync writes are
//! computed as an explicit list, so a host driving a real GPU queue can
//! apply exactly the same writes.

use vstd::prelude::*;
use crate::component::{PhysicsComponent, Transform2DComponent};
use crate::ecs::{ComponentSet, EntityRec, World};
use crate::fbits::{F32_ONE, F32_ZERO};
use crate::glam_ops::{
    f32_add, f32_mul, glam_f32_add, glam_f32_mul, glam_rot_z_quat, glam_vec2_add, glam_vec2_scale,
    quat_from_rotation_z, vec2_add, vec2_scale,
};
use crate::gpu_bytes::spec_words_le_bytes;
use crate::math::{QuatBits, Vec2Bits, Vec3Bits};
use crate::model::{Model, ModelTransform, spec_model_matrix};

verus! {

/// The X component of the gravity vector, `0.0f32`.
pub const GRAVITY_X_BITS: u32 = 0x0000_0000;

/// The Y component of the gravity vector, `-9.81f32`.
pub const GRAVITY_Y_BITS: u32 = 0xc11c_f5c3;

/// The constant gravity vector `(0.0, -9.81)`.
pub open spec fn spec_gravity() -> Vec2Bits {
    Vec2Bits { x: GRAVITY_X_BITS, y: GRAVITY_Y_BITS }
}

/// What the physics system does to one entity's components: a physics
/// component with `use_gravity` set gains `gravity * dt` of velocity;
/// everything else is untouched.
pub open spec fn spec_physics_step(c: ComponentSet, dt: u32) -> ComponentSet {
    match c.physics {
        Some(p) => if p.use_gravity {
            ComponentSet {
                physics: Some(
                    PhysicsComponent {
                        velocity: Vec2Bits {
                            x: glam_vec2_add(
                                p.velocity@,
                                glam_vec2_scale(spec_gravity()@, dt),
                            )[0],
                            y: glam_vec2_add(
                                p.velocity@,
                                glam_vec2_scale(spec_gravity()@, dt),
                            )[1],
                        },
                        ..p
                    },
                ),
                ..c
            }
        } else {
            c
        },
        None => c,
    }
}

/// The physics step applied to a whole entity.
pub open spec fn spec_physics_step_rec(e: EntityRec, dt: u32) -> EntityRec {
    EntityRec { id: e.id, components: spec_physics_step(e.components, dt) }
}

/// What the transform system does to one entity's components: an entity
/// with both a 2D transform and a physics component has its position
/// integrated by `velocity * dt` and its rotation by
/// `angular_velocity * dt`; everything else is untouched.
pub open spec fn spec_transform_step(c: ComponentSet, dt: u32) -> ComponentSet {
    match (c.transform2d, c.physics) {
        (Some(t), Some(p)) => ComponentSet {
            transform2d: Some(
                Transform2DComponent {
                    position: Vec2Bits {
                        x: glam_vec2_add(t.position@, glam_vec2_scale(p.velocity@, dt))[0],
                        y: glam_vec2_add(t.position@, glam_vec2_scale(p.velocity@, dt))[1],
                    },
                    rotation: glam_f32_add(t.rotation, glam_f32_mul(p.angular_velocity, dt)),
                    scale: t.scale,
                },
            ),
            ..c
        },
        _ => c,
    }
}

/// The transform step applied to a whole entity.
pub open spec fn spec_transform_step_rec(e: EntityRec, dt: u32) -> EntityRec {
    EntityRec { id: e.id, components: spec_transform_step(e.components, dt) }
}

/// One pending uniform-buffer write: which model, and the world transform
/// to write.
#[derive(Clone, Copy, PartialEq, Eq, Structural, Debug)]
pub struct SyncWrite {
    pub model: usize,
    pub transform: ModelTransform,
}

/// A 2D transform embedded in 3D: the position in the Z = 0 plane, the
/// rotation as a quaternion about the Z axis, the scale with Z left at 1.
pub open spec fn spec_embed_transform2d(t: Transform2DComponent) -> ModelTransform {
    ModelTransform {
        position: Vec3Bits { x: t.position.x, y: t.position.y, z: F32_ZERO },
        rotation: QuatBits {
            x: glam_rot_z_quat(t.rotation)[0],
            y: glam_rot_z_quat(t.rotation)[1],
            z: glam_rot_z_quat(t.rotation)[2],
            w: glam_rot_z_quat(t.rotation)[3],
        },
        scale: Vec3Bits { x: t.scale.x, y: t.scale.y, z: F32_ONE },
    }
}

/// The sync write of one entity's 2D pass: present iff it has both a 2D
/// transform and a visible renderable.
pub open spec fn spec_entity_sync_2d(c: ComponentSet) -> Option<SyncWrite> {
    match (c.transform2d, c.renderable) {
        (Some(t), Some(r)) => if r.visible {
            Some(SyncWrite { model: r.model, transform: spec_embed_transform2d(t) })
        } else {
            None
        },
        _ => None,
    }
}

/// The sync write of one entity's 3D pass: present iff it has both a 3D
/// transform and a visible renderable.
pub open spec fn spec_entity_sync_3d(c: ComponentSet) -> Option<SyncWrite> {
    match (c.transform3d, c.renderable) {
        (Some(t), Some(r)) => if r.visible {
            Some(
                SyncWrite {
                    model: r.model,
                    transform: ModelTransform {
                        position: t.position,
                        rotation: t.rotation,
                        scale: t.scale,
                    },
                },
            )
        } else {
            None
        },
        _ => None,
    }
}

/// An optional write as a (0- or 1-element) write list.
pub open spec fn spec_opt_write_seq(o: Option<SyncWrite>) -> Seq<SyncWrite> {
    match o {
        Some(w) => seq![w],
        None => Seq::empty(),
    }
}

/// The writes of the 2D pass, in entity order.
pub open spec fn spec_sync_writes_2d(es: Seq<EntityRec>) -> Seq<SyncWrite>
    decreases es.len(),
{
    if es.len() == 0 {
        Seq::empty()
    } else {
        spec_opt_write_seq(spec_entity_sync_2d(es[0].components)) + spec_sync_writes_2d(
            es.drop_first(),
        )
    }
}

/// The writes of the 3D pass, in entity order.
pub open spec fn spec_sync_writes_3d(es: Seq<EntityRec>) -> Seq<SyncWrite>
    decreases es.len(),
{
    if es.len() == 0 {
        Seq::empty()
    } else {
        spec_opt_write_seq(spec_entity_sync_3d(es[0].components)) + spec_sync_writes_3d(
            es.drop_first(),
        )
    }
}

/// All sync writes of one tick: the whole 2D pass, then the whole 3D
/// pass.
pub open spec fn spec_sync_writes(es: Seq<EntityRec>) -> Seq<SyncWrite> {
    spec_sync_writes_2d(es) + spec_sync_writes_3d(es)
}

/// Appending an entity appends its (optional) 2D write.
pub proof fn lemma_sync_writes_2d_push(es: Seq<EntityRec>, e: EntityRec)
    ensures
        spec_sync_writes_2d(es.push(e)) == spec_sync_writes_2d(es) + spec_opt_write_seq(
            spec_entity_sync_2d(e.components),
        ),
    decreases es.len(),
{
    let p = es.push(e);
    if es.len() == 0 {
        assert(p[0] == e);
        assert(p.drop_first() =~= Seq::<EntityRec>::empty());
        assert(spec_sync_writes_2d(Seq::<EntityRec>::empty()) == Seq::<SyncWrite>::empty());
        assert(spec_sync_writes_2d(p) =~= spec_sync_writes_2d(es) + spec_opt_write_seq(
            spec_entity_sync_2d(e.components),
        ));
    } else {
        lemma_sync_writes_2d_push(es.drop_first(), e);
        assert(p.drop_first() =~= es.drop_first().push(e));
        assert(p[0] == es[0]);
        assert(spec_sync_writes_2d(p) =~= spec_sync_writes_2d(es) + spec_opt_write_seq(
            spec_entity_sync_2d(e.components),
        ));
    }
}

/// Appending an entity appends its (optional) 3D write.
pub proof fn lemma_sync_writes_3d_push(es: Seq<EntityRec>, e: EntityRec)
    ensures
        spec_sync_writes_3d(es.push(e)) == spec_sync_writes_3d(es) + spec_opt_write_seq(
            spec_entity_sync_3d(e.components),
        ),
    decreases es.len(),
{
    let p = es.push(e);
    if es.len() == 0 {
        assert(p[0] == e);
        assert(p.drop_first() =~= Seq::<EntityRec>::empty());
        assert(spec_sync_writes_3d(Seq::<EntityRec>::empty()) == Seq::<SyncWrite>::empty());
        assert(spec_sync_writes_3d(p) =~= spec_sync_writes_3d(es) + spec_opt_write_seq(
            spec_entity_sync_3d(e.components),
        ));
    } else {
        lemma_sync_writes_3d_push(es.drop_first(), e);
        assert(p.drop_first() =~= es.drop_first().push(e));
        assert(p[0] == es[0]);
        assert(spec_sync_writes_3d(p) =~= spec_sync_writes_3d(es) + spec_opt_write_seq(
            spec_entity_sync_3d(e.components),
        ));
    }
}

/// Law: if every renderable in the world is invisible, the rendering-sync
/// pass issues no write at all — no model's uniform buffer is touched.
pub proof fn lemma_invisible_renderables_write_nothing(es: Seq<EntityRec>)
    requires
        forall|i: int|
            0 <= i < es.len() ==> match #[trigger] es[i].components.renderable {
                Some(r) => !r.visible,
                None => true,
            },
    ensures
        spec_sync_writes(es) == Seq::<SyncWrite>::empty(),
    decreases es.len(),
{
    if es.len() == 0 {
        assert(spec_sync_writes(es) =~= Seq::<SyncWrite>::empty());
    } else {
        assert(es.drop_first() =~= es.subrange(1, es.len() as int));
        assert forall|i: int| 0 <= i < es.drop_first().len() implies match #[trigger] es.drop_first()[i].components.renderable {
            Some(r) => !r.visible,
            None => true,
        } by {
            assert(es.drop_first()[i] == es[i + 1]);
        }
        lemma_invisible_renderables_write_nothing(es.drop_first());
        assert(spec_entity_sync_2d(es[0].components) is None);
        assert(spec_entity_sync_3d(es[0].components) is None);
        assert(spec_sync_writes(es) =~= Seq::<SyncWrite>::empty());
    }
}

/// The transform carried by the last write in `ws` that targets model
/// `m`, if any.
pub open spec fn spec_last_write(ws: Seq<SyncWrite>, m: int) -> Option<ModelTransform>
    decreases ws.len(),
{
    if ws.len() == 0 {
        None
    } else if ws.last().model == m {
        Some(ws.last().transform)
    } else {
        spec_last_write(ws.drop_last(), m)
    }
}

/// Appending a write overrides the last write for its own model and
/// leaves every other model's last write unchanged.
pub proof fn lemma_last_write_push(ws: Seq<SyncWrite>, w: SyncWrite, m: int)
    ensures
        spec_last_write(ws.push(w), m) == if w.model == m {
            Some(w.transform)
        } else {
            spec_last_write(ws, m)
        },
{
    assert(ws.push(w).drop_last() =~= ws);
    assert(ws.push(w).last() == w);
}

/// How a synced model relates to what it was: same shared mesh and
/// material, the new transform, and — exactly when it had a uniform
/// buffer — the buffer now holds the new transform's matrix bytes.
pub open spec fn spec_is_synced(before: Model, after: Model, t: ModelTransform) -> bool {
    &&& after.mesh == before.mesh
    &&& after.material == before.material
    &&& after.transform == t
    &&& (before.spec_model_buffer() is Some ==> after.spec_model_buffer() == Some(
        spec_words_le_bytes(spec_model_matrix(t)),
    ))
    &&& (before.spec_model_buffer() is None ==> after.spec_model_buffer() is None)
}

/// System that handles physics calculations: applies the constant gravity
/// vector, scaled by the elapsed time, to every physics component flagged
/// `use_gravity`.
pub fn physics_system(world: &mut World, delta_time: u32)
    ensures
        final(world).entities@.len() == old(world).entities@.len(),
        forall|k: int|
            0 <= k < old(world).entities@.len() ==> final(world).entities@[k]
                == spec_physics_step_rec(#[trigger] old(world).entities@[k], delta_time),
        final(world).models@ == old(world).models@,
{
    let gravity = Vec2Bits { x: GRAVITY_X_BITS, y: GRAVITY_Y_BITS };
    let step = vec2_scale(&gravity, delta_time);
    let mut i: usize = 0;
    while i < world.entities.len()
        invariant
            0 <= i <= world.entities@.len(),
            world.entities@.len() == old(world).entities@.len(),
            world.models@ == old(world).models@,
            step@ == glam_vec2_scale(spec_gravity()@, delta_time),
            forall|k: int|
                0 <= k < i ==> world.entities@[k] == spec_physics_step_rec(
                    #[trigger] old(world).entities@[k],
                    delta_time,
                ),
            forall|k: int|
                i <= k < world.entities@.len() ==> world.entities@[k] == old(world).entities@[k],
        decreases world.entities@.len() - i,
    {
        let apply = match &world.entities[i].components.physics {
            Some(p) => p.use_gravity,
            None => false,
        };
        if apply {
            let p = match &world.entities[i].components.physics {
                Some(p) => *p,
                None => PhysicsComponent::default(),
            };
            let new_velocity = vec2_add(&p.velocity, &step);
            world.entities[i].components.physics = Some(
                PhysicsComponent { velocity: new_velocity, ..p },
            );
        }
        i += 1;
    }
}

/// System that updates transforms based on physics: integrates each 2D
/// transform's position from the physics velocity and its rotation from
/// the angular velocity.
pub fn transform_system(world: &mut World, delta_time: u32)
    ensures
        final(world).entities@.len() == old(world).entities@.len(),
        forall|k: int|
            0 <= k < old(world).entities@.len() ==> final(world).entities@[k]
                == spec_transform_step_rec(#[trigger] old(world).entities@[k], delta_time),
        final(world).models@ == old(world).models@,
{
    let mut i: usize = 0;
    while i < world.entities.len()
        invariant
            0 <= i <= world.entities@.len(),
            world.entities@.len() == old(world).entities@.len(),
            world.models@ == old(world).models@,
            forall|k: int|
                0 <= k < i ==> world.entities@[k] == spec_transform_step_rec(
                    #[trigger] old(world).entities@[k],
                    delta_time,
                ),
            forall|k: int|
                i <= k < world.entities@.len() ==> world.entities@[k] == old(world).entities@[k],
        decreases world.entities@.len() - i,
    {
        let pair = match (&world.entities[i].components.transform2d, &world.entities[
            i
        ].components.physics) {
            (Some(t), Some(p)) => Some((*t, *p)),
            _ => None,
        };
        if let Some((t, p)) = pair {
            let new_position = vec2_add(&t.position, &vec2_scale(&p.velocity, delta_time));
            let new_rotation = f32_add(t.rotation, f32_mul(p.angular_velocity, delta_time));
            world.entities[i].components.transform2d = Some(
                Transform2DComponent {
                    position: new_position,
                    rotation: new_rotation,
                    scale: t.scale,
                },
            );
        }
        i += 1;
    }
}

/// Computes the rendering-sync writes of one tick: for every entity with
/// a visible renderable, its world transform (2D transforms embedded in
/// the Z = 0 plane) paired with its model index — the whole 2D pass, then
/// the whole 3D pass.
pub fn collect_sync_writes(entities: &Vec<EntityRec>) -> (writes: Vec<SyncWrite>)
    ensures
        writes@ == spec_sync_writes(entities@),
{
    let mut writes: Vec<SyncWrite> = Vec::new();
    let mut i: usize = 0;
    while i < entities.len()
        invariant
            0 <= i <= entities@.len(),
            writes@ == spec_sync_writes_2d(entities@.take(i as int)),
        decreases entities@.len() - i,
    {
        proof {
            lemma_sync_writes_2d_push(entities@.take(i as int), entities@[i as int]);
            assert(entities@.take(i as int).push(entities@[i as int]) =~= entities@.take(i + 1));
        }
        let c = &entities[i].components;
        let pair = match (&c.transform2d, &c.renderable) {
            (Some(t), Some(r)) => Some((*t, *r)),
            _ => None,
        };
        if let Some((t, r)) = pair {
            if r.visible {
                let q = quat_from_rotation_z(t.rotation);
                let w = SyncWrite {
                    model: r.model,
                    transform: ModelTransform {
                        position: Vec3Bits { x: t.position.x, y: t.position.y, z: F32_ZERO },
                        rotation: q,
                        scale: Vec3Bits { x: t.scale.x, y: t.scale.y, z: F32_ONE },
                    },
                };
                proof {
                    assert(q == spec_embed_transform2d(t).rotation);
                }
                writes.push(w);
            }
        }
        i += 1;
    }
    proof {
        assert(entities@.take(entities@.len() as int) =~= entities@);
    }
    let mut j: usize = 0;
    while j < entities.len()
        invariant
            0 <= j <= entities@.len(),
            writes@ == spec_sync_writes_2d(entities@) + spec_sync_writes_3d(
                entities@.take(j as int),
            ),
        decreases entities@.len() - j,
    {
        proof {
            lemma_sync_writes_3d_push(entities@.take(j as int), entities@[j as int]);
            assert(entities@.take(j as int).push(entities@[j as int]) =~= entities@.take(j + 1));
        }
        let c = &entities[j].components;
        let pair = match (&c.transform3d, &c.renderable) {
            (Some(t), Some(r)) => Some((*t, *r)),
            _ => None,
        };
        if let Some((t, r)) = pair {
            if r.visible {
                let w = SyncWrite {
                    model: r.model,
                    transform: ModelTransform {
                        position: t.position,
                        rotation: t.rotation,
                        scale: t.scale,
                    },
                };
                writes.push(w);
            }
        }
        j += 1;
    }
    proof {
        assert(entities@.take(entities@.len() as int) =~= entities@);
    }
    writes
}

/// Applies a list of sync writes to the model store, in order: each write
/// with a valid model index updates that model's transform and uniform
/// buffer image; writes to indices outside the store are skipped. Each
/// model ends up synced with the last write that targeted it, or
/// untouched if none did.
pub fn apply_sync_writes(models: &mut Vec<Model>, writes: &Vec<SyncWrite>)
    ensures
        final(models)@.len() == old(models)@.len(),
        forall|m: int|
            0 <= m < old(models)@.len() ==> match spec_last_write(writes@, m) {
                Some(t) => spec_is_synced(
                    old(models)@[m],
                    #[trigger] final(models)@[m],
                    t,
                ),
                None => final(models)@[m] == old(models)@[m],
            },
{
    let mut j: usize = 0;
    while j < writes.len()
        invariant
            0 <= j <= writes@.len(),
            models@.len() == old(models)@.len(),
            forall|m: int|
                0 <= m < old(models)@.len() ==> match spec_last_write(
                    writes@.take(j as int),
                    m,
                ) {
                    Some(t) => spec_is_synced(old(models)@[m], #[trigger] models@[m], t),
                    None => models@[m] == old(models)@[m],
                },
        decreases writes@.len() - j,
    {
        let w = writes[j];
        proof {
            assert(writes@.take(j as int).push(writes@[j as int]) =~= writes@.take(j + 1));
            assert forall|m: int| true implies spec_last_write(writes@.take(j + 1), m) == (
            if w.model == m {
                Some(w.transform)
            } else {
                spec_last_write(writes@.take(j as int), m)
            }) by {
                lemma_last_write_push(writes@.take(j as int), writes@[j as int], m);
            }
        }
        if w.model < models.len() {
            let mut entry = models.remove(w.model);
            entry.update_transform(&w.transform);
            models.insert(w.model, entry);
            proof {
                assert forall|m: int|
                    0 <= m < old(models)@.len() implies match spec_last_write(
                    writes@.take(j + 1),
                    m,
                ) {
                    Some(t) => spec_is_synced(old(models)@[m], #[trigger] models@[m], t),
                    None => models@[m] == old(models)@[m],
                } by {
                    if m != w.model {
                        assert(models@[m] == old(models)@[m] || true);
                    }
                }
            }
        }
        j += 1;
    }
    proof {
        assert(writes@.take(writes@.len() as int) =~= writes@);
    }
}

/// System that prepares data for rendering: pushes the world transform of
/// every visible renderable into its model's uniform buffer image (the 2D
/// pass, then the 3D pass), leaving entities untouched.
pub fn rendering_system(world: &mut World)
    ensures
        final(world).entities@ == old(world).entities@,
        final(world).models@.len() == old(world).models@.len(),
        forall|m: int|
            0 <= m < old(world).models@.len() ==> match spec_last_write(
                spec_sync_writes(old(world).entities@),
                m,
            ) {
                Some(t) => spec_is_synced(
                    old(world).models@[m],
                    #[trigger] final(world).models@[m],
                    t,
                ),
                None => final(world).models@[m] == old(world).models@[m],
            },
{
    let writes = collect_sync_writes(&world.entities);
    apply_sync_writes(&mut world.models, &writes);
}

} // verus!
