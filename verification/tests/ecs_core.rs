use mirage_engine::component::{
    CameraComponent, NameComponent, PhysicsComponent, RenderableComponent, Transform2DComponent,
    Transform3DComponent, F32_DEFAULT_MASS,
};
use mirage_engine::ecs::{ComponentSet, EcsManager, World};
use mirage_engine::entity::EntityHandle;
use mirage_engine::events::{
    Event, EventKind, EventSystem, RenderEvent, UpdateEvent, WindowCloseEvent, WindowResizeEvent,
};
use mirage_engine::material::{model_bind_group_layout, Material};
use mirage_engine::math::{QuatBits, Vec2Bits, Vec3Bits};
use mirage_engine::mesh::Mesh;
use mirage_engine::model::{Model, ModelTransform};
use mirage_engine::shader::create_sprite_shader;
use mirage_engine::system::{
    collect_sync_writes, physics_system, rendering_system, transform_system, GRAVITY_Y_BITS,
};
use mirage_engine::texture::TextureFormatKind;
use mirage_engine::timing::DeltaTime;
use std::sync::Arc;

fn v3(x: f32, y: f32, z: f32) -> Vec3Bits {
    Vec3Bits { x: x.to_bits(), y: y.to_bits(), z: z.to_bits() }
}

fn v2(x: f32, y: f32) -> Vec2Bits {
    Vec2Bits { x: x.to_bits(), y: y.to_bits() }
}

fn gpu_model() -> Model {
    let mesh = Arc::new(Mesh::create_quad(1.0f32.to_bits(), 1.0f32.to_bits()));
    let shader = create_sprite_shader();
    let la = model_bind_group_layout();
    let lb = model_bind_group_layout();
    let material = Arc::new(Material::new(
        "M",
        &shader,
        &la,
        &lb,
        None,
        TextureFormatKind::Bgra8UnormSrgb,
    ));
    Model::new_with_buffer(mesh, material, ModelTransform::new())
}

fn set_with(
    t2: Option<Transform2DComponent>,
    t3: Option<Transform3DComponent>,
    physics: Option<PhysicsComponent>,
    renderable: Option<RenderableComponent>,
) -> ComponentSet {
    let mut c = ComponentSet::empty();
    c.transform2d = t2;
    c.transform3d = t3;
    c.physics = physics;
    c.renderable = renderable;
    c
}

// A moving entity with gravity off advances by velocity * dt and is not
// pulled down.
#[test]
fn run_systems_integrates_velocity_without_gravity() {
    let mut ecs = EcsManager::new();
    let t2 = Transform2DComponent::new(v2(0.0, 0.0), 0.0f32.to_bits(), v2(1.0, 1.0));
    let physics = PhysicsComponent::new(v2(1.0, 0.0), 0.0f32.to_bits(), F32_DEFAULT_MASS, false);
    let h = ecs.create_entity(set_with(Some(t2), None, Some(physics), None));
    ecs.run_systems(1.0f32.to_bits());
    let idx = ecs.get_entity(&h).unwrap();
    let after = ecs.world().entities[idx].components.transform2d.unwrap();
    assert_eq!(after.position, v2(1.0, 0.0));
    assert_eq!(after.rotation, 0.0f32.to_bits());
    let vel = ecs.world().entities[idx].components.physics.unwrap().velocity;
    assert_eq!(vel, v2(1.0, 0.0));
}

#[test]
fn physics_system_applies_gravity() {
    let physics = PhysicsComponent::new(v2(0.0, 0.0), 0.0f32.to_bits(), F32_DEFAULT_MASS, true);
    let mut c = ComponentSet::empty();
    c.physics = Some(physics);
    let mut ecs = EcsManager::new();
    let h = ecs.create_entity(c);
    ecs.run_systems(0.5f32.to_bits());
    let idx = ecs.get_entity(&h).unwrap();
    let vel = ecs.world().entities[idx].components.physics.unwrap().velocity;
    let expected = glam::Vec2::new(0.0, 0.0) + glam::Vec2::new(0.0, -9.81) * glam::Vec2::splat(0.5);
    assert_eq!(vel, v2(expected.x, expected.y));
    assert_eq!(GRAVITY_Y_BITS, (-9.81f32).to_bits());
}

#[test]
fn world_starts_empty_and_stores_models() {
    let mut world = World::new();
    assert_eq!(world.entities.len(), 0);
    assert_eq!(world.add_model(gpu_model()), 0);
    assert_eq!(world.models.len(), 1);
}

#[test]
fn transform_system_integrates_rotation() {
    let mut world = World::new();
    let t2 = Transform2DComponent::new(v2(2.0, 3.0), 0.25f32.to_bits(), v2(1.0, 1.0));
    let physics = PhysicsComponent::new(v2(0.5, -0.5), 2.0f32.to_bits(), F32_DEFAULT_MASS, false);
    let mut c = ComponentSet::empty();
    c.transform2d = Some(t2);
    c.physics = Some(physics);
    world.entities.push(mirage_engine::ecs::EntityRec { id: 1, components: c });
    physics_system(&mut world, 1.0f32.to_bits());
    transform_system(&mut world, 1.0f32.to_bits());
    let after = world.entities[0].components.transform2d.unwrap();
    assert_eq!(after.position, v2(2.5, 2.5));
    assert_eq!(after.rotation, (0.25f32 + 2.0 * 1.0).to_bits());
}

// An invisible renderable issues no uniform write; a visible one writes
// exactly the embedded transform's matrix.
#[test]
fn rendering_sync_skips_invisible_renderables() {
    let mut world = World::new();
    let model_id = world.add_model(gpu_model());
    let before = world.models[model_id].buffer_bytes().unwrap().clone();

    let t3 = Transform3DComponent::new(v3(9.0, 9.0, 9.0), QuatBits::identity(), v3(1.0, 1.0, 1.0));
    let mut invisible = RenderableComponent::new(model_id);
    invisible.visible = false;
    let mut c = ComponentSet::empty();
    c.transform3d = Some(t3);
    c.renderable = Some(invisible);
    world.entities.push(mirage_engine::ecs::EntityRec { id: 7, components: c });

    assert!(collect_sync_writes(&world.entities).is_empty());
    rendering_system(&mut world);
    assert_eq!(world.models[model_id].buffer_bytes().unwrap(), &before);

    // Flip to visible: the buffer is rewritten with the entity transform.
    world.entities[0].components.renderable = Some(RenderableComponent::new(model_id));
    let writes = collect_sync_writes(&world.entities);
    assert_eq!(writes.len(), 1);
    assert_eq!(writes[0].model, model_id);
    rendering_system(&mut world);
    let after = world.models[model_id].buffer_bytes().unwrap();
    let expected = glam::Mat4::from_translation(glam::Vec3::new(9.0, 9.0, 9.0));
    let cols = expected.to_cols_array();
    let expected_bytes: &[u8] = bytemuck::cast_slice(&cols[..]);
    assert_eq!(after.as_slice(), expected_bytes);
}

#[test]
fn rendering_sync_embeds_2d_transforms() {
    let mut world = World::new();
    let model_id = world.add_model(gpu_model());
    let t2 = Transform2DComponent::new(v2(4.0, 5.0), 0.75f32.to_bits(), v2(2.0, 3.0));
    let mut c = ComponentSet::empty();
    c.transform2d = Some(t2);
    c.renderable = Some(RenderableComponent::new(model_id));
    world.entities.push(mirage_engine::ecs::EntityRec { id: 1, components: c });
    rendering_system(&mut world);
    let bytes = world.models[model_id].buffer_bytes().unwrap();
    let expected = glam::Mat4::from_translation(glam::Vec3::new(4.0, 5.0, 0.0))
        * glam::Mat4::from_quat(glam::Quat::from_rotation_z(0.75))
        * glam::Mat4::from_scale(glam::Vec3::new(2.0, 3.0, 1.0));
    let cols = expected.to_cols_array();
    let expected_bytes: &[u8] = bytemuck::cast_slice(&cols[..]);
    assert_eq!(bytes.as_slice(), expected_bytes);
}

// Two generated handles never coincide; destroying an unknown handle
// returns false and does not panic.
#[test]
fn entity_handles_unique_and_destroy_unknown_false() {
    let a = EntityHandle::generate();
    let b = EntityHandle::generate();
    assert_ne!(a.uuid, b.uuid);
    // Version nibble of a v4 identifier.
    assert_eq!((a.uuid >> 76) & 0xf, 4);

    let mut ecs = EcsManager::new();
    let mut named = ComponentSet::empty();
    named.name = Some(NameComponent::new("Hero"));
    let h = ecs.create_entity(named);
    // The created entity holds exactly the components it was given.
    let idx = ecs.get_entity(&h).unwrap();
    assert_eq!(ecs.world().entities[idx].components.name.as_ref().unwrap().name, "Hero");
    assert!(ecs.world().entities[idx].components.physics.is_none());
    assert!(!ecs.destroy_entity(&EntityHandle::new(12345)));
    assert!(ecs.destroy_entity(&h));
    assert!(!ecs.destroy_entity(&h));
    assert!(ecs.get_entity(&h).is_none());
}

#[test]
fn entity_handle_id_matches_canonical_rendering() {
    let value: u128 = 0x0123_4567_89ab_cdef_0123_4567_89ab_cdef;
    let h = EntityHandle::new(value);
    assert_eq!(h.id(), uuid::Uuid::from_u128(value).to_string());
    assert_eq!(h.short_id(), h.id()[..8].to_string());
    let g = EntityHandle::generate();
    assert_eq!(g.id(), uuid::Uuid::from_u128(g.uuid).to_string());
}

#[test]
fn component_defaults() {
    let p = PhysicsComponent::default();
    assert_eq!(p.mass, 1.0f32.to_bits());
    assert!(p.use_gravity);
    let t = Transform2DComponent::default();
    assert_eq!(t.scale, v2(1.0, 1.0));
    let t3 = Transform3DComponent::default();
    assert_eq!(t3.rotation, QuatBits::identity());
    let n = NameComponent::new("Player");
    assert_eq!(n.name, "Player");
    let cam = CameraComponent::new_orthographic(5.0f32.to_bits(), 0u32, 1.0f32.to_bits());
    assert!(cam.is_orthographic);
    assert_eq!(cam.fov, 60.0f32.to_radians().to_bits());
    let pcam = CameraComponent::new_perspective(1.0f32.to_bits(), 0u32, 1.0f32.to_bits());
    assert!(!pcam.is_orthographic);
    assert_eq!(pcam.ortho_size, 5.0f32.to_bits());
}

#[test]
fn transform_component_matrices() {
    let t2 = Transform2DComponent::new(v2(1.0, 2.0), 0.5f32.to_bits(), v2(3.0, 4.0));
    let expected2 = glam::Mat4::from_translation(glam::Vec3::new(1.0, 2.0, 0.0))
        * glam::Mat4::from_rotation_z(0.5)
        * glam::Mat4::from_scale(glam::Vec3::new(3.0, 4.0, 1.0));
    let got = t2.matrix();
    let mut expected_bits = [0u32; 16];
    let cols = expected2.to_cols_array();
    for i in 0..16 {
        expected_bits[i] = cols[i].to_bits();
    }
    assert_eq!(got.m, expected_bits);
}

#[test]
fn delta_time_fixed_and_variable() {
    let mut fixed = DeltaTime::with_fixed_timestep(60);
    assert_eq!(fixed.delta_millis(), 16);
    assert_eq!(fixed.update(33_000_000), 16_666_667);
    assert_eq!(fixed.delta_millis(), 33);

    let mut variable = DeltaTime::new();
    assert_eq!(variable.delta_millis(), 0);
    assert_eq!(variable.update(7_000_000), 7_000_000);
    assert_eq!(variable.delta_millis(), 7);
    assert_eq!(variable.delta_nanos(), 7_000_000);
}

#[test]
fn event_system_dispatch_order_and_clear() {
    let mut events = EventSystem::new();
    events.subscribe(EventKind::Update, 10);
    events.subscribe(EventKind::Render, 20);
    events.subscribe(EventKind::Update, 30);
    let handlers = events.publish(&UpdateEvent { delta_time: 0 });
    assert_eq!(handlers, vec![10, 30]);
    let render_handlers = events.publish(&RenderEvent);
    assert_eq!(render_handlers, vec![20]);
    assert!(events.publish(&WindowCloseEvent).is_empty());

    events.clear(EventKind::Update);
    assert!(events.publish(&UpdateEvent { delta_time: 0 }).is_empty());
    assert_eq!(events.publish(&RenderEvent), vec![20]);

    events.clear_all();
    assert!(events.publish(&RenderEvent).is_empty());
}

#[test]
fn event_names_and_kinds() {
    let resize = WindowResizeEvent { width: 800, height: 600 };
    assert_eq!(resize.kind(), EventKind::WindowResize);
    assert_eq!(resize.name(), "WindowResizeEvent");
    assert_eq!(RenderEvent.name(), "RenderEvent");
    assert_eq!(WindowCloseEvent.name(), "WindowCloseEvent");
}

#[test]
fn shared_mesh_and_material_between_models() {
    let mesh = Arc::new(Mesh::create_quad(1.0f32.to_bits(), 1.0f32.to_bits()));
    let shader = create_sprite_shader();
    let la = model_bind_group_layout();
    let lb = model_bind_group_layout();
    let material = Arc::new(Material::new(
        "Shared",
        &shader,
        &la,
        &lb,
        None,
        TextureFormatKind::Bgra8UnormSrgb,
    ));
    let mut a = Model::new_with_buffer(mesh.clone(), material.clone(), ModelTransform::new());
    let b = Model::new_with_buffer(mesh, material, ModelTransform::new());
    a.update_transform(&ModelTransform::with_position(v3(1.0, 0.0, 0.0)));
    // Updating one model's transform leaves the other's buffer alone.
    assert_ne!(a.buffer_bytes().unwrap(), b.buffer_bytes().unwrap());
}
