use mirage_engine::camera::OrthographicCamera;
use mirage_engine::fbits::{f32_bits_max_positive, f32_bits_neg, F32_ONE, F32_TWO};
use mirage_engine::gpu_bytes::mat4_to_bytes;
use mirage_engine::light::{DirectionalLight, Light, LightManager, LightSource, LightType, PointLight};
use mirage_engine::material::{create_white_texture, BindGroupLayoutDesc, Material, model_bind_group_layout, layouts_match};
use mirage_engine::math::{Mat4Bits, QuatBits, Vec2Bits, Vec3Bits};
use mirage_engine::mesh::{Mesh, Vertex, VertexFormatDesc};
use mirage_engine::model::{Model, ModelTransform, ModelUniform};
use mirage_engine::renderer::{FrameAction, Renderer, SurfaceErrorKind};
use mirage_engine::shader::{create_sprite_shader, create_unlit_shader, Shader};
use mirage_engine::texture::{depth_format, Texture, TextureError, TextureFormatKind};
use std::sync::Arc;

fn v3(x: f32, y: f32, z: f32) -> Vec3Bits {
    Vec3Bits { x: x.to_bits(), y: y.to_bits(), z: z.to_bits() }
}

fn v2(x: f32, y: f32) -> Vec2Bits {
    Vec2Bits { x: x.to_bits(), y: y.to_bits() }
}

fn qb(q: glam::Quat) -> QuatBits {
    QuatBits { x: q.x.to_bits(), y: q.y.to_bits(), z: q.z.to_bits(), w: q.w.to_bits() }
}

fn mat_bits(m: glam::Mat4) -> [u32; 16] {
    let cols = m.to_cols_array();
    let mut out = [0u32; 16];
    for i in 0..16 {
        out[i] = cols[i].to_bits();
    }
    out
}

fn simple_mesh() -> Mesh {
    Mesh::create_quad(1.0f32.to_bits(), 1.0f32.to_bits())
}

fn simple_material() -> Material {
    let shader = create_sprite_shader();
    let camera_layout = model_bind_group_layout();
    let model_layout = model_bind_group_layout();
    Material::new(
        "Test",
        &shader,
        &camera_layout,
        &model_layout,
        None,
        TextureFormatKind::Bgra8UnormSrgb,
    )
}

fn make_model_with_buffer(t: ModelTransform) -> Model {
    Model::new_with_buffer(Arc::new(simple_mesh()), Arc::new(simple_material()), t)
}

// The model matrix is translate * rotate * scale, with the scale applied
// first: checked with a non-uniform scale and a 90-degree rotation.
#[test]
fn model_matrix_is_translate_rotate_scale() {
    let position = glam::Vec3::new(1.0, 2.0, 3.0);
    let rotation = glam::Quat::from_rotation_z(std::f32::consts::FRAC_PI_2);
    let scale = glam::Vec3::new(2.0, 1.0, 1.0);
    let t = ModelTransform {
        position: v3(1.0, 2.0, 3.0),
        rotation: qb(rotation),
        scale: v3(2.0, 1.0, 1.0),
    };
    let expected = glam::Mat4::from_translation(position) * glam::Mat4::from_quat(rotation)
        * glam::Mat4::from_scale(scale);
    assert_eq!(t.model_matrix().m, mat_bits(expected));
    let wrong_order = glam::Mat4::from_scale(scale) * glam::Mat4::from_quat(rotation)
        * glam::Mat4::from_translation(position);
    assert_ne!(t.model_matrix().m, mat_bits(wrong_order));
}

#[test]
fn model_matrix_identity_transform() {
    let t = ModelTransform::new();
    assert_eq!(t.model_matrix().m, mat_bits(glam::Mat4::IDENTITY));
}

// The quad has 4 vertices at (+-w/2, +-h/2, 0) and 6 indices forming two
// CCW triangles.
#[test]
fn create_quad_vertices_and_indices() {
    let mesh = Mesh::create_quad(3.0f32.to_bits(), 4.0f32.to_bits());
    assert_eq!(mesh.num_indices(), 6);
    assert_eq!(mesh.name, "Quad");
    let vb = mesh.vertex_buffer();
    assert_eq!(vb.len(), 4 * 48);
    let word = |i: usize| -> u32 {
        u32::from_le_bytes([vb[4 * i], vb[4 * i + 1], vb[4 * i + 2], vb[4 * i + 3]])
    };
    // Vertex layout: position (3), normal (3), tex_coords (2), color (4).
    // Corners in order bottom-left, bottom-right, top-right, top-left,
    // with the UV origin at the bottom left.
    let corners = [
        (-1.5f32, -2.0f32, 0.0f32, 0.0f32),
        (1.5, -2.0, 1.0, 0.0),
        (1.5, 2.0, 1.0, 1.0),
        (-1.5, 2.0, 0.0, 1.0),
    ];
    for (v, (x, y, u_coord, v_coord)) in corners.iter().enumerate() {
        let base = v * 12;
        assert_eq!(word(base), x.to_bits(), "corner {} x", v);
        assert_eq!(word(base + 1), y.to_bits(), "corner {} y", v);
        assert_eq!(word(base + 2), 0.0f32.to_bits(), "corner {} z", v);
        assert_eq!(word(base + 3), 0.0f32.to_bits());
        assert_eq!(word(base + 4), 0.0f32.to_bits());
        assert_eq!(word(base + 5), 1.0f32.to_bits(), "normal +Z");
        assert_eq!(word(base + 6), u_coord.to_bits(), "corner {} u", v);
        assert_eq!(word(base + 7), v_coord.to_bits(), "corner {} v", v);
        assert_eq!(word(base + 8), 1.0f32.to_bits(), "white colour");
    }
    let ib = mesh.index_buffer();
    let mut indices = Vec::new();
    for i in 0..6 {
        indices.push(u32::from_le_bytes([ib[4 * i], ib[4 * i + 1], ib[4 * i + 2], ib[4 * i + 3]]));
    }
    assert_eq!(indices, vec![0, 1, 2, 2, 3, 0]);
}

#[test]
fn mesh_new_serializes_vertices_exactly() {
    let vertex = Vertex::new(
        v3(1.0, 2.0, 3.0),
        v3(0.0, 1.0, 0.0),
        v2(0.25, 0.75),
        [1.0f32.to_bits(), 0.5f32.to_bits(), 0.25f32.to_bits(), 1.0f32.to_bits()],
    );
    let mesh = Mesh::new("M", &vec![vertex], &vec![0u32]);
    let raw: [f32; 12] = [1.0, 2.0, 3.0, 0.0, 1.0, 0.0, 0.25, 0.75, 1.0, 0.5, 0.25, 1.0];
    let expected: &[u8] = bytemuck::cast_slice(&raw);
    assert_eq!(mesh.vertex_buffer().as_slice(), expected);
    assert_eq!(mesh.num_indices(), 1);
}

#[test]
fn vertex_desc_layout() {
    let desc = Vertex::desc();
    assert_eq!(desc.array_stride, 48);
    assert_eq!(desc.attributes.len(), 4);
    let offsets: Vec<u64> = desc.attributes.iter().map(|a| a.offset).collect();
    assert_eq!(offsets, vec![0, 12, 24, 32]);
    let locations: Vec<u32> = desc.attributes.iter().map(|a| a.shader_location).collect();
    assert_eq!(locations, vec![0, 1, 2, 3]);
    assert_eq!(desc.attributes[0].format, VertexFormatDesc::Float32x3);
    assert_eq!(desc.attributes[2].format, VertexFormatDesc::Float32x2);
    assert_eq!(desc.attributes[3].format, VertexFormatDesc::Float32x4);
}

// The light buffer always holds exactly max_lights records, zero padded,
// and the count buffer the true count.
#[test]
fn light_manager_update_writes_all_slots() {
    let mut lm = LightManager::new(4);
    let dir = DirectionalLight::new(v3(0.0, -1.0, 0.0), v3(1.0, 1.0, 1.0), 0.8f32.to_bits());
    let point = PointLight::new(v3(1.0, 2.0, 3.0), v3(1.0, 0.0, 0.0), 1.0f32.to_bits(), 10.0f32.to_bits());
    lm.add_light(LightSource::Directional(dir));
    lm.add_light(LightSource::Point(point));
    lm.initialize();
    lm.update();
    let buffer = lm.light_buffer_bytes().unwrap();
    assert_eq!(buffer.len(), 4 * 48);
    let word = |i: usize| -> u32 {
        u32::from_le_bytes([buffer[4 * i], buffer[4 * i + 1], buffer[4 * i + 2], buffer[4 * i + 3]])
    };
    // Slot 0: directional record: position zero, type 0, colour, intensity,
    // normalized direction, range zero.
    let norm = glam::Vec3::new(0.0, -1.0, 0.0).normalize();
    assert_eq!(word(0), 0);
    assert_eq!(word(3), 0, "directional type index");
    assert_eq!(word(4), 1.0f32.to_bits());
    assert_eq!(word(7), 0.8f32.to_bits());
    assert_eq!(word(8), norm.x.to_bits());
    assert_eq!(word(9), norm.y.to_bits());
    assert_eq!(word(11), 0);
    // Slot 1: point record.
    assert_eq!(word(12), 1.0f32.to_bits());
    assert_eq!(word(15), 1, "point type index");
    assert_eq!(word(23), 10.0f32.to_bits());
    // Slots 2 and 3: all zeros.
    for i in 24..48 {
        assert_eq!(word(i), 0, "padding word {}", i);
    }
    let count = lm.light_count_buffer_bytes().unwrap();
    assert_eq!(count.as_slice(), &[2u8, 0, 0, 0]);
}

#[test]
fn light_manager_initialize_is_idempotent() {
    let mut lm = LightManager::new(2);
    lm.initialize();
    lm.add_light(LightSource::Point(PointLight::new(
        v3(0.0, 0.0, 0.0),
        v3(1.0, 1.0, 1.0),
        F32_ONE,
        F32_ONE,
    )));
    lm.update();
    let before = lm.light_buffer_bytes().unwrap().clone();
    lm.initialize();
    assert_eq!(lm.light_buffer_bytes().unwrap(), &before);
}

// Adding beyond the capacity silently drops the light.
#[test]
fn add_light_beyond_capacity_is_dropped() {
    let mut lm = LightManager::new(2);
    for _ in 0..5 {
        lm.add_light(LightSource::Point(PointLight::new(
            v3(0.0, 0.0, 0.0),
            v3(1.0, 1.0, 1.0),
            F32_ONE,
            F32_ONE,
        )));
    }
    assert_eq!(lm.light_count(), 2);
}

#[test]
fn light_type_indices() {
    assert_eq!(LightType::Directional.index(), 0);
    assert_eq!(LightType::Point.index(), 1);
    let p = PointLight::new(v3(0.0, 0.0, 0.0), v3(1.0, 1.0, 1.0), F32_ONE, F32_ONE);
    assert_eq!(p.get_type(), LightType::Point);
    assert_eq!(p.get_light_data().light_type, 1);
}

// Resize then projection: bounds are scaled by 1 / zoom; a zoom at or
// below zero is clamped to 0.1.
#[test]
fn camera_resize_and_projection_scale_by_zoom() {
    let mut cam = OrthographicCamera::new(
        800.0f32.to_bits(),
        600.0f32.to_bits(),
        (-1.0f32).to_bits(),
        1.0f32.to_bits(),
    );
    cam.set_zoom(2.0f32.to_bits());
    cam.resize(400.0f32.to_bits(), 300.0f32.to_bits());
    // Resize stores the plain half extents, preserving the zoom...
    let hw = 400.0f32 / 2.0;
    let hh = 300.0f32 / 2.0;
    assert_eq!(cam.left, (-hw).to_bits());
    assert_eq!(cam.right, hw.to_bits());
    assert_eq!(cam.bottom, (-hh).to_bits());
    assert_eq!(cam.top, hh.to_bits());
    assert_eq!(cam.zoom(), 2.0f32.to_bits());
    // ...and the projection divides the bounds by the zoom exactly once.
    let expected = glam::Mat4::orthographic_rh(-hw / 2.0, hw / 2.0, -hh / 2.0, hh / 2.0, -1.0, 1.0);
    assert_eq!(cam.projection_matrix().m, mat_bits(expected));
}

#[test]
fn camera_zoom_clamped_to_minimum() {
    let mut cam = OrthographicCamera::new(
        100.0f32.to_bits(),
        100.0f32.to_bits(),
        0.0f32.to_bits(),
        1.0f32.to_bits(),
    );
    cam.set_zoom((-3.0f32).to_bits());
    assert_eq!(cam.zoom(), 0.1f32.to_bits());
    cam.set_zoom(f32::NAN.to_bits());
    assert_eq!(cam.zoom(), 0.1f32.to_bits());
    cam.set_zoom(0.05f32.to_bits());
    assert_eq!(cam.zoom(), 0.1f32.to_bits());
    cam.set_zoom(5.0f32.to_bits());
    assert_eq!(cam.zoom(), 5.0f32.to_bits());
}

#[test]
fn camera_view_matrix_matches_reference() {
    let mut cam = OrthographicCamera::new(
        100.0f32.to_bits(),
        100.0f32.to_bits(),
        0.0f32.to_bits(),
        1.0f32.to_bits(),
    );
    cam.set_position(v2(3.0, 4.0));
    cam.set_rotation(0.5f32.to_bits());
    let expected = glam::Mat4::from_rotation_z(-0.5)
        * glam::Mat4::from_translation(glam::Vec3::new(-3.0, -4.0, 0.0));
    assert_eq!(cam.view_matrix().m, mat_bits(expected));
    let vp = glam::Mat4::orthographic_rh(-50.0, 50.0, -50.0, 50.0, 0.0, 1.0) * expected;
    assert_eq!(cam.view_projection_matrix().m, mat_bits(vp));
}

#[test]
fn camera_with_bounds_aspect() {
    let cam = OrthographicCamera::with_bounds(
        (-8.0f32).to_bits(),
        8.0f32.to_bits(),
        (-2.0f32).to_bits(),
        2.0f32.to_bits(),
        0.0f32.to_bits(),
        1.0f32.to_bits(),
    );
    assert_eq!(cam.aspect_ratio, (16.0f32 / 4.0f32).to_bits());
    assert_eq!(cam.zoom, F32_ONE);
}

// The uniform buffer bytes written for a transform decode back to the
// transform's model matrix.
#[test]
fn model_uniform_buffer_round_trip() {
    let rotation = glam::Quat::from_rotation_z(0.3);
    let t = ModelTransform {
        position: v3(5.0, 6.0, 7.0),
        rotation: qb(rotation),
        scale: v3(1.0, 2.0, 3.0),
    };
    let mut model = make_model_with_buffer(ModelTransform::new());
    model.update_transform(&t);
    let bytes = model.buffer_bytes().unwrap();
    assert_eq!(bytes.len(), 64);
    // Decode back into matrix words.
    let mut words = [0u32; 16];
    for i in 0..16 {
        words[i] = u32::from_le_bytes([
            bytes[4 * i],
            bytes[4 * i + 1],
            bytes[4 * i + 2],
            bytes[4 * i + 3],
        ]);
    }
    assert_eq!(words, t.model_matrix().m);
    // And the bytes are exactly what the reference math produces.
    let expected = glam::Mat4::from_translation(glam::Vec3::new(5.0, 6.0, 7.0))
        * glam::Mat4::from_quat(rotation)
        * glam::Mat4::from_scale(glam::Vec3::new(1.0, 2.0, 3.0));
    let cols = expected.to_cols_array();
    let expected_bytes: &[u8] = bytemuck::cast_slice(&cols[..]);
    assert_eq!(bytes.as_slice(), expected_bytes);
}

#[test]
fn model_without_buffer_stays_without() {
    let mut model = Model::new(
        Arc::new(simple_mesh()),
        Arc::new(simple_material()),
        ModelTransform::new(),
    );
    assert!(!model.has_buffer());
    model.update_transform(&ModelTransform::with_position(v3(1.0, 0.0, 0.0)));
    assert!(model.buffer_bytes().is_none());
    assert_eq!(model.transform.position, v3(1.0, 0.0, 0.0));
}

#[test]
fn mat4_to_bytes_matches_reference_cast() {
    let m = glam::Mat4::from_rotation_z(1.25);
    let bits = Mat4Bits { m: { let mut a = [0u32; 16]; let c = m.to_cols_array(); for i in 0..16 { a[i] = c[i].to_bits(); } a } };
    let bytes = mat4_to_bytes(&bits);
    let cols = m.to_cols_array();
    let expected: &[u8] = bytemuck::cast_slice(&cols[..]);
    assert_eq!(bytes.as_slice(), expected);
    let u = ModelUniform { model: bits };
    assert_eq!(u.bytes().as_slice(), expected);
}

#[test]
fn directional_light_normalizes_direction() {
    let d = DirectionalLight::new(v3(3.0, 0.0, 4.0), v3(1.0, 1.0, 1.0), F32_ONE);
    let n = glam::Vec3::new(3.0, 0.0, 4.0).normalize();
    assert_eq!(d.direction, v3(n.x, n.y, n.z));
}

#[test]
fn material_fixed_bind_group_order_and_fallback() {
    let m = simple_material();
    assert_eq!(m.name, "Test");
    assert_eq!(m.pipeline.bind_group_layouts.len(), 3);
    assert_eq!(m.pipeline.vertex_entry, "vs_main");
    assert_eq!(m.pipeline.fragment_entry, "fs_main");
    assert!(m.pipeline.alpha_blending);
    assert!(m.pipeline.cull_back_faces);
    assert!(m.pipeline.front_face_ccw);
    assert_eq!(m.pipeline.depth_format, TextureFormatKind::Depth32Float);
    assert!(m.pipeline.depth_write_enabled);
    assert!(m.pipeline.depth_compare_less);
    assert_eq!(m.pipeline.color_format, TextureFormatKind::Bgra8UnormSrgb);
    // No texture supplied: the 1x1 opaque white fallback.
    assert_eq!(m.texture.size, (1, 1));
    assert_eq!(m.texture.pixel_data, vec![255, 255, 255, 255]);
    // The model layout contract matches what models bind.
    assert!(layouts_match(&m.model_bind_group_layout, &model_bind_group_layout()));
}

#[test]
fn material_keeps_supplied_texture() {
    let shader = create_unlit_shader();
    let layout_a = model_bind_group_layout();
    let layout_b = model_bind_group_layout();
    let tex = Texture::from_image(2, 2, vec![9u8; 16]);
    let m = Material::new(
        "Tex",
        &shader,
        &layout_a,
        &layout_b,
        Some(tex),
        TextureFormatKind::Rgba8UnormSrgb,
    );
    assert_eq!(m.texture.size, (2, 2));
    assert_eq!(m.texture.pixel_data, vec![9u8; 16]);
}

#[test]
fn white_texture_is_one_white_pixel() {
    let t = create_white_texture();
    assert_eq!(t.size, (1, 1));
    assert_eq!(t.pixel_data, vec![255u8, 255, 255, 255]);
    assert_eq!(t.format, TextureFormatKind::Rgba8UnormSrgb);
}

#[test]
fn texture_from_bytes_decodes_real_image() {
    let img = image::RgbaImage::from_pixel(2, 3, image::Rgba([10, 20, 30, 255]));
    let mut encoded: Vec<u8> = Vec::new();
    image::DynamicImage::ImageRgba8(img)
        .write_to(&mut std::io::Cursor::new(&mut encoded), image::ImageOutputFormat::Png)
        .unwrap();
    let tex = Texture::from_bytes(&encoded).unwrap();
    assert_eq!(tex.size, (2, 3));
    assert_eq!(tex.format, TextureFormatKind::Rgba8UnormSrgb);
    assert_eq!(tex.pixel_data.len(), 2 * 3 * 4);
    assert_eq!(&tex.pixel_data[0..4], &[10, 20, 30, 255]);
    assert_eq!(tex.data_layout(), (0, 8, 3));
}

#[test]
fn texture_from_bad_bytes_is_invalid_image() {
    let r = Texture::from_bytes(&[1, 2, 3, 4]);
    assert_eq!(r.unwrap_err(), TextureError::InvalidImage);
}

#[test]
fn depth_texture_fields() {
    let t = Texture::create_depth_texture(640, 480);
    assert_eq!(t.format, depth_format());
    assert_eq!(t.size, (640, 480));
    assert!(t.pixel_data.is_empty());
    assert!(t.sampler.compare_less_equal);
}

#[test]
fn shader_factories() {
    let s = create_sprite_shader();
    assert_eq!(s.name, "Sprite Shader");
    assert_eq!(s.entry_point, "main");
    assert!(s.source.contains("textureSample"));
    let u = create_unlit_shader();
    assert_eq!(u.name, "Unlit Shader");
    let custom = Shader::from_wgsl_with_entry_point("fn x() {}", "X", "x");
    assert_eq!(custom.entry_point, "x");
}

#[test]
fn renderer_prefers_first_srgb_format() {
    let formats = vec![
        TextureFormatKind::Rgba8Unorm,
        TextureFormatKind::Bgra8UnormSrgb,
        TextureFormatKind::Rgba8UnormSrgb,
    ];
    let r = Renderer::new(800, 600, &formats);
    assert_eq!(r.config.format, TextureFormatKind::Bgra8UnormSrgb);
    assert_eq!(r.size(), (800, 600));
    // Default clear colour is (0.1, 0.2, 0.3, 1.0).
    assert_eq!(r.clear_color.r, 0.1f64.to_bits());
    assert_eq!(r.clear_color.g, 0.2f64.to_bits());
    assert_eq!(r.clear_color.b, 0.3f64.to_bits());
    assert_eq!(r.clear_color.a, 1.0f64.to_bits());

    let no_srgb = vec![TextureFormatKind::Rgba8Unorm, TextureFormatKind::Bgra8Unorm];
    let r2 = Renderer::new(1, 1, &no_srgb);
    assert_eq!(r2.config.format, TextureFormatKind::Rgba8Unorm);
}

#[test]
fn renderer_resize_rejects_zero() {
    let mut r = Renderer::new(800, 600, &vec![TextureFormatKind::Bgra8UnormSrgb]);
    assert!(!r.resize(0, 100));
    assert_eq!(r.size(), (800, 600));
    assert!(r.resize(1024, 768));
    assert_eq!(r.size(), (1024, 768));
    assert_eq!(r.config.width, 1024);
    assert_eq!(r.config.height, 768);
}

#[test]
fn renderer_frame_recovery_state_machine() {
    let mut r = Renderer::new(800, 600, &vec![TextureFormatKind::Bgra8UnormSrgb]);
    assert_eq!(r.on_acquire_error(SurfaceErrorKind::Lost), FrameAction::ReconfigureAndRetry);
    assert_eq!(r.on_acquire_error(SurfaceErrorKind::Outdated), FrameAction::Fatal);
    r.on_frame_acquired();
    assert_eq!(r.on_acquire_error(SurfaceErrorKind::OutOfMemory), FrameAction::ReconfigureAndRetry);
    r.set_clear_color(0.5f64.to_bits(), 0u64, 0u64, 1.0f64.to_bits());
    assert_eq!(r.clear_color.r, 0.5f64.to_bits());
}

#[test]
fn fbits_negation_and_clamp_match_reference() {
    for &x in &[0.0f32, -0.0, 1.5, -2.25, f32::INFINITY] {
        assert_eq!(f32_bits_neg(x.to_bits()), (-x).to_bits());
    }
    let min = 0.1f32.to_bits();
    for &x in &[0.05f32, 0.1, 0.2, -3.0, 0.0, -0.0, f32::NAN, f32::INFINITY] {
        assert_eq!(
            f32_bits_max_positive(x.to_bits(), min),
            x.max(0.1).to_bits(),
            "clamp of {}",
            x
        );
    }
    assert_eq!(F32_TWO, 2.0f32.to_bits());
    assert_eq!(F32_ONE, 1.0f32.to_bits());
}

#[test]
fn bind_group_layout_matching() {
    let a = model_bind_group_layout();
    let b = model_bind_group_layout();
    assert!(layouts_match(&a, &b));
    let empty = BindGroupLayoutDesc { entries: Vec::new() };
    assert!(!layouts_match(&a, &empty));
}
