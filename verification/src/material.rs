//! Materials: the compiled-pipeline description, the material bind group,
//! and the bind-group-layout contract that models must satisfy.
//!
//! The bind group ordering is fixed for every material: group 0 is the
//! camera uniform, group 1 the per-model uniform, group 2 the material
//! (texture and sampler). The contracts pin that ordering, the vertex
//! layout, and the fixed-function state exactly.

use vstd::prelude::*;
use crate::mesh::{Vertex, VertexBufferLayoutDesc, VertexAttributeDesc, VertexFormatDesc};
use crate::shader::Shader;
use crate::texture::{FilterModeKind, SamplerDesc, Texture, TextureFormatKind};

verus! {

/// The pipeline stage a binding is visible to.
#[derive(Clone, Copy, PartialEq, Eq, Structural, Debug)]
pub enum ShaderStageKind {
    Vertex,
    Fragment,
}

/// The kind of resource bound at a binding index.
#[derive(Clone, Copy, PartialEq, Eq, Structural, Debug)]
pub enum BindingTypeKind {
    UniformBuffer,
    Texture2D,
    FilteringSampler,
}

/// One entry of a bind group layout.
#[derive(Clone, Copy, PartialEq, Eq, Structural, Debug)]
pub struct BindGroupLayoutEntryDesc {
    pub binding: u32,
    pub visibility: ShaderStageKind,
    pub ty: BindingTypeKind,
}

/// A bind group layout: its entries in binding order.
#[derive(Debug)]
pub struct BindGroupLayoutDesc {
    pub entries: Vec<BindGroupLayoutEntryDesc>,
}

/// The entries of the material-level layout: a 2D texture at binding 0 and
/// a filtering sampler at binding 1, both fragment-visible.
pub open spec fn spec_material_layout_entries() -> Seq<BindGroupLayoutEntryDesc> {
    seq![
        BindGroupLayoutEntryDesc {
            binding: 0u32,
            visibility: ShaderStageKind::Fragment,
            ty: BindingTypeKind::Texture2D,
        },
        BindGroupLayoutEntryDesc {
            binding: 1u32,
            visibility: ShaderStageKind::Fragment,
            ty: BindingTypeKind::FilteringSampler,
        },
    ]
}

/// The entries of the model-level layout every model must match: one
/// uniform buffer at binding 0, vertex-visible.
pub open spec fn spec_model_layout_entries() -> Seq<BindGroupLayoutEntryDesc> {
    seq![
        BindGroupLayoutEntryDesc {
            binding: 0u32,
            visibility: ShaderStageKind::Vertex,
            ty: BindingTypeKind::UniformBuffer,
        },
    ]
}

/// Builds the model-level bind group layout (binding 0, vertex-visible
/// uniform buffer).
pub fn model_bind_group_layout() -> (r: BindGroupLayoutDesc)
    ensures
        r.entries@ == spec_model_layout_entries(),
{
    let mut entries: Vec<BindGroupLayoutEntryDesc> = Vec::new();
    entries.push(
        BindGroupLayoutEntryDesc {
            binding: 0,
            visibility: ShaderStageKind::Vertex,
            ty: BindingTypeKind::UniformBuffer,
        },
    );
    proof {
        assert(entries@ =~= spec_model_layout_entries());
    }
    BindGroupLayoutDesc { entries }
}

/// Builds the material-level bind group layout (texture then sampler).
fn material_bind_group_layout() -> (r: BindGroupLayoutDesc)
    ensures
        r.entries@ == spec_material_layout_entries(),
{
    let mut entries: Vec<BindGroupLayoutEntryDesc> = Vec::new();
    entries.push(
        BindGroupLayoutEntryDesc {
            binding: 0,
            visibility: ShaderStageKind::Fragment,
            ty: BindingTypeKind::Texture2D,
        },
    );
    entries.push(
        BindGroupLayoutEntryDesc {
            binding: 1,
            visibility: ShaderStageKind::Fragment,
            ty: BindingTypeKind::FilteringSampler,
        },
    );
    proof {
        assert(entries@ =~= spec_material_layout_entries());
    }
    BindGroupLayoutDesc { entries }
}

/// Copies a bind group layout, entry for entry.
pub fn clone_layout(l: &BindGroupLayoutDesc) -> (r: BindGroupLayoutDesc)
    ensures
        r.entries@ == l.entries@,
{
    let mut entries: Vec<BindGroupLayoutEntryDesc> = Vec::new();
    let mut i: usize = 0;
    while i < l.entries.len()
        invariant
            0 <= i <= l.entries@.len(),
            entries@ == l.entries@.take(i as int),
        decreases l.entries@.len() - i,
    {
        entries.push(l.entries[i]);
        proof {
            assert(l.entries@.take(i as int).push(l.entries@[i as int]) =~= l.entries@.take(
                i + 1,
            ));
        }
        i += 1;
    }
    proof {
        assert(l.entries@.take(l.entries@.len() as int) =~= l.entries@);
    }
    BindGroupLayoutDesc { entries }
}

/// True iff two layouts have the same entries in the same order; a model's
/// uniform binding may only be drawn with a material whose declared model
/// layout matches it exactly.
pub fn layouts_match(a: &BindGroupLayoutDesc, b: &BindGroupLayoutDesc) -> (r: bool)
    ensures
        r == (a.entries@ =~= b.entries@),
{
    if a.entries.len() != b.entries.len() {
        return false;
    }
    let mut i: usize = 0;
    while i < a.entries.len()
        invariant
            0 <= i <= a.entries@.len(),
            a.entries@.len() == b.entries@.len(),
            forall|j: int| 0 <= j < i ==> a.entries@[j] == b.entries@[j],
        decreases a.entries@.len() - i,
    {
        let x = a.entries[i];
        let y = b.entries[i];
        if x.binding != y.binding || !stage_eq(x.visibility, y.visibility) || !binding_type_eq(
            x.ty,
            y.ty,
        ) {
            return false;
        }
        i += 1;
    }
    true
}

/// Stage equality by cases.
fn stage_eq(a: ShaderStageKind, b: ShaderStageKind) -> (r: bool)
    ensures
        r == (a == b),
{
    match (a, b) {
        (ShaderStageKind::Vertex, ShaderStageKind::Vertex) => true,
        (ShaderStageKind::Fragment, ShaderStageKind::Fragment) => true,
        _ => false,
    }
}

/// Binding-type equality by cases.
fn binding_type_eq(a: BindingTypeKind, b: BindingTypeKind) -> (r: bool)
    ensures
        r == (a == b),
{
    match (a, b) {
        (BindingTypeKind::UniformBuffer, BindingTypeKind::UniformBuffer) => true,
        (BindingTypeKind::Texture2D, BindingTypeKind::Texture2D) => true,
        (BindingTypeKind::FilteringSampler, BindingTypeKind::FilteringSampler) => true,
        _ => false,
    }
}

/// The render pipeline description a material compiles: shader entry
/// points, vertex layout, fixed-function state, and the bind group layouts
/// in their fixed order (camera, model, material).
#[derive(Debug)]
pub struct PipelineDesc {
    pub shader_source: String,
    pub vertex_entry: String,
    pub fragment_entry: String,
    pub vertex_layout: VertexBufferLayoutDesc,
    pub color_format: TextureFormatKind,
    pub alpha_blending: bool,
    pub cull_back_faces: bool,
    pub front_face_ccw: bool,
    pub topology_triangle_list: bool,
    pub depth_format: TextureFormatKind,
    pub depth_write_enabled: bool,
    pub depth_compare_less: bool,
    pub bind_group_layouts: Vec<BindGroupLayoutDesc>,
}

/// True iff `v` is exactly the engine's vertex layout: stride 48 with the
/// four attributes at offsets 0, 12, 24 and 32.
pub open spec fn spec_is_engine_vertex_layout(v: VertexBufferLayoutDesc) -> bool {
    &&& v.array_stride == 48
    &&& v.attributes@ == seq![
        VertexAttributeDesc {
            offset: 0u64,
            shader_location: 0u32,
            format: VertexFormatDesc::Float32x3,
        },
        VertexAttributeDesc {
            offset: 12u64,
            shader_location: 1u32,
            format: VertexFormatDesc::Float32x3,
        },
        VertexAttributeDesc {
            offset: 24u64,
            shader_location: 2u32,
            format: VertexFormatDesc::Float32x2,
        },
        VertexAttributeDesc {
            offset: 32u64,
            shader_location: 3u32,
            format: VertexFormatDesc::Float32x4,
        },
    ]
}

/// A material: its compiled pipeline description, the texture it binds
/// (the supplied one, or the white fallback), and its bind group layouts.
#[derive(Debug)]
pub struct Material {
    /// Name of the material.
    pub name: String,
    /// The render pipeline description for this material.
    pub pipeline: PipelineDesc,
    /// The texture bound in the material bind group.
    pub texture: Texture,
    /// The material-level bind group layout (texture and sampler).
    pub bind_group_layout: BindGroupLayoutDesc,
    /// The model-level bind group layout models must satisfy.
    pub model_bind_group_layout: BindGroupLayoutDesc,
}

/// True iff `t` is the 1x1 opaque white fallback texture.
pub open spec fn spec_is_white_texture(t: Texture) -> bool {
    &&& t.pixel_data@ == seq![255u8, 255u8, 255u8, 255u8]
    &&& t.size == (1u32, 1u32)
    &&& t.format == TextureFormatKind::Rgba8UnormSrgb
    &&& t.sampler == (SamplerDesc {
        mag_filter: FilterModeKind::Nearest,
        min_filter: FilterModeKind::Nearest,
        mipmap_filter: FilterModeKind::Nearest,
        compare_less_equal: false,
    })
}

/// Create the 1x1 opaque white texture substituted when a material is
/// given no texture, so that shader texture samples always succeed.
pub fn create_white_texture() -> (r: Texture)
    ensures
        spec_is_white_texture(r),
{
    let mut pixel_data: Vec<u8> = Vec::new();
    pixel_data.push(255);
    pixel_data.push(255);
    pixel_data.push(255);
    pixel_data.push(255);
    proof {
        assert(pixel_data@ =~= seq![255u8, 255u8, 255u8, 255u8]);
    }
    Texture {
        pixel_data,
        size: (1, 1),
        format: TextureFormatKind::Rgba8UnormSrgb,
        sampler: SamplerDesc {
            mag_filter: FilterModeKind::Nearest,
            min_filter: FilterModeKind::Nearest,
            mipmap_filter: FilterModeKind::Nearest,
            compare_less_equal: false,
        },
    }
}

impl Material {
    /// Create a new material: a pipeline over the engine vertex layout with
    /// standard alpha blending, back-face culling, counter-clockwise front
    /// faces, a less-than depth test against the fixed depth format, and the
    /// fixed bind group ordering camera (0), model (1), material (2). If no
    /// texture is supplied, the 1x1 white texture is substituted.
    pub fn new(
        name: &str,
        shader: &Shader,
        camera_bind_group_layout: &BindGroupLayoutDesc,
        model_bind_group_layout: &BindGroupLayoutDesc,
        texture: Option<Texture>,
        format: TextureFormatKind,
    ) -> (r: Material)
        ensures
            r.name@ == name@,
            r.pipeline.shader_source@ == shader.source@,
            r.pipeline.vertex_entry@ == "vs_main"@,
            r.pipeline.fragment_entry@ == "fs_main"@,
            spec_is_engine_vertex_layout(r.pipeline.vertex_layout),
            r.pipeline.color_format == format,
            r.pipeline.alpha_blending,
            r.pipeline.cull_back_faces,
            r.pipeline.front_face_ccw,
            r.pipeline.topology_triangle_list,
            r.pipeline.depth_format == TextureFormatKind::Depth32Float,
            r.pipeline.depth_write_enabled,
            r.pipeline.depth_compare_less,
            r.pipeline.bind_group_layouts@.len() == 3,
            r.pipeline.bind_group_layouts@[0].entries@ == camera_bind_group_layout.entries@,
            r.pipeline.bind_group_layouts@[1].entries@ == model_bind_group_layout.entries@,
            r.pipeline.bind_group_layouts@[2].entries@ == spec_material_layout_entries(),
            r.bind_group_layout.entries@ == spec_material_layout_entries(),
            r.model_bind_group_layout.entries@ == spec_model_layout_entries(),
            texture matches Some(t) ==> r.texture == t,
            texture is None ==> spec_is_white_texture(r.texture),
    {
        let material_layout = material_bind_group_layout();

        let mut bind_group_layouts: Vec<BindGroupLayoutDesc> = Vec::new();
        bind_group_layouts.push(clone_layout(camera_bind_group_layout));
        bind_group_layouts.push(clone_layout(model_bind_group_layout));
        bind_group_layouts.push(clone_layout(&material_layout));

        let pipeline = PipelineDesc {
            shader_source: shader.source.clone(),
            vertex_entry: "vs_main".to_owned(),
            fragment_entry: "fs_main".to_owned(),
            vertex_layout: Vertex::desc(),
            color_format: format,
            alpha_blending: true,
            cull_back_faces: true,
            front_face_ccw: true,
            topology_triangle_list: true,
            depth_format: TextureFormatKind::Depth32Float,
            depth_write_enabled: true,
            depth_compare_less: true,
            bind_group_layouts,
        };

        let bound_texture = match texture {
            Some(t) => t,
            None => create_white_texture(),
        };

        proof {
            assert(pipeline.vertex_layout.attributes@ =~= seq![
                VertexAttributeDesc {
                    offset: 0u64,
                    shader_location: 0u32,
                    format: VertexFormatDesc::Float32x3,
                },
                VertexAttributeDesc {
                    offset: 12u64,
                    shader_location: 1u32,
                    format: VertexFormatDesc::Float32x3,
                },
                VertexAttributeDesc {
                    offset: 24u64,
                    shader_location: 2u32,
                    format: VertexFormatDesc::Float32x2,
                },
                VertexAttributeDesc {
                    offset: 32u64,
                    shader_location: 3u32,
                    format: VertexFormatDesc::Float32x4,
                },
            ]);
        }

        Material {
            name: name.to_owned(),
            pipeline,
            texture: bound_texture,
            bind_group_layout: material_layout,
            model_bind_group_layout: crate::material::model_bind_group_layout(),
        }
    }

    /// Get the model bind group layout that models drawn with this material
    /// must match.
    pub fn get_model_bind_group_layout(&self) -> (r: &BindGroupLayoutDesc)
        ensures
            r.entries@ == self.model_bind_group_layout.entries@,
    {
        &self.model_bind_group_layout
    }
}

} // verus!
