//! Shader modules: WGSL source plus entry-point names. Compilation is a GPU
//! concern; the library owns the source text and the entry points that the
//! pipeline contracts rely on.

use vstd::prelude::*;

verus! {

/// The default 2D sprite shader source: textured, vertex-coloured.
pub const SPRITE_SHADER_WGSL: &'static str = "
    struct VertexInput {
        @location(0) position: vec3<f32>,
        @location(1) normal: vec3<f32>,
        @location(2) tex_coords: vec2<f32>,
        @location(3) color: vec4<f32>,
    };

    struct VertexOutput {
        @builtin(position) clip_position: vec4<f32>,
        @location(0) tex_coords: vec2<f32>,
        @location(1) color: vec4<f32>,
    };

    struct CameraUniform {
        view_proj: mat4x4<f32>,
    };
    @group(0) @binding(0) var<uniform> camera: CameraUniform;

    struct ModelUniform {
        model: mat4x4<f32>,
    };
    @group(1) @binding(0) var<uniform> model: ModelUniform;

    @vertex
    fn vs_main(in: VertexInput) -> VertexOutput {
        var out: VertexOutput;
        out.clip_position = camera.view_proj * model.model * vec4<f32>(in.position, 1.0);
        out.tex_coords = in.tex_coords;
        out.color = in.color;
        return out;
    }

    @group(2) @binding(0) var t_diffuse: texture_2d<f32>;
    @group(2) @binding(1) var s_diffuse: sampler;

    @fragment
    fn fs_main(in: VertexOutput) -> @location(0) vec4<f32> {
        let tex_color = textureSample(t_diffuse, s_diffuse, in.tex_coords);
        return tex_color * in.color;
    }
    ";

/// The default 2D unlit shader source: vertex colour only.
pub const UNLIT_SHADER_WGSL: &'static str = "
    struct VertexInput {
        @location(0) position: vec3<f32>,
        @location(1) normal: vec3<f32>,
        @location(2) tex_coords: vec2<f32>,
        @location(3) color: vec4<f32>,
    };

    struct VertexOutput {
        @builtin(position) clip_position: vec4<f32>,
        @location(0) color: vec4<f32>,
    };

    struct CameraUniform {
        view_proj: mat4x4<f32>,
    };
    @group(0) @binding(0) var<uniform> camera: CameraUniform;

    struct ModelUniform {
        model: mat4x4<f32>,
    };
    @group(1) @binding(0) var<uniform> model: ModelUniform;

    @vertex
    fn vs_main(in: VertexInput) -> VertexOutput {
        var out: VertexOutput;
        out.clip_position = camera.view_proj * model.model * vec4<f32>(in.position, 1.0);
        out.color = in.color;
        return out;
    }

    @fragment
    fn fs_main(in: VertexOutput) -> @location(0) vec4<f32> {
        return in.color;
    }
    ";

/// A shader: WGSL source text, a display name, and the default entry point.
#[derive(Clone, Debug)]
pub struct Shader {
    pub source: String,
    pub name: String,
    pub entry_point: String,
}

impl Shader {
    /// Create a new shader from WGSL source code, with the default entry
    /// point name `main`.
    pub fn from_wgsl(source: &str, name: &str) -> (r: Shader)
        ensures
            r.source@ == source@,
            r.name@ == name@,
            r.entry_point@ == "main"@,
    {
        Shader { source: source.to_owned(), name: name.to_owned(), entry_point: "main".to_owned() }
    }

    /// Create a new shader from WGSL source code with a specific entry
    /// point.
    pub fn from_wgsl_with_entry_point(source: &str, name: &str, entry_point: &str) -> (r: Shader)
        ensures
            r.source@ == source@,
            r.name@ == name@,
            r.entry_point@ == entry_point@,
    {
        Shader {
            source: source.to_owned(),
            name: name.to_owned(),
            entry_point: entry_point.to_owned(),
        }
    }
}

/// Default 2D sprite shader.
pub fn create_sprite_shader() -> (r: Shader)
    ensures
        r.source@ == SPRITE_SHADER_WGSL@,
        r.name@ == "Sprite Shader"@,
        r.entry_point@ == "main"@,
{
    Shader::from_wgsl(SPRITE_SHADER_WGSL, "Sprite Shader")
}

/// Default 2D unlit shader.
pub fn create_unlit_shader() -> (r: Shader)
    ensures
        r.source@ == UNLIT_SHADER_WGSL@,
        r.name@ == "Unlit Shader"@,
        r.entry_point@ == "main"@,
{
    Shader::from_wgsl(UNLIT_SHADER_WGSL, "Unlit Shader")
}

} // verus!
