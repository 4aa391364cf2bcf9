//! Models: a shared mesh and material coupled with an instance transform
//! and the uniform-buffer image holding the composed model matrix.
//!
//! The uniform buffer is the single source of truth the shader reads; the
//! transform field is the CPU mirror. `update_transform` keeps the two
//! synchronized.

use vstd::prelude::*;
use std::sync::Arc;
use crate::fbits::F32_ONE;
use crate::glam_ops::{
    glam_mat_mul, glam_rotation_mat, glam_scale_mat, glam_translation_mat, mat4_from_quat,
    mat4_from_scale, mat4_from_translation, mat4_mul,
};
use crate::gpu_bytes::{
    lemma_words_le_bytes_roundtrip, mat4_to_bytes, spec_words_from_le_bytes, spec_words_le_bytes,
};
use crate::material::Material;
use crate::math::{Mat4Bits, QuatBits, Vec3Bits};
use crate::mesh::Mesh;

verus! {

/// The transform of an object in 3D space: position, rotation quaternion,
/// and scale, each component an `f32` bit pattern.
#[derive(Clone, Copy, PartialEq, Eq, Structural, Debug)]
pub struct ModelTransform {
    /// Position in 3D space.
    pub position: Vec3Bits,
    /// Rotation as a quaternion.
    pub rotation: QuatBits,
    /// Scale in 3D space.
    pub scale: Vec3Bits,
}

/// The identity transform: zero position, identity rotation, unit scale.
pub open spec fn spec_identity_transform() -> ModelTransform {
    ModelTransform {
        position: Vec3Bits { x: 0u32, y: 0u32, z: 0u32 },
        rotation: QuatBits { x: 0u32, y: 0u32, z: 0u32, w: F32_ONE },
        scale: Vec3Bits { x: F32_ONE, y: F32_ONE, z: F32_ONE },
    }
}

/// The 16 column-major words of a transform's model matrix:
/// `translate(position) * rotate(rotation) * scale(scale)`, so the scale is
/// applied first, then the rotation, then the translation.
pub open spec fn spec_model_matrix(t: ModelTransform) -> Seq<u32> {
    glam_mat_mul(
        glam_mat_mul(glam_translation_mat(t.position@), glam_rotation_mat(t.rotation@)),
        glam_scale_mat(t.scale@),
    )
}

/// Law: for every transform, the model matrix is exactly the product of
/// the translation matrix, the rotation matrix and the scale matrix, in
/// that composition order.
pub proof fn lemma_model_matrix_is_translate_rotate_scale(t: ModelTransform)
    ensures
        spec_model_matrix(t) == glam_mat_mul(
            glam_mat_mul(glam_translation_mat(t.position@), glam_rotation_mat(t.rotation@)),
            glam_scale_mat(t.scale@),
        ),
{
}

impl ModelTransform {
    /// Create a new identity transform.
    pub fn new() -> (r: ModelTransform)
        ensures
            r == spec_identity_transform(),
    {
        ModelTransform {
            position: Vec3Bits::zero(),
            rotation: QuatBits::identity(),
            scale: Vec3Bits::one(),
        }
    }

    /// Create a new transform with a position.
    pub fn with_position(position: Vec3Bits) -> (r: ModelTransform)
        ensures
            r == (ModelTransform {
                position,
                rotation: spec_identity_transform().rotation,
                scale: spec_identity_transform().scale,
            }),
    {
        ModelTransform { position, rotation: QuatBits::identity(), scale: Vec3Bits::one() }
    }

    /// Create a new transform with a position and scale.
    pub fn with_position_scale(position: Vec3Bits, scale: Vec3Bits) -> (r: ModelTransform)
        ensures
            r == (ModelTransform { position, rotation: spec_identity_transform().rotation, scale }),
    {
        ModelTransform { position, rotation: QuatBits::identity(), scale }
    }

    /// Get the model matrix for this transform.
    pub fn model_matrix(&self) -> (r: Mat4Bits)
        ensures
            r@ == spec_model_matrix(*self),
    {
        let translation = mat4_from_translation(&self.position);
        let rotation = mat4_from_quat(&self.rotation);
        let scale = mat4_from_scale(&self.scale);
        mat4_mul(&mat4_mul(&translation, &rotation), &scale)
    }
}

impl Default for ModelTransform {
    /// The identity transform.
    fn default() -> (r: ModelTransform)
        ensures
            r == spec_identity_transform(),
    {
        ModelTransform::new()
    }
}

/// Uniform buffer record for model data: one column-major 4x4 matrix.
#[derive(Clone, Copy, Debug)]
pub struct ModelUniform {
    /// Model matrix.
    pub model: Mat4Bits,
}

impl ModelUniform {
    /// The 64-byte image of this record as the GPU reads it.
    pub fn bytes(&self) -> (r: Vec<u8>)
        ensures
            r@ == spec_words_le_bytes(self.model@),
            r@.len() == 64,
    {
        mat4_to_bytes(&self.model)
    }
}

/// A 3D model with mesh, material, transform, and (optionally) the byte
/// image of its GPU uniform buffer.
#[derive(Clone)]
pub struct Model {
    /// The mesh for this model, shared between models.
    pub mesh: Arc<Mesh>,
    /// The material for this model, shared between models.
    pub material: Arc<Material>,
    /// The transform for this model (CPU mirror of the uniform buffer).
    pub transform: ModelTransform,
    /// The uniform buffer image, present once the model is GPU-backed.
    pub model_buffer: Option<Vec<u8>>,
}

impl Model {
    /// The uniform buffer image, for contracts.
    pub open spec fn spec_model_buffer(&self) -> Option<Seq<u8>> {
        match self.model_buffer {
            Some(b) => Some(b@),
            None => None,
        }
    }

    /// Create a new model without a GPU uniform buffer.
    pub fn new(mesh: Arc<Mesh>, material: Arc<Material>, transform: ModelTransform) -> (r: Model)
        ensures
            r.mesh == mesh,
            r.material == material,
            r.transform == transform,
            r.spec_model_buffer() is None,
    {
        Model { mesh, material, transform, model_buffer: None }
    }

    /// Create a new model whose uniform buffer is seeded from the model
    /// matrix of the given transform.
    pub fn new_with_buffer(mesh: Arc<Mesh>, material: Arc<Material>, transform: ModelTransform) -> (r:
        Model)
        ensures
            r.mesh == mesh,
            r.material == material,
            r.transform == transform,
            r.spec_model_buffer() == Some(spec_words_le_bytes(spec_model_matrix(transform))),
    {
        let matrix = transform.model_matrix();
        let uniform = ModelUniform { model: matrix };
        Model { mesh, material, transform, model_buffer: Some(uniform.bytes()) }
    }

    /// True iff this model carries a uniform buffer image.
    pub fn has_buffer(&self) -> (r: bool)
        ensures
            r == (self.spec_model_buffer() is Some),
    {
        self.model_buffer.is_some()
    }

    /// The uniform buffer image to upload, if the model is GPU-backed.
    pub fn buffer_bytes(&self) -> (r: Option<&Vec<u8>>)
        ensures
            match r {
                Some(b) => self.spec_model_buffer() == Some(b@),
                None => self.spec_model_buffer() is None,
            },
    {
        self.model_buffer.as_ref()
    }

    /// Update the transform of this model: recomputes the model matrix and
    /// rewrites only this model's uniform buffer image (if it has one),
    /// leaving the shared mesh and material untouched.
    pub fn update_transform(&mut self, transform: &ModelTransform)
        ensures
            final(self).mesh == old(self).mesh,
            final(self).material == old(self).material,
            final(self).transform == *transform,
            old(self).spec_model_buffer() is Some ==> final(self).spec_model_buffer() == Some(
                spec_words_le_bytes(spec_model_matrix(*transform)),
            ),
            old(self).spec_model_buffer() is None ==> final(self).spec_model_buffer() is None,
    {
        self.transform = *transform;
        if self.model_buffer.is_some() {
            let matrix = transform.model_matrix();
            let uniform = ModelUniform { model: matrix };
            self.model_buffer = Some(uniform.bytes());
        }
    }
}

/// Law: reading the uniform buffer bytes written for a transform back as
/// little-endian words yields exactly the transform's model matrix.
pub proof fn lemma_uniform_buffer_roundtrip(t: ModelTransform)
    ensures
        spec_words_from_le_bytes(spec_words_le_bytes(spec_model_matrix(t))) == spec_model_matrix(t),
{
    lemma_words_le_bytes_roundtrip(spec_model_matrix(t));
}

} // verus!
