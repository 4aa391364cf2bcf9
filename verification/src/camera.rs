//! The 2D orthographic camera: position, rotation, zoom and view bounds,
//! with the view and projection matrices derived from them.
//!
//! The zoom is clamped to a strictly positive minimum of 0.1, so the
//! projection bounds, which are the stored bounds divided by the zoom, are
//! never divided by zero or by a negative value.

use vstd::prelude::*;
use crate::fbits::{
    spec_f32_is_nan, spec_f32_is_sign_negative, spec_f32_max_positive, spec_f32_neg,
    f32_bits_max_positive, f32_bits_neg, F32_ONE, F32_SIGN_MASK, F32_TWO, F32_ZERO,
    F32_ABS_MASK, F32_INFINITY_BITS,
};
use crate::glam_ops::{
    f32_div, f32_sub, glam_f32_div, glam_f32_sub, glam_mat_mul, glam_ortho_mat, glam_rot_z_mat,
    glam_translation_mat, mat4_from_rotation_z, mat4_from_translation, mat4_mul,
    mat4_orthographic_rh,
};
use crate::math::{Mat4Bits, Vec2Bits, Vec3Bits};

verus! {

/// The bit pattern of the minimum zoom, `0.1f32`: zooms at or below zero
/// (and NaN) are clamped to it.
pub const F32_MIN_ZOOM: u32 = 0x3dcc_cccd;

/// 2D orthographic camera for rendering 2D scenes. Every scalar is an
/// `f32` bit pattern.
#[derive(Clone, Copy, PartialEq, Eq, Structural, Debug)]
pub struct OrthographicCamera {
    pub position: Vec2Bits,
    pub zoom: u32,
    pub rotation: u32,
    pub aspect_ratio: u32,
    pub near: u32,
    pub far: u32,
    pub left: u32,
    pub right: u32,
    pub bottom: u32,
    pub top: u32,
}

/// The 16 column-major words of a camera's view matrix:
/// `rotate(-rotation) * translate(-position)`.
pub open spec fn spec_view_matrix(c: OrthographicCamera) -> Seq<u32> {
    glam_mat_mul(
        glam_rot_z_mat(spec_f32_neg(c.rotation)),
        glam_translation_mat(
            seq![spec_f32_neg(c.position.x), spec_f32_neg(c.position.y), F32_ZERO],
        ),
    )
}

/// The 16 column-major words of a camera's projection matrix: the
/// orthographic projection of the stored bounds, each divided by the zoom.
pub open spec fn spec_projection_matrix(c: OrthographicCamera) -> Seq<u32> {
    glam_ortho_mat(
        glam_f32_div(c.left, c.zoom),
        glam_f32_div(c.right, c.zoom),
        glam_f32_div(c.bottom, c.zoom),
        glam_f32_div(c.top, c.zoom),
        c.near,
        c.far,
    )
}

/// Law: the projection matrix is always built from the bounds scaled by
/// `1 / zoom` — every one of the four bounds is divided by the zoom before
/// the orthographic projection is formed.
pub proof fn lemma_projection_scales_bounds_by_zoom(c: OrthographicCamera)
    ensures
        spec_projection_matrix(c) == glam_ortho_mat(
            glam_f32_div(c.left, c.zoom),
            glam_f32_div(c.right, c.zoom),
            glam_f32_div(c.bottom, c.zoom),
            glam_f32_div(c.top, c.zoom),
            c.near,
            c.far,
        ),
{
}

/// Law: after `resize(width, height)` the projection is built from the
/// half extents `+-width/2` and `+-height/2`, each divided exactly once
/// by the zoom the camera had when it was resized.
pub proof fn lemma_resize_then_projection(c: OrthographicCamera, width: u32, height: u32)
    ensures
        spec_projection_matrix(
            OrthographicCamera {
                aspect_ratio: glam_f32_div(width, height),
                left: spec_f32_neg(glam_f32_div(width, F32_TWO)),
                right: glam_f32_div(width, F32_TWO),
                bottom: spec_f32_neg(glam_f32_div(height, F32_TWO)),
                top: glam_f32_div(height, F32_TWO),
                ..c
            },
        ) == glam_ortho_mat(
            glam_f32_div(spec_f32_neg(glam_f32_div(width, F32_TWO)), c.zoom),
            glam_f32_div(glam_f32_div(width, F32_TWO), c.zoom),
            glam_f32_div(spec_f32_neg(glam_f32_div(height, F32_TWO)), c.zoom),
            glam_f32_div(glam_f32_div(height, F32_TWO), c.zoom),
            c.near,
            c.far,
        ),
{
}

/// Law: the stored zoom that `set_zoom` produces is never NaN, never
/// negative or zero, and always at least the minimum zoom: the divisor of
/// the projection bounds can never make the projection degenerate or
/// inverted.
pub proof fn lemma_zoom_clamp_never_degenerate(zoom: u32)
    ensures
        !spec_f32_is_nan(spec_f32_max_positive(zoom, F32_MIN_ZOOM)),
        !spec_f32_is_sign_negative(spec_f32_max_positive(zoom, F32_MIN_ZOOM)),
        spec_f32_max_positive(zoom, F32_MIN_ZOOM) >= F32_MIN_ZOOM,
{
    assert(F32_MIN_ZOOM & F32_SIGN_MASK != F32_SIGN_MASK && F32_MIN_ZOOM & F32_ABS_MASK
        <= F32_INFINITY_BITS) by (bit_vector);
}

impl OrthographicCamera {
    /// Create a new orthographic camera whose bounds are centred on the
    /// origin: half the width and height on each side.
    pub fn new(width: u32, height: u32, near: u32, far: u32) -> (r: OrthographicCamera)
        ensures
            r.position == (Vec2Bits { x: F32_ZERO, y: F32_ZERO }),
            r.zoom == F32_ONE,
            r.rotation == F32_ZERO,
            r.aspect_ratio == glam_f32_div(width, height),
            r.near == near,
            r.far == far,
            r.left == spec_f32_neg(glam_f32_div(width, F32_TWO)),
            r.right == glam_f32_div(width, F32_TWO),
            r.bottom == spec_f32_neg(glam_f32_div(height, F32_TWO)),
            r.top == glam_f32_div(height, F32_TWO),
    {
        let aspect_ratio = f32_div(width, height);
        let half_width = f32_div(width, F32_TWO);
        let half_height = f32_div(height, F32_TWO);
        OrthographicCamera {
            position: Vec2Bits::zero(),
            zoom: F32_ONE,
            rotation: F32_ZERO,
            aspect_ratio,
            near,
            far,
            left: f32_bits_neg(half_width),
            right: half_width,
            bottom: f32_bits_neg(half_height),
            top: half_height,
        }
    }

    /// Create a new orthographic camera with specific bounds.
    pub fn with_bounds(left: u32, right: u32, bottom: u32, top: u32, near: u32, far: u32) -> (r:
        OrthographicCamera)
        ensures
            r.position == (Vec2Bits { x: F32_ZERO, y: F32_ZERO }),
            r.zoom == F32_ONE,
            r.rotation == F32_ZERO,
            r.aspect_ratio == glam_f32_div(
                glam_f32_sub(right, left),
                glam_f32_sub(top, bottom),
            ),
            r.near == near,
            r.far == far,
            r.left == left,
            r.right == right,
            r.bottom == bottom,
            r.top == top,
    {
        let width = f32_sub(right, left);
        let height = f32_sub(top, bottom);
        let aspect_ratio = f32_div(width, height);
        OrthographicCamera {
            position: Vec2Bits::zero(),
            zoom: F32_ONE,
            rotation: F32_ZERO,
            aspect_ratio,
            near,
            far,
            left,
            right,
            bottom,
            top,
        }
    }

    /// Set the camera position.
    pub fn set_position(&mut self, position: Vec2Bits)
        ensures
            *final(self) == (OrthographicCamera { position, ..*old(self) }),
    {
        self.position = position;
    }

    /// Get the camera position.
    pub fn position(&self) -> (r: Vec2Bits)
        ensures
            r == self.position,
    {
        self.position
    }

    /// Set the camera rotation in radians.
    pub fn set_rotation(&mut self, radians: u32)
        ensures
            *final(self) == (OrthographicCamera { rotation: radians, ..*old(self) }),
    {
        self.rotation = radians;
    }

    /// Get the camera rotation in radians.
    pub fn rotation(&self) -> (r: u32)
        ensures
            r == self.rotation,
    {
        self.rotation
    }

    /// Set the camera zoom level; zero, negative and NaN zooms are clamped
    /// to the minimum zoom.
    pub fn set_zoom(&mut self, zoom: u32)
        ensures
            *final(self) == (OrthographicCamera {
                zoom: spec_f32_max_positive(zoom, F32_MIN_ZOOM),
                ..*old(self)
            }),
            !spec_f32_is_nan(final(self).zoom),
            !spec_f32_is_sign_negative(final(self).zoom),
            final(self).zoom >= F32_MIN_ZOOM,
    {
        self.zoom = f32_bits_max_positive(zoom, F32_MIN_ZOOM);
    }

    /// Get the camera zoom level.
    pub fn zoom(&self) -> (r: u32)
        ensures
            r == self.zoom,
    {
        self.zoom
    }

    /// Resize the camera viewport: the bounds are recomputed as half the
    /// new width and height on each side of the origin, preserving the
    /// current zoom. The zoom enters only once, when `projection_matrix`
    /// divides the stored bounds by it.
    pub fn resize(&mut self, width: u32, height: u32)
        ensures
            *final(self) == (OrthographicCamera {
                aspect_ratio: glam_f32_div(width, height),
                left: spec_f32_neg(glam_f32_div(width, F32_TWO)),
                right: glam_f32_div(width, F32_TWO),
                bottom: spec_f32_neg(glam_f32_div(height, F32_TWO)),
                top: glam_f32_div(height, F32_TWO),
                ..*old(self)
            }),
    {
        self.aspect_ratio = f32_div(width, height);
        let half_width = f32_div(width, F32_TWO);
        let half_height = f32_div(height, F32_TWO);
        self.left = f32_bits_neg(half_width);
        self.right = half_width;
        self.bottom = f32_bits_neg(half_height);
        self.top = half_height;
    }

    /// The view matrix: `rotate(-rotation) * translate(-position)`.
    pub fn view_matrix(&self) -> (r: Mat4Bits)
        ensures
            r@ == spec_view_matrix(*self),
    {
        let translation = mat4_from_translation(
            &Vec3Bits {
                x: f32_bits_neg(self.position.x),
                y: f32_bits_neg(self.position.y),
                z: F32_ZERO,
            },
        );
        let rotation = mat4_from_rotation_z(f32_bits_neg(self.rotation));
        let r = mat4_mul(&rotation, &translation);
        proof {
            assert(seq![
                spec_f32_neg(self.position.x),
                spec_f32_neg(self.position.y),
                F32_ZERO,
            ] =~= (Vec3Bits {
                x: spec_f32_neg(self.position.x),
                y: spec_f32_neg(self.position.y),
                z: F32_ZERO,
            })@);
        }
        r
    }

    /// The projection matrix: the orthographic projection of the bounds
    /// divided by the zoom.
    pub fn projection_matrix(&self) -> (r: Mat4Bits)
        ensures
            r@ == spec_projection_matrix(*self),
    {
        mat4_orthographic_rh(
            f32_div(self.left, self.zoom),
            f32_div(self.right, self.zoom),
            f32_div(self.bottom, self.zoom),
            f32_div(self.top, self.zoom),
            self.near,
            self.far,
        )
    }

    /// The view-projection matrix: projection times view.
    pub fn view_projection_matrix(&self) -> (r: Mat4Bits)
        ensures
            r@ == glam_mat_mul(spec_projection_matrix(*self), spec_view_matrix(*self)),
    {
        let projection = self.projection_matrix();
        let view = self.view_matrix();
        mat4_mul(&projection, &view)
    }
}

} // verus!
