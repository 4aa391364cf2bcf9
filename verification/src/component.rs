//! The components an entity may carry: name, 2D and 3D transforms,
//! physics, renderable, and camera.
//!
//! A renderable refers to its model by an index into the world's model
//! store, so the rendering-sync system's writes are explicit and
//! checkable; the visibility flag gates whether the sync system touches
//! the model at all.

use vstd::prelude::*;
use crate::fbits::{F32_ONE, F32_ZERO};
use crate::glam_ops::{
    glam_mat_mul, glam_rot_z_mat, glam_rotation_mat, glam_scale_mat, glam_translation_mat,
    mat4_from_quat, mat4_from_rotation_z, mat4_from_scale, mat4_from_translation, mat4_mul,
};
use crate::math::{Mat4Bits, QuatBits, Vec2Bits, Vec3Bits};

verus! {

/// The bit pattern of `1.0f32`, the default mass.
pub const F32_DEFAULT_MASS: u32 = 0x3f80_0000;

/// The bit pattern of 60 degrees in radians (`60.0f32.to_radians()`), the
/// default field of view of an orthographic camera component.
pub const F32_SIXTY_DEGREES_RAD: u32 = 0x3f86_0a92;

/// The bit pattern of `5.0f32`, the default orthographic size of a
/// perspective camera component.
pub const F32_DEFAULT_ORTHO_SIZE: u32 = 0x40a0_0000;

/// Component that stores the name of an entity.
#[derive(Clone, Debug)]
pub struct NameComponent {
    /// The name of the entity.
    pub name: String,
}

impl NameComponent {
    /// Create a new name component.
    pub fn new(name: &str) -> (r: NameComponent)
        ensures
            r.name@ == name@,
    {
        NameComponent { name: name.to_owned() }
    }
}

/// Component that stores the 2D transform of an entity.
#[derive(Clone, Copy, PartialEq, Eq, Structural, Debug)]
pub struct Transform2DComponent {
    /// Position in 2D space.
    pub position: Vec2Bits,
    /// Rotation in radians.
    pub rotation: u32,
    /// Scale in 2D space.
    pub scale: Vec2Bits,
}

/// The 16 column-major words of a 2D transform's matrix: the 2D data
/// embedded in the Z = 0 plane, rotated about the Z axis.
pub open spec fn spec_transform2d_matrix(t: Transform2DComponent) -> Seq<u32> {
    glam_mat_mul(
        glam_mat_mul(
            glam_translation_mat(seq![t.position.x, t.position.y, F32_ZERO]),
            glam_rot_z_mat(t.rotation),
        ),
        glam_scale_mat(seq![t.scale.x, t.scale.y, F32_ONE]),
    )
}

impl Transform2DComponent {
    /// Create a new transform component.
    pub fn new(position: Vec2Bits, rotation: u32, scale: Vec2Bits) -> (r: Transform2DComponent)
        ensures
            r == (Transform2DComponent { position, rotation, scale }),
    {
        Transform2DComponent { position, rotation, scale }
    }

    /// Create a new transform component with default values: the origin,
    /// no rotation, unit scale.
    pub fn default() -> (r: Transform2DComponent)
        ensures
            r == (Transform2DComponent {
                position: Vec2Bits { x: F32_ZERO, y: F32_ZERO },
                rotation: F32_ZERO,
                scale: Vec2Bits { x: F32_ONE, y: F32_ONE },
            }),
    {
        Transform2DComponent {
            position: Vec2Bits::zero(),
            rotation: F32_ZERO,
            scale: Vec2Bits::one(),
        }
    }

    /// Get the transformation matrix.
    pub fn matrix(&self) -> (r: Mat4Bits)
        ensures
            r@ == spec_transform2d_matrix(*self),
    {
        let translation = mat4_from_translation(
            &Vec3Bits { x: self.position.x, y: self.position.y, z: F32_ZERO },
        );
        let rotation = mat4_from_rotation_z(self.rotation);
        let scale = mat4_from_scale(&Vec3Bits { x: self.scale.x, y: self.scale.y, z: F32_ONE });
        let r = mat4_mul(&mat4_mul(&translation, &rotation), &scale);
        proof {
            assert(seq![self.position.x, self.position.y, F32_ZERO] =~= (Vec3Bits {
                x: self.position.x,
                y: self.position.y,
                z: F32_ZERO,
            })@);
            assert(seq![self.scale.x, self.scale.y, F32_ONE] =~= (Vec3Bits {
                x: self.scale.x,
                y: self.scale.y,
                z: F32_ONE,
            })@);
        }
        r
    }
}

/// Component that stores the 3D transform of an entity.
#[derive(Clone, Copy, PartialEq, Eq, Structural, Debug)]
pub struct Transform3DComponent {
    /// Position in 3D space.
    pub position: Vec3Bits,
    /// Rotation as a quaternion.
    pub rotation: QuatBits,
    /// Scale in 3D space.
    pub scale: Vec3Bits,
}

/// The 16 column-major words of a 3D transform's matrix.
pub open spec fn spec_transform3d_matrix(t: Transform3DComponent) -> Seq<u32> {
    glam_mat_mul(
        glam_mat_mul(glam_translation_mat(t.position@), glam_rotation_mat(t.rotation@)),
        glam_scale_mat(t.scale@),
    )
}

impl Transform3DComponent {
    /// Create a new transform component.
    pub fn new(position: Vec3Bits, rotation: QuatBits, scale: Vec3Bits) -> (r:
        Transform3DComponent)
        ensures
            r == (Transform3DComponent { position, rotation, scale }),
    {
        Transform3DComponent { position, rotation, scale }
    }

    /// Create a new transform component with default values: the origin,
    /// the identity rotation, unit scale.
    pub fn default() -> (r: Transform3DComponent)
        ensures
            r == (Transform3DComponent {
                position: Vec3Bits { x: F32_ZERO, y: F32_ZERO, z: F32_ZERO },
                rotation: QuatBits { x: F32_ZERO, y: F32_ZERO, z: F32_ZERO, w: F32_ONE },
                scale: Vec3Bits { x: F32_ONE, y: F32_ONE, z: F32_ONE },
            }),
    {
        Transform3DComponent {
            position: Vec3Bits::zero(),
            rotation: QuatBits::identity(),
            scale: Vec3Bits::one(),
        }
    }

    /// Get the transformation matrix.
    pub fn matrix(&self) -> (r: Mat4Bits)
        ensures
            r@ == spec_transform3d_matrix(*self),
    {
        let translation = mat4_from_translation(&self.position);
        let rotation = mat4_from_quat(&self.rotation);
        let scale = mat4_from_scale(&self.scale);
        mat4_mul(&mat4_mul(&translation, &rotation), &scale)
    }
}

/// Component for physics properties.
#[derive(Clone, Copy, PartialEq, Eq, Structural, Debug)]
pub struct PhysicsComponent {
    /// Velocity in 2D space.
    pub velocity: Vec2Bits,
    /// Angular velocity in radians per second.
    pub angular_velocity: u32,
    /// Mass of the entity.
    pub mass: u32,
    /// Whether the entity is affected by gravity.
    pub use_gravity: bool,
}

impl PhysicsComponent {
    /// Create a new physics component.
    pub fn new(velocity: Vec2Bits, angular_velocity: u32, mass: u32, use_gravity: bool) -> (r:
        PhysicsComponent)
        ensures
            r == (PhysicsComponent { velocity, angular_velocity, mass, use_gravity }),
    {
        PhysicsComponent { velocity, angular_velocity, mass, use_gravity }
    }

    /// Create a new physics component with default values: at rest, unit
    /// mass, affected by gravity.
    pub fn default() -> (r: PhysicsComponent)
        ensures
            r == (PhysicsComponent {
                velocity: Vec2Bits { x: F32_ZERO, y: F32_ZERO },
                angular_velocity: F32_ZERO,
                mass: F32_DEFAULT_MASS,
                use_gravity: true,
            }),
    {
        PhysicsComponent {
            velocity: Vec2Bits::zero(),
            angular_velocity: F32_ZERO,
            mass: F32_DEFAULT_MASS,
            use_gravity: true,
        }
    }
}

/// Component for rendering a model: the index of the model in the world's
/// model store, and whether the entity is visible.
#[derive(Clone, Copy, PartialEq, Eq, Structural, Debug)]
pub struct RenderableComponent {
    /// The index of the model to render in the world's model store.
    pub model: usize,
    /// Whether the entity is visible.
    pub visible: bool,
}

impl RenderableComponent {
    /// Create a new renderable component, visible by default.
    pub fn new(model: usize) -> (r: RenderableComponent)
        ensures
            r == (RenderableComponent { model, visible: true }),
    {
        RenderableComponent { model, visible: true }
    }
}

/// Component for camera properties.
#[derive(Clone, Copy, PartialEq, Eq, Structural, Debug)]
pub struct CameraComponent {
    /// Whether this is the active camera.
    pub is_active: bool,
    /// Field of view in radians (for perspective cameras).
    pub fov: u32,
    /// Near clipping plane.
    pub near: u32,
    /// Far clipping plane.
    pub far: u32,
    /// Whether this is an orthographic camera.
    pub is_orthographic: bool,
    /// Orthographic size (half height).
    pub ortho_size: u32,
}

impl CameraComponent {
    /// Create a new perspective camera component.
    pub fn new_perspective(fov: u32, near: u32, far: u32) -> (r: CameraComponent)
        ensures
            r == (CameraComponent {
                is_active: false,
                fov,
                near,
                far,
                is_orthographic: false,
                ortho_size: F32_DEFAULT_ORTHO_SIZE,
            }),
    {
        CameraComponent {
            is_active: false,
            fov,
            near,
            far,
            is_orthographic: false,
            ortho_size: F32_DEFAULT_ORTHO_SIZE,
        }
    }

    /// Create a new orthographic camera component; the stored field of
    /// view defaults to 60 degrees in radians.
    pub fn new_orthographic(ortho_size: u32, near: u32, far: u32) -> (r: CameraComponent)
        ensures
            r == (CameraComponent {
                is_active: false,
                fov: F32_SIXTY_DEGREES_RAD,
                near,
                far,
                is_orthographic: true,
                ortho_size,
            }),
    {
        CameraComponent {
            is_active: false,
            fov: F32_SIXTY_DEGREES_RAD,
            near,
            far,
            is_orthographic: true,
            ortho_size,
        }
    }
}

} // verus!
