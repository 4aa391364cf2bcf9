//! Core of a small real-time rendering engine: GPU resource models and their
//! exact binary layouts, mesh/material/model/light/camera state, and an
//! entity-component-system that integrates physics and pushes world transforms
//! into GPU-bound uniform buffers.
//!
//! Scalar floating-point values are carried everywhere as their raw IEEE-754
//! bit patterns (`u32` for single precision, `u64` for double precision).
//! The floating-point arithmetic itself is delegated to the `glam` crate
//! behind a small set of trusted wrappers; everything that surrounds it —
//! capacities, orderings, byte layouts, state transitions — is verified.

pub mod audio;
pub mod camera;
pub mod component;
pub mod console;
pub mod ecs;
pub mod editor_ui;
pub mod entity;
pub mod events;
pub mod fbits;
pub mod glam_ops;
pub mod gpu_bytes;
pub mod hierarchy;
pub mod light;
pub mod material;
pub mod math;
pub mod mesh;
pub mod model;
pub mod project;
pub mod renderer;
pub mod scene;
pub mod shader;
pub mod strutil;
pub mod system;
pub mod texture;
pub mod timing;
pub mod ui_components;
