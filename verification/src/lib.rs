//! A fixed-point camera engine and rendering-pipeline core for a small
//! animated scene of bodies orbiting a centre.
//!
//! Every number in this crate is an integer: a scalar counts
//! hundred-thousandths of a unit (see [`fixed`]). Lengths, bounds,
//! collisions, the stages of a transition, transforms, lighting and the
//! depth test are computed and proved here. What needs sines, cosines or
//! noise is the caller's part, and comes in as plain values.
//!
//! - [`fixed`], [`vec3`], [`matrix`], [`color`]: the arithmetic.
//! - [`warp`], [`camera`], [`input`]: the camera, its transitions and the
//!   commands that drive it; [`camera_laws`] states what always holds of it.
//! - [`vertex`], [`fragment`], [`shaders`], [`render`], [`framebuffer`],
//!   [`texture`], [`skybox`]: the pipeline from vertex to pixel;
//!   [`pipeline_laws`] states what always holds of it.
//! - [`body`]: the bodies of the scene.

pub mod body;
pub mod camera;
pub mod camera_laws;
pub mod color;
pub mod fixed;
pub mod fragment;
pub mod framebuffer;
pub mod input;
pub mod matrix;
pub mod pipeline_laws;
pub mod render;
pub mod shaders;
pub mod skybox;
pub mod texture;
pub mod vec3;
pub mod vertex;
pub mod warp;
