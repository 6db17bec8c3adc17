//! Verified core of an orbit-camera renderer.
//!
//! The crate models the two stateful parts of a small textured-model
//! viewer: the camera subsystem (an orbit camera driven by held-key
//! flags, producing a view-projection matrix) and the presentation
//! lifecycle (surface reconfiguration on resize and the recovery
//! policy for frame-acquisition failures).  All geometry is carried in
//! exact fixed-point integers so that every operation has a precise
//! contract; the surrounding program converts to the GPU's number
//! format only at the upload boundary.

pub mod binding;
pub mod camera;
pub mod controller;
pub mod fixed;
pub mod frame;
pub mod mat4;
pub mod model;
pub mod state;
pub mod surface;
pub mod vec3;
