//! Retained-mode rendering core: a scene of game objects with components, a
//! forward renderer that records one frame as a list of GPU commands while
//! coalescing redundant program and mesh binds, lights, materials and a
//! two-pass shadow technique.
//!
//! Numbers that the GPU consumes are carried by their bit patterns; the
//! library decides what is sent and in which order, never what a product or
//! an inverse is.

pub mod math;
pub mod material;
pub mod command;
pub mod light;
pub mod scene;
pub mod engine;
pub mod shadow;
pub mod mesh_manager;
