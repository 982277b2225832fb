//! A layered glass-shape scene: a columnar shape store with a pointer
//! interaction state machine and a cascade of derived render-target stages
//! that are regenerated whenever the scene or the viewport changes.
//!
//! Geometry is carried in fixed-point coordinates (`SUBPIXEL` units per
//! pixel), so every position, bounding box, hit test and drag step is exact
//! integer arithmetic. The GPU itself (buffers, textures, passes) lives
//! outside this crate; the store keeps an explicit mirror of what the GPU
//! side is expected to hold, and the stage types record which scene data
//! their targets were generated from.

pub mod column;
pub mod component;
pub mod geometry;
pub mod light_map;
pub mod pointer;
pub mod shapes;
pub mod silhouette;
pub mod store;
