//! A small 3D scene library: a procedural cube-mesh builder and a fly-style
//! camera controller, both specified and verified over exact integer
//! coordinates.
//!
//! Positions are measured in *half units*: twice the world coordinate. A cube
//! of integer side length `l` then has its corners exactly `l` half units from
//! the center along each axis, so every quantity in the geometry is an
//! integer and the contracts are exact. A host program converts to floating
//! point at the boundary by halving.

pub mod camera;
pub mod geometry;
pub mod mesh;
