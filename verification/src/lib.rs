//! Interactive viewer core for triangulated 3D meshes.
//!
//! The library holds the verified heart of the viewer: the orbit-camera
//! state machine, the mesh ingestion pipeline (index synthesis and
//! face-averaged normals), the per-frame render decisions (pipeline
//! selection, surface-error policy, draw ranges) and the performance
//! accounting. All geometry is carried in fixed-point thousandths of a
//! world unit, so every rule is stated and proved over exact integers;
//! the unverified shell around the library converts to and from the
//! GPU's floating-point formats at the boundary.

pub mod fixed;
pub mod vec3;
pub mod camera;
pub mod mesh;
pub mod menu;
pub mod performance;
pub mod renderer;
