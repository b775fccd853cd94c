//! Scene-side logic: the mesh opt-out marker and raytracing proxy meshes.

pub mod proxy;
pub mod types;

pub use types::DisableRaytracingMesh;
