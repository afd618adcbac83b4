//! Core logic of a small real-time mesh viewer: camera movement commands,
//! input dispatch for the frame loop, and mesh ingestion (face checks and
//! triangulation plans over vertex indices).

pub mod camera;
pub mod faces;
pub mod input;
pub mod mesh;
pub mod vertex;
