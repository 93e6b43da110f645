//! Turns the geometry of a `bevy` mesh into a `parry3d` triangle mesh, with a
//! cache for building the same collider shape many times.
//!
//! Coordinates are carried as the IEEE-754 bit patterns of their
//! single-precision values: the library moves them, it never computes with
//! them.

pub mod cache;
pub mod convert;
pub mod error;
pub mod geometry;
pub mod mesh;
pub mod prepare;
pub mod trimesh;

pub use cache::CachedTriMeshBuilder;
pub use convert::{convert_indicies, convert_verticies};
pub use error::{ExtractGeometryError, TriMeshBuildError, UnsupportedFormatError};
pub use geometry::Point;
pub use mesh::extract_geometry;
pub use prepare::{prepare_trimesh_from_mesh, trimesh_from_mesh, try_trimesh_from_mesh};
