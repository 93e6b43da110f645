//! The collision library's triangle mesh: what it holds, and how one is made.

use parry3d::math::Real;
use parry3d::shape::TriMesh;
use vstd::prelude::*;

use crate::geometry::{buildable, triangle_views, Point};

verus! {

/// `parry3d::shape::TriMesh`, opaque.
#[verifier::external_type_specification]
#[verifier::external_body]
pub struct ExTriMesh(TriMesh);

/// The vertex buffer of a triangle mesh, as `TriMesh::vertices` gives it,
/// each coordinate as its bit pattern.
pub uninterp spec fn trimesh_vertices(mesh: TriMesh) -> Seq<Point>;

/// The index buffer of a triangle mesh, as `TriMesh::indices` gives it.
pub uninterp spec fn trimesh_indices(mesh: TriMesh) -> Seq<[u32; 3]>;

/// `TriMesh::new`, on points made of the coordinates' bit patterns.
///
/// Assumed: the mesh holds the two buffers as they were given, and a
/// coordinate made with `from_bits` has the bit pattern it was made of. The
/// call panics on an empty index buffer and on an index that names no
/// vertex; both are kept out.
#[verifier::external_body]
pub(crate) fn new_trimesh(verticies: Vec<Point>, indicies: Vec<[u32; 3]>) -> (mesh: TriMesh)
    requires
        buildable(verticies@.len(), triangle_views(indicies@)),
    ensures
        trimesh_vertices(mesh) == verticies@,
        trimesh_indices(mesh) == indicies@,
{
    let points = verticies
        .iter()
        .map(|p| {
            parry3d::math::Point::new(
                Real::from_bits(p.x),
                Real::from_bits(p.y),
                Real::from_bits(p.z),
            )
        })
        .collect();
    TriMesh::new(points, indicies)
}

} // verus!
