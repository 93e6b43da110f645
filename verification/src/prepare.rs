//! From a mesh to the two buffers of a triangle mesh, and to the triangle
//! mesh itself.

use bevy::mesh::Mesh;
use parry3d::shape::TriMesh;
use vstd::prelude::*;

use crate::convert::{convert_indicies, convert_verticies};
use crate::error::{ExtractGeometryError, TriMeshBuildError, UnsupportedFormatError};
use crate::geometry::{
    buildable, is_buildable, points_of, triangle_views, triangles_of, Point,
};
use crate::mesh::{extract_geometry, float3_contents, mesh_indices, mesh_positions, u32_contents};
use crate::trimesh::{new_trimesh, trimesh_indices, trimesh_vertices};

verus! {

/// The error that stops the preparation of `mesh`, if any. The stages are
/// tried in order: reading the positions, reading the indices, converting
/// the positions, converting the indices. The first that fails decides.
pub open spec fn preparation_error(mesh: Mesh) -> Option<TriMeshBuildError> {
    match (mesh_positions(mesh), mesh_indices(mesh)) {
        (None, _) => Some(
            TriMeshBuildError::Extracion(ExtractGeometryError::NoVertexPositionData),
        ),
        (Some(_), None) => Some(
            TriMeshBuildError::Extracion(ExtractGeometryError::NoVertexIndicies),
        ),
        (Some(verticies), Some(indicies)) => {
            if float3_contents(verticies) is None {
                Some(
                    TriMeshBuildError::UnsupportedVerexDataFormat(
                        UnsupportedFormatError::vertex_layout(),
                    ),
                )
            } else if u32_contents(indicies) is None {
                Some(
                    TriMeshBuildError::UnsupportedIndexFormat(
                        UnsupportedFormatError::index_width(),
                    ),
                )
            } else {
                None
            }
        },
    }
}

/// The points that the positions of `mesh` convert to. It has a meaning
/// where `preparation_error(mesh)` is `None`.
pub open spec fn prepared_verticies(mesh: Mesh) -> Seq<Point> {
    points_of(float3_contents(mesh_positions(mesh).unwrap()).unwrap())
}

/// The triangles that the indices of `mesh` convert to. It has a meaning
/// where `preparation_error(mesh)` is `None`.
pub open spec fn prepared_triangles(mesh: Mesh) -> Seq<Seq<u32>> {
    triangles_of(u32_contents(mesh_indices(mesh).unwrap()).unwrap())
}

/// Whether a triangle mesh can be made of what `mesh` prepares to. A mesh
/// whose preparation fails counts: the failure is reported before anything
/// is built.
pub open spec fn mesh_is_buildable(mesh: Mesh) -> bool {
    preparation_error(mesh) is None ==> buildable(
        prepared_verticies(mesh).len(),
        prepared_triangles(mesh),
    )
}

/// A mesh whose positions are triples of 32-bit floats and whose index
/// buffer is of another width than 32 bits is stopped by the index format,
/// not by the vertex format; nothing is built of it.
pub proof fn lemma_index_format_is_reported(mesh: Mesh)
    requires
        mesh_positions(mesh) matches Some(verticies) && float3_contents(verticies) is Some,
        mesh_indices(mesh) matches Some(indicies) && u32_contents(indicies) is None,
    ensures
        preparation_error(mesh) == Some(
            TriMeshBuildError::UnsupportedIndexFormat(UnsupportedFormatError::index_width()),
        ),
        mesh_is_buildable(mesh),
{
}

/// Reads the geometry of a mesh and converts it to the vertex buffer and the
/// index buffer of a triangle mesh.
///
/// Fails with the error of the first stage that fails, and only then.
pub fn prepare_trimesh_from_mesh(mesh: &Mesh) -> (prepared: Result<
    (Vec<Point>, Vec<[u32; 3]>),
    TriMeshBuildError,
>)
    ensures
        match prepared {
            Ok((verticies, indicies)) => {
                &&& preparation_error(*mesh) is None
                &&& verticies@ == prepared_verticies(*mesh)
                &&& triangle_views(indicies@) == prepared_triangles(*mesh)
            },
            Err(e) => preparation_error(*mesh) == Some(e),
        },
{
    let (verticies, indicies) = match extract_geometry(mesh) {
        Ok(geometry) => geometry,
        Err(e) => {
            return Err(TriMeshBuildError::from(e));
        },
    };
    let verticies = match convert_verticies(verticies) {
        Ok(points) => points,
        Err(e) => {
            return Err(TriMeshBuildError::UnsupportedVerexDataFormat(e));
        },
    };
    let indicies = match convert_indicies(indicies) {
        Ok(triangles) => triangles,
        Err(e) => {
            return Err(TriMeshBuildError::UnsupportedIndexFormat(e));
        },
    };
    Ok((verticies, indicies))
}

/// Makes a triangle mesh of the geometry of a mesh.
///
/// The triangle mesh holds the prepared buffers as they are. No triangle
/// mesh exists without a triangle, or with an index that names no vertex:
/// such a mesh is left to `try_trimesh_from_mesh`.
pub fn trimesh_from_mesh(mesh: &Mesh) -> (built: Result<TriMesh, TriMeshBuildError>)
    requires
        mesh_is_buildable(*mesh),
    ensures
        match built {
            Ok(trimesh) => {
                &&& preparation_error(*mesh) is None
                &&& trimesh_vertices(trimesh) == prepared_verticies(*mesh)
                &&& triangle_views(trimesh_indices(trimesh)) == prepared_triangles(*mesh)
            },
            Err(e) => preparation_error(*mesh) == Some(e),
        },
{
    match prepare_trimesh_from_mesh(mesh) {
        Ok((verticies, indicies)) => Ok(new_trimesh(verticies, indicies)),
        Err(e) => Err(e),
    }
}

/// Makes a triangle mesh of the geometry of any mesh, where there is one.
///
/// `Ok(None)` says that the mesh prepares to buffers that no triangle mesh
/// can be made of.
pub fn try_trimesh_from_mesh(mesh: &Mesh) -> (built: Result<Option<TriMesh>, TriMeshBuildError>)
    ensures
        match built {
            Ok(Some(trimesh)) => {
                &&& preparation_error(*mesh) is None
                &&& mesh_is_buildable(*mesh)
                &&& trimesh_vertices(trimesh) == prepared_verticies(*mesh)
                &&& triangle_views(trimesh_indices(trimesh)) == prepared_triangles(*mesh)
            },
            Ok(None) => preparation_error(*mesh) is None && !mesh_is_buildable(*mesh),
            Err(e) => preparation_error(*mesh) == Some(e),
        },
{
    match prepare_trimesh_from_mesh(mesh) {
        Ok((verticies, indicies)) => {
            if is_buildable(&verticies, &indicies) {
                Ok(Some(new_trimesh(verticies, indicies)))
            } else {
                Ok(None)
            }
        },
        Err(e) => Err(e),
    }
}

} // verus!
