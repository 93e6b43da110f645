//! The engine's mesh as this library sees it: what it holds, and how its
//! buffers are read.
//!
//! `Mesh`, `VertexAttributeValues` and `Indices` are opaque here. What they
//! hold is named by four specification functions, and four small functions
//! with assumed contracts read it out.

use bevy::mesh::{Indices, Mesh, MeshAccessError, VertexAttributeValues};
use vstd::prelude::*;

use crate::error::ExtractGeometryError;

verus! {

/// `bevy::mesh::Mesh`, opaque.
#[verifier::external_type_specification]
#[verifier::external_body]
pub struct ExMesh(Mesh);

/// `bevy::mesh::VertexAttributeValues`, opaque.
#[verifier::external_type_specification]
#[verifier::external_body]
pub struct ExVertexAttributeValues(VertexAttributeValues);

/// `bevy::mesh::Indices`, opaque.
#[verifier::external_type_specification]
#[verifier::external_body]
pub struct ExIndices(Indices);

/// `bevy::mesh::MeshAccessError`, opaque: why a mesh gave no access to its
/// data.
#[verifier::external_type_specification]
#[verifier::external_body]
pub struct ExMeshAccessError(MeshAccessError);

/// The vertex position attribute that can be read from `mesh`: `None` where
/// the mesh has none, or has handed its vertex data over to the renderer.
pub uninterp spec fn mesh_positions(mesh: Mesh) -> Option<VertexAttributeValues>;

/// The index buffer that can be read from `mesh`: `None` where the mesh has
/// none, or has handed its index data over to the renderer.
pub uninterp spec fn mesh_indices(mesh: Mesh) -> Option<Indices>;

/// The entries of a vertex buffer in the layout of three 32-bit floats, each
/// float as its bit pattern; `None` for a buffer in any other layout.
pub uninterp spec fn float3_contents(values: VertexAttributeValues) -> Option<Seq<[u32; 3]>>;

/// The entries of a 32-bit index buffer; `None` for a buffer of another width.
pub uninterp spec fn u32_contents(indices: Indices) -> Option<Seq<u32>>;

/// `Mesh::try_attribute_option` for `Mesh::ATTRIBUTE_POSITION`.
///
/// Assumed: it returns the position attribute exactly where one can be read,
/// and an error or `None` where none can.
#[verifier::external_body]
fn position_attribute(mesh: &Mesh) -> (found: Result<
    Option<&VertexAttributeValues>,
    MeshAccessError,
>)
    ensures
        match found {
            Ok(Some(values)) => mesh_positions(*mesh) == Some(*values),
            _ => mesh_positions(*mesh) is None,
        },
{
    mesh.try_attribute_option(Mesh::ATTRIBUTE_POSITION)
}

/// `Mesh::try_indices_option`.
///
/// Assumed: it returns the index buffer exactly where one can be read, and an
/// error or `None` where none can.
#[verifier::external_body]
fn index_buffer(mesh: &Mesh) -> (found: Result<Option<&Indices>, MeshAccessError>)
    ensures
        match found {
            Ok(Some(indices)) => mesh_indices(*mesh) == Some(*indices),
            _ => mesh_indices(*mesh) is None,
        },
{
    mesh.try_indices_option()
}

/// Tells the `Float32x3` variant of `VertexAttributeValues` from the others
/// and hands its entries out, each float through `to_bits`.
///
/// Assumed: the entries come out one for one and in order.
#[verifier::external_body]
pub(crate) fn float3_words(values: &VertexAttributeValues) -> (words: Option<Vec<[u32; 3]>>)
    ensures
        match words {
            Some(w) => float3_contents(*values) == Some(w@),
            None => float3_contents(*values) is None,
        },
{
    match values {
        VertexAttributeValues::Float32x3(entries) => Some(
            entries.iter().map(|e| [e[0].to_bits(), e[1].to_bits(), e[2].to_bits()]).collect(),
        ),
        _ => None,
    }
}

/// Tells the `U32` variant of `Indices` from the other and hands out its
/// buffer.
///
/// Assumed: the buffer is the one that the variant holds.
#[verifier::external_body]
pub(crate) fn u32_words(indices: &Indices) -> (words: Option<&Vec<u32>>)
    ensures
        match words {
            Some(w) => u32_contents(*indices) == Some(w@),
            None => u32_contents(*indices) is None,
        },
{
    match indices {
        Indices::U32(entries) => Some(entries),
        _ => None,
    }
}

/// Reads the vertex position buffer and the index buffer out of a mesh.
///
/// Fails with `NoVertexPositionData` where no position attribute can be
/// read, whatever the index buffer; with `NoVertexIndicies` where the
/// positions are there and no index buffer can be read.
pub fn extract_geometry(mesh: &Mesh) -> (geometry: Result<
    (&VertexAttributeValues, &Indices),
    ExtractGeometryError,
>)
    ensures
        match geometry {
            Ok((verticies, indicies)) => {
                &&& mesh_positions(*mesh) == Some(*verticies)
                &&& mesh_indices(*mesh) == Some(*indicies)
            },
            Err(ExtractGeometryError::NoVertexPositionData) => mesh_positions(*mesh) is None,
            Err(ExtractGeometryError::NoVertexIndicies) => {
                &&& mesh_positions(*mesh) is Some
                &&& mesh_indices(*mesh) is None
            },
        },
{
    let verticies = match position_attribute(mesh) {
        Ok(Some(values)) => values,
        _ => {
            return Err(ExtractGeometryError::NoVertexPositionData);
        },
    };
    let indicies = match index_buffer(mesh) {
        Ok(Some(indices)) => indices,
        _ => {
            return Err(ExtractGeometryError::NoVertexIndicies);
        },
    };
    Ok((verticies, indicies))
}

} // verus!
