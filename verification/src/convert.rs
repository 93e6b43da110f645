//! The two format checks: vertex positions must be triples of 32-bit floats,
//! indices must be 32 bits wide.

use bevy::mesh::{Indices, VertexAttributeValues};
use vstd::prelude::*;

use crate::error::{index_width_reason, vertex_layout_reason, UnsupportedFormatError};
use crate::geometry::{
    points_from_words, points_of, triangle_views, triangles_from_indices, triangles_of, Point,
};
use crate::mesh::{float3_contents, float3_words, u32_contents, u32_words};

verus! {

/// Converts a vertex position buffer to points.
///
/// A buffer of triples of 32-bit floats gives one point for each entry, in
/// order, with the coordinates unchanged. Any other layout is refused.
pub fn convert_verticies(verticies: &VertexAttributeValues) -> (converted: Result<
    Vec<Point>,
    UnsupportedFormatError,
>)
    ensures
        match converted {
            Ok(points) => {
                &&& float3_contents(*verticies) matches Some(words)
                &&& points@ == points_of(words)
                &&& points@.len() == words.len()
            },
            Err(e) => {
                &&& float3_contents(*verticies) is None
                &&& e == UnsupportedFormatError::vertex_layout()
                &&& e@ == vertex_layout_reason()
            },
        },
{
    match float3_words(verticies) {
        Some(words) => Ok(points_from_words(&words)),
        None => Err(UnsupportedFormatError::for_vertex_layout()),
    }
}

/// Converts an index buffer to triangles.
///
/// A buffer of 32-bit indices is cut into consecutive groups of three, in
/// order; what is left over at the end belongs to no triangle. A buffer of
/// another width is refused.
pub fn convert_indicies(indicies: &Indices) -> (converted: Result<
    Vec<[u32; 3]>,
    UnsupportedFormatError,
>)
    ensures
        match converted {
            Ok(triangles) => {
                &&& u32_contents(*indicies) matches Some(flat)
                &&& triangle_views(triangles@) == triangles_of(flat)
                &&& triangles@.len() == flat.len() / 3
            },
            Err(e) => {
                &&& u32_contents(*indicies) is None
                &&& e == UnsupportedFormatError::index_width()
                &&& e@ == index_width_reason()
            },
        },
{
    match u32_words(indicies) {
        Some(flat) => Ok(triangles_from_indices(flat)),
        None => Err(UnsupportedFormatError::for_index_width()),
    }
}

} // verus!
