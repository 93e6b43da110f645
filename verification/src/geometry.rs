//! Points and triangles as plain values, and the two conversions that carry
//! raw buffers over to them.

use vstd::prelude::*;

verus! {

/// A point of 3D space. Each coordinate is held as the bit pattern of its
/// IEEE-754 single-precision value.
#[derive(Debug, Clone, Copy, PartialEq, Eq, Structural)]
pub struct Point {
    pub x: u32,
    pub y: u32,
    pub z: u32,
}

/// The point whose coordinates are the three words of `words`, in order.
pub open spec fn point_of(words: Seq<u32>) -> Point {
    Point { x: words[0], y: words[1], z: words[2] }
}

/// One point for each entry of `words`, in the order of the entries.
pub open spec fn points_of(words: Seq<[u32; 3]>) -> Seq<Point> {
    Seq::new(words.len(), |i: int| point_of(words[i]@))
}

/// The flat index buffer cut into consecutive groups of three. A trailing
/// group of one or two indices belongs to no triangle and is left out.
pub open spec fn triangles_of(flat: Seq<u32>) -> Seq<Seq<u32>> {
    Seq::new(flat.len() / 3, |k: int| flat.subrange(3 * k, 3 * k + 3))
}

/// The triangles of `triangles`, each as the sequence of its three indices.
pub open spec fn triangle_views(triangles: Seq<[u32; 3]>) -> Seq<Seq<u32>> {
    Seq::new(triangles.len(), |k: int| triangles[k]@)
}

/// Whether each index of `triangle` names one of `vertex_count` vertices.
pub open spec fn triangle_in_range(triangle: Seq<u32>, vertex_count: nat) -> bool {
    forall|c: int| 0 <= c < triangle.len() ==> triangle[c] < vertex_count
}

/// Whether a triangle mesh can be made of `vertex_count` vertices and
/// `triangles`: there is at least one triangle, and every index of every
/// triangle names a vertex.
pub open spec fn buildable(vertex_count: nat, triangles: Seq<Seq<u32>>) -> bool {
    &&& triangles.len() > 0
    &&& forall|k: int|
        0 <= k < triangles.len() ==> triangle_in_range(#[trigger] triangles[k], vertex_count)
}

/// Reads a triple of coordinate words as a point.
pub fn point_from_words(words: &[u32; 3]) -> (point: Point)
    ensures
        point == point_of(words@),
{
    Point { x: words[0], y: words[1], z: words[2] }
}

/// Reads each entry of a buffer of coordinate triples as a point.
pub fn points_from_words(words: &Vec<[u32; 3]>) -> (points: Vec<Point>)
    ensures
        points@ == points_of(words@),
        points@.len() == words@.len(),
{
    let mut points: Vec<Point> = Vec::with_capacity(words.len());
    let mut i: usize = 0;
    while i < words.len()
        invariant
            i <= words.len(),
            points@ == points_of(words@.take(i as int)),
        decreases words.len() - i,
    {
        points.push(point_from_words(&words[i]));
        i += 1;
        assert(points@ =~= points_of(words@.take(i as int)));
    }
    assert(words@.take(i as int) =~= words@);
    points
}

/// Cuts a flat index buffer into triangles.
pub fn triangles_from_indices(flat: &Vec<u32>) -> (triangles: Vec<[u32; 3]>)
    ensures
        triangle_views(triangles@) == triangles_of(flat@),
        triangles@.len() == flat@.len() / 3,
{
    let count: usize = flat.len() / 3;
    let mut triangles: Vec<[u32; 3]> = Vec::with_capacity(count);
    let mut k: usize = 0;
    while k < count
        invariant
            count == flat.len() / 3,
            k <= count,
            triangles.len() == k,
            forall|j: int| 0 <= j < k ==> (#[trigger] triangles[j])@ == flat@.subrange(3 * j, 3 * j + 3),
        decreases count - k,
    {
        let triangle: [u32; 3] = [flat[3 * k], flat[3 * k + 1], flat[3 * k + 2]];
        assert(triangle@ =~= flat@.subrange(3 * k, 3 * k + 3));
        triangles.push(triangle);
        k += 1;
    }
    assert(triangle_views(triangles@) =~= triangles_of(flat@));
    triangles
}

/// Tests whether a triangle mesh can be made of the two buffers.
pub fn is_buildable(verticies: &Vec<Point>, indicies: &Vec<[u32; 3]>) -> (ok: bool)
    ensures
        ok == buildable(verticies@.len(), triangle_views(indicies@)),
{
    if indicies.len() == 0 {
        return false;
    }
    let count: usize = verticies.len();
    let mut k: usize = 0;
    while k < indicies.len()
        invariant
            k <= indicies.len(),
            count == verticies@.len(),
            forall|j: int|
                0 <= j < k ==> triangle_in_range(
                    #[trigger] triangle_views(indicies@)[j],
                    verticies@.len(),
                ),
        decreases indicies.len() - k,
    {
        let triangle: &[u32; 3] = &indicies[k];
        let a: u32 = triangle[0];
        let b: u32 = triangle[1];
        let c: u32 = triangle[2];
        if !(index_in_range(a, count) && index_in_range(b, count) && index_in_range(c, count)) {
            assert(!triangle_in_range(triangle_views(indicies@)[k as int], verticies@.len()));
            return false;
        }
        k += 1;
    }
    true
}

/// Tests whether `index` names one of `count` vertices.
fn index_in_range(index: u32, count: usize) -> (ok: bool)
    ensures
        ok == (index < count),
{
    (index as usize) < count
}

} // verus!
