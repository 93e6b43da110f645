//! The geometry of a mesh, prepared once and kept for building the same
//! triangle mesh again and again.

use bevy::mesh::Mesh;
use parry3d::shape::TriMesh;
use vstd::prelude::*;

use crate::error::TriMeshBuildError;
use crate::geometry::{buildable, is_buildable, triangle_views, Point};
use crate::prepare::{
    prepare_trimesh_from_mesh, prepared_triangles, prepared_verticies, preparation_error,
};
use crate::trimesh::{new_trimesh, trimesh_indices, trimesh_vertices};

verus! {

/// Holds the two buffers of a triangle mesh.
pub struct CachedTriMeshBuilder {
    /// The vertices that every triangle mesh built from this cache gets.
    pub verticies: Vec<Point>,
    /// The triangles that every triangle mesh built from this cache gets.
    pub indicies: Vec<[u32; 3]>,
}

impl CachedTriMeshBuilder {
    /// Whether a triangle mesh can be made of the cached buffers.
    pub open spec fn can_build(&self) -> bool {
        buildable(self.verticies@.len(), triangle_views(self.indicies@))
    }

    /// `trimesh` holds the cached buffers as they are.
    pub open spec fn built(&self, trimesh: TriMesh) -> bool {
        &&& trimesh_vertices(trimesh) == self.verticies@
        &&& trimesh_indices(trimesh) == self.indicies@
    }

    /// `trimesh` holds the cached triangles as they are, and for each cached
    /// vertex, at its place, a point that `transform` gives for it.
    pub open spec fn built_with<F: Fn(Point) -> Point>(
        &self,
        transform: F,
        trimesh: TriMesh,
    ) -> bool {
        &&& trimesh_indices(trimesh) == self.indicies@
        &&& trimesh_vertices(trimesh).len() == self.verticies@.len()
        &&& forall|i: int|
            0 <= i < self.verticies@.len() ==> call_ensures(
                transform,
                (self.verticies@[i],),
                #[trigger] trimesh_vertices(trimesh)[i],
            )
    }

    /// Prepares the geometry of a mesh and keeps it.
    ///
    /// Fails as the preparation fails, and only then.
    pub fn from_mesh(mesh: &Mesh) -> (cached: Result<Self, TriMeshBuildError>)
        ensures
            match cached {
                Ok(cache) => {
                    &&& preparation_error(*mesh) is None
                    &&& cache.verticies@ == prepared_verticies(*mesh)
                    &&& triangle_views(cache.indicies@) == prepared_triangles(*mesh)
                },
                Err(e) => preparation_error(*mesh) == Some(e),
            },
    {
        match prepare_trimesh_from_mesh(mesh) {
            Ok((verticies, indicies)) => Ok(CachedTriMeshBuilder { verticies, indicies }),
            Err(e) => Err(e),
        }
    }

    /// Tests whether a triangle mesh can be made of the cached buffers.
    pub fn is_buildable(&self) -> (ok: bool)
        ensures
            ok == self.can_build(),
    {
        is_buildable(&self.verticies, &self.indicies)
    }

    /// Builds a new triangle mesh that holds a copy of the cached buffers.
    pub fn build(&self) -> (trimesh: TriMesh)
        requires
            self.can_build(),
        ensures
            self.built(trimesh),
    {
        new_trimesh(copy_of(&self.verticies), copy_of(&self.indicies))
    }

    /// Builds a new triangle mesh that holds a copy of the cached triangles
    /// and, in place of each cached vertex, what `transform` makes of it.
    /// `transform` is called once for each vertex, in order.
    pub fn build_with_vertex_transform(&self, transform: impl Fn(Point) -> Point) -> (trimesh:
        TriMesh)
        requires
            self.can_build(),
            forall|i: int|
                0 <= i < self.verticies@.len() ==> call_requires(
                    transform,
                    (#[trigger] self.verticies@[i],),
                ),
        ensures
            self.built_with(transform, trimesh),
    {
        let mut verticies: Vec<Point> = Vec::with_capacity(self.verticies.len());
        let mut i: usize = 0;
        while i < self.verticies.len()
            invariant
                i <= self.verticies.len(),
                verticies.len() == i,
                forall|j: int|
                    0 <= j < self.verticies@.len() ==> call_requires(
                        transform,
                        (#[trigger] self.verticies@[j],),
                    ),
                forall|j: int|
                    0 <= j < i ==> call_ensures(
                        transform,
                        (self.verticies@[j],),
                        #[trigger] verticies@[j],
                    ),
            decreases self.verticies.len() - i,
        {
            verticies.push(transform(self.verticies[i]));
            i += 1;
        }
        new_trimesh(verticies, copy_of(&self.indicies))
    }

    /// Two triangle meshes built from one cache hold the same vertices and
    /// the same triangles.
    pub proof fn lemma_builds_agree(&self, first: TriMesh, second: TriMesh)
        requires
            self.built(first),
            self.built(second),
        ensures
            trimesh_vertices(first) == trimesh_vertices(second),
            trimesh_indices(first) == trimesh_indices(second),
    {
    }

    /// Where `transform` computes the function `image`, a triangle mesh
    /// built with it holds the image of each cached vertex, at its place,
    /// and the cached triangles unchanged.
    pub proof fn lemma_transform_maps_verticies<F: Fn(Point) -> Point>(
        &self,
        transform: F,
        image: spec_fn(Point) -> Point,
        trimesh: TriMesh,
    )
        requires
            self.built_with(transform, trimesh),
            forall|p: Point, q: Point| call_ensures(transform, (p,), q) ==> q == image(p),
        ensures
            trimesh_vertices(trimesh) == self.verticies@.map_values(image),
            trimesh_indices(trimesh) == self.indicies@,
    {
        assert(trimesh_vertices(trimesh) =~= self.verticies@.map_values(image));
    }

    /// Built with a transform that hands each point back as it is, a
    /// triangle mesh holds what a plain build gives.
    pub proof fn lemma_identity_transform_is_build<F: Fn(Point) -> Point>(
        &self,
        transform: F,
        transformed: TriMesh,
        plain: TriMesh,
    )
        requires
            self.built_with(transform, transformed),
            self.built(plain),
            forall|p: Point, q: Point| call_ensures(transform, (p,), q) ==> q == p,
        ensures
            trimesh_vertices(transformed) == trimesh_vertices(plain),
            trimesh_indices(transformed) == trimesh_indices(plain),
    {
        assert(trimesh_vertices(transformed) =~= self.verticies@);
    }
}

/// A copy of a buffer: the same items in the same order.
fn copy_of<T: Copy>(items: &Vec<T>) -> (copy: Vec<T>)
    ensures
        copy@ == items@,
{
    let mut copy: Vec<T> = Vec::with_capacity(items.len());
    let mut i: usize = 0;
    while i < items.len()
        invariant
            i <= items.len(),
            copy@ == items@.take(i as int),
        decreases items.len() - i,
    {
        copy.push(items[i]);
        i += 1;
        assert(copy@ =~= items@.take(i as int));
    }
    assert(items@.take(i as int) =~= items@);
    copy
}

} // verus!
