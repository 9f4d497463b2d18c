use vstd::prelude::*;

use crate::face::Face;
use crate::is_3d::Is3D;
use crate::point_cloud_3d::PointCloud3D;

verus! {

/// A triangle-mesh skeleton: a list of faces plus one owned point
/// collection. It is a pure data container: faces and points are appended
/// independently, nothing is removed or merged, and face indices are not
/// validated against the point collection's bounds — an index past the
/// collection's length is a deferred, consumer-side error.
#[derive(Debug)]
pub struct Mesh3D<T, U: Is3D<T>> {
    vertices: Vec<Face>,
    points: PointCloud3D<T, U>,
}

impl<T, U: Is3D<T>> Mesh3D<T, U> {
    /// The faces, in insertion order, as specifications see them.
    pub closed spec fn faces_spec(&self) -> Seq<Face> {
        self.vertices@
    }

    /// The owned points, in insertion order, as specifications see them.
    pub closed spec fn points_spec(&self) -> Seq<U> {
        self.points@
    }

    /// Construct an empty mesh: zero faces, zero points.
    pub fn new() -> (r: Self)
        ensures
            r.faces_spec() == Seq::<Face>::empty(),
            r.points_spec() == Seq::<U>::empty(),
    {
        Mesh3D { vertices: Vec::new(), points: PointCloud3D::new() }
    }

    /// Append a face; its indices are not checked against the point count.
    pub fn push_face(&mut self, face: Face)
        ensures
            final(self).faces_spec() == old(self).faces_spec().push(face),
            final(self).points_spec() == old(self).points_spec(),
    {
        self.vertices.push(face);
    }

    /// Append a point to the owned point collection.
    pub fn push_point(&mut self, point: U)
        ensures
            final(self).points_spec() == old(self).points_spec().push(point),
            final(self).faces_spec() == old(self).faces_spec(),
    {
        self.points.push(point);
    }

    /// The number of faces.
    pub fn face_count(&self) -> (r: usize)
        ensures
            r == self.faces_spec().len(),
    {
        self.vertices.len()
    }

    /// The number of owned points.
    pub fn point_count(&self) -> (r: usize)
        ensures
            r == self.points_spec().len(),
    {
        self.points.len()
    }
}

} // verus!
