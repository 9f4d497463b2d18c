use vstd::prelude::*;

verus! {

/// A triangle face: three indices into some point set.
///
/// By convention the indices refer to the point collection of the mesh that
/// owns the face, but that is a data contract only: no bound on the indices
/// is checked at construction, and an out-of-range index is a deferred,
/// consumer-side error.
#[derive(Debug)]
pub struct Face {
    point_3d_indices: [usize; 3],
}

impl Face {
    /// The three point indices, as specifications see them.
    pub closed spec fn indices_spec(&self) -> [usize; 3] {
        self.point_3d_indices
    }

    /// Build a face from three point indices; none of them is validated.
    pub fn new(point_3d_indices: [usize; 3]) -> (r: Self)
        ensures
            r.indices_spec() == point_3d_indices,
    {
        Face { point_3d_indices }
    }

    /// The three point indices, in order.
    pub fn indices(&self) -> (r: [usize; 3])
        ensures
            r == self.indices_spec(),
    {
        self.point_3d_indices
    }
}

} // verus!
