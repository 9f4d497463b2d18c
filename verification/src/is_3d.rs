use vstd::prelude::*;

verus! {

/// Capability: read access to three coordinates of scalar type `T`.
///
/// Every container in this crate is written against this capability rather
/// than against a concrete point type, so richer point representations can be
/// stored without touching the containers. The accessors are pure: they have
/// no side effect and no failure path, and each returns exactly the
/// coordinate that the matching spec function names.
pub trait Is3D<T>: Sized {
    /// The x-coordinate, as specifications see it.
    spec fn x_spec(&self) -> T;

    /// The y-coordinate, as specifications see it.
    spec fn y_spec(&self) -> T;

    /// The z-coordinate, as specifications see it.
    spec fn z_spec(&self) -> T;

    /// Return the x-coordinate.
    fn x(&self) -> (r: T)
        ensures
            r == self.x_spec(),
    ;

    /// Return the y-coordinate.
    fn y(&self) -> (r: T)
        ensures
            r == self.y_spec(),
    ;

    /// Return the z-coordinate.
    fn z(&self) -> (r: T)
        ensures
            r == self.z_spec(),
    ;
}

} // verus!
