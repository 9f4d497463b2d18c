use vstd::prelude::*;

verus! {

/// Capability: in-place translation by a delta vector.
///
/// `moved_spec` names the translated value; `move_by` must leave behind
/// exactly that value. Translation is total: it has no failure path and its
/// only observable effect is the mutation.
pub trait Movable3D<T>: Sized {
    /// The value after translation by `(x, y, z)`, as specifications see it.
    spec fn moved_spec(self, x: T, y: T, z: T) -> Self;

    /// Translate in place by adding each delta to the matching coordinate.
    fn move_by(&mut self, x: T, y: T, z: T)
        ensures
            *final(self) == (*old(self)).moved_spec(x, y, z),
    ;
}

/// The sequence obtained by translating every element of `s` by `(x, y, z)`,
/// element order kept.
pub open spec fn moved_seq<T, U: Movable3D<T>>(s: Seq<U>, x: T, y: T, z: T) -> Seq<U> {
    s.map(|i: int, p: U| p.moved_spec(x, y, z))
}

} // verus!
