use vstd::prelude::*;

use crate::is_3d::Is3D;
use crate::movable_3d::Movable3D;
use vstd::std_specs::convert::FromSpec;

use crate::util::ConvertFp;
use crate::util::ScalarAdd;

verus! {

/// A concrete 3D point: three coordinates of one scalar type `T`.
///
/// Equality is structural (the derived `PartialEq` compares the three
/// coordinates pairwise with the scalar's own partial equality), and only a
/// partial order is offered, never a total one, since a scalar type may hold
/// incomparable values. Construction, access and translation are total: no
/// scalar value is rejected.
#[derive(Debug, PartialEq, PartialOrd, Clone)]
pub struct Point3D<T> {
    pub x: T,
    pub y: T,
    pub z: T,
}

impl<T: Copy> Point3D<T> {
    /// Construct a point from three explicit components.
    pub fn new(x: T, y: T, z: T) -> (r: Self)
        ensures
            r == (Point3D { x, y, z }),
    {
        Point3D { x, y, z }
    }
}

impl<T: Copy + ConvertFp> Point3D<T> {
    /// The three bit patterns that hashing feeds to a hash state, in the
    /// fixed order x, then y, then z, as specifications see them.
    pub open spec fn hash_bits_spec(&self) -> (T::Item, T::Item, T::Item) {
        (self.x.to_bits_spec(), self.y.to_bits_spec(), self.z.to_bits_spec())
    }

    /// The input that a hash of this point is built from: the bit pattern of
    /// each coordinate, in the fixed, order-dependent sequence x, y, z. A
    /// host feeds these three values into its hash state in this order, so
    /// that points whose coordinates agree bit for bit hash alike.
    pub fn hash_bits(&self) -> (r: (T::Item, T::Item, T::Item))
        ensures
            r == self.hash_bits_spec(),
    {
        (self.x.to_bits1(), self.y.to_bits1(), self.z.to_bits1())
    }
}

impl<T: Copy> From<[T; 3]> for Point3D<T> {
    /// Construct a point from an ordered triple of components; the result
    /// equals explicit construction from the same three values.
    fn from(coords: [T; 3]) -> (r: Self) {
        Point3D { x: coords[0], y: coords[1], z: coords[2] }
    }
}

impl<T: Copy> vstd::std_specs::convert::FromSpecImpl<[T; 3]> for Point3D<T> {
    open spec fn obeys_from_spec() -> bool {
        true
    }

    open spec fn from_spec(coords: [T; 3]) -> Self {
        Point3D { x: coords[0], y: coords[1], z: coords[2] }
    }
}

impl<T: Copy + core::default::Default> core::default::Default for Point3D<T> {
    /// Default-construct: each coordinate is the scalar type's own default,
    /// which for every numeric scalar is its zero.
    fn default() -> (r: Self)
        ensures
            call_ensures(T::default, (), r.x),
            call_ensures(T::default, (), r.y),
            call_ensures(T::default, (), r.z),
    {
        Point3D { x: T::default(), y: T::default(), z: T::default() }
    }
}

impl<T: Copy> Is3D<T> for Point3D<T> {
    open spec fn x_spec(&self) -> T {
        self.x
    }

    open spec fn y_spec(&self) -> T {
        self.y
    }

    open spec fn z_spec(&self) -> T {
        self.z
    }

    fn x(&self) -> (r: T) {
        self.x
    }

    fn y(&self) -> (r: T) {
        self.y
    }

    fn z(&self) -> (r: T) {
        self.z
    }
}

impl<T: ScalarAdd> Movable3D<T> for Point3D<T> {
    open spec fn moved_spec(self, x: T, y: T, z: T) -> Self {
        Point3D { x: self.x.add_spec(x), y: self.y.add_spec(y), z: self.z.add_spec(z) }
    }

    fn move_by(&mut self, x: T, y: T, z: T) {
        self.x.add_assign_val(x);
        self.y.add_assign_val(y);
        self.z.add_assign_val(z);
    }
}

/// Law: constructing a point from an ordered triple yields the same point as
/// constructing it from the three components of that triple.
pub proof fn lemma_from_triple_matches_new<T: Copy>(coords: [T; 3])
    ensures
        Point3D::<T>::from_spec(coords) == (Point3D {
            x: coords[0],
            y: coords[1],
            z: coords[2],
        }),
{
}

/// Law: default construction yields the origin. Whatever `default` returned
/// for each coordinate of a point over the exact 64-bit scalar, that
/// coordinate is the scalar's zero.
pub proof fn lemma_default_point_is_origin(p: Point3D<u64>)
    requires
        call_ensures(u64::default, (), p.x),
        call_ensures(u64::default, (), p.y),
        call_ensures(u64::default, (), p.z),
    ensures
        p == (Point3D { x: 0u64, y: 0u64, z: 0u64 }),
{
}

/// Law: over the exact 64-bit scalar, translating a point twice is the same
/// as translating it once by the (wrapping) sums of the two delta vectors.
/// For an inexact scalar this holds only up to rounding, which is why it is
/// stated for the exact scalar alone.
pub proof fn lemma_move_by_composes(
    p: Point3D<u64>,
    x1: u64,
    y1: u64,
    z1: u64,
    x2: u64,
    y2: u64,
    z2: u64,
)
    ensures
        p.moved_spec(x1, y1, z1).moved_spec(x2, y2, z2) == p.moved_spec(
            x1.add_spec(x2),
            y1.add_spec(y2),
            z1.add_spec(z2),
        ),
{
}

/// Law: hashing is consistent with equality. Two points whose coordinates
/// are equal have equal hash input, so any hash built from that input is
/// equal as well.
pub proof fn lemma_equal_points_hash_alike<T: Copy + ConvertFp>(p: Point3D<T>, q: Point3D<T>)
    requires
        p.x == q.x,
        p.y == q.y,
        p.z == q.z,
    ensures
        p.hash_bits_spec() == q.hash_bits_spec(),
{
}

} // verus!
