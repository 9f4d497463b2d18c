use vstd::prelude::*;

use core::marker::PhantomData;

use crate::is_3d::Is3D;
use crate::movable_3d::Movable3D;
use crate::movable_3d::moved_seq;

verus! {

/// An ordered, growable collection of point-like values.
///
/// The collection is generic over the scalar type `T` and over the concrete
/// point type `U`; `T` is never stored as data, it only constrains `U`
/// through the coordinate capability. Insertion order is kept, duplicates are
/// allowed, and every element is owned exclusively. The view of a collection
/// is the sequence of its elements in insertion order.
#[derive(Debug)]
pub struct PointCloud3D<T, U: Is3D<T>> {
    data: Vec<U>,
    _phantom: PhantomData<T>,
}

impl<T, U: Is3D<T>> View for PointCloud3D<T, U> {
    type V = Seq<U>;

    closed spec fn view(&self) -> Seq<U> {
        self.data@
    }
}

impl<T, U: Is3D<T>> PointCloud3D<T, U> {
    /// Construct an empty collection.
    pub fn new() -> (r: Self)
        ensures
            r@ == Seq::<U>::empty(),
    {
        PointCloud3D { data: Vec::new(), _phantom: PhantomData }
    }

    /// True exactly when the collection holds no element.
    pub fn is_empty(&self) -> (r: bool)
        ensures
            r == (self@.len() == 0),
    {
        self.data.len() == 0
    }

    /// Append `value` at the end; the prior elements keep their order and the
    /// length grows by exactly one.
    pub fn push(&mut self, value: U)
        ensures
            final(self)@ == old(self)@.push(value),
    {
        self.data.push(value);
    }

    /// Remove and return the last element, or `None` when the collection is
    /// empty; on success the length shrinks by exactly one and the remaining
    /// elements keep their order.
    pub fn pop(&mut self) -> (r: Option<U>)
        ensures
            old(self)@.len() > 0 ==> r == Some(old(self)@.last()) && final(self)@ == old(
                self,
            )@.drop_last(),
            old(self)@.len() == 0 ==> r is None && final(self)@ == old(self)@,
    {
        self.data.pop()
    }

    /// The number of elements.
    pub fn len(&self) -> (r: usize)
        ensures
            r == self@.len(),
    {
        self.data.len()
    }

    /// Ask for room for `additional` more elements: a pure performance hint
    /// that leaves the content untouched.
    pub fn reserve(&mut self, additional: usize)
        ensures
            final(self)@ == old(self)@,
    {
        self.data.reserve(additional)
    }

    /// The element at position `index`. An index at or past the length is a
    /// caller error: verified callers are held to the precondition, and an
    /// unverified caller that breaks it stops execution loudly at the access.
    pub fn index(&self, index: usize) -> (r: &U)
        requires
            index < self@.len(),
        ensures
            *r == self@[index as int],
    {
        &self.data[index]
    }

    /// Consume the collection and hand its elements out in insertion order.
    pub fn into_vec(self) -> (r: Vec<U>)
        ensures
            r@ == self@,
    {
        self.data
    }
}

impl<T: Copy, U: Is3D<T> + Movable3D<T>> PointCloud3D<T, U> {
    /// Translate every element in place by `(x, y, z)`, in insertion order:
    /// the whole collection moves rigidly, and length and element order are
    /// unchanged.
    pub fn move_by(&mut self, x: T, y: T, z: T)
        ensures
            final(self)@ == moved_seq(old(self)@, x, y, z),
    {
        let n = self.data.len();
        let mut i: usize = 0;
        while i < n
            invariant
                n == old(self)@.len(),
                i <= n,
                self@.len() == n,
                forall|j: int| 0 <= j < i ==> self@[j] == old(self)@[j].moved_spec(x, y, z),
                forall|j: int| i <= j < n ==> self@[j] == old(self)@[j],
            decreases n - i,
        {
            let p = &mut self.data[i];
            p.move_by(x, y, z);
            i = i + 1;
        }
        proof {
            assert(self@ =~= moved_seq(old(self)@, x, y, z));
        }
    }
}

/// Law: pushing a value and then popping returns exactly the pushed value,
/// and leaves the collection as it was before the push.
pub proof fn lemma_push_then_pop<U>(s: Seq<U>, value: U)
    ensures
        s.push(value).len() > 0,
        s.push(value).last() == value,
        s.push(value).drop_last() == s,
{
    assert(s.push(value).drop_last() =~= s);
}

/// Law: after translating a collection that holds `[p1, p2]`, popping yields
/// the translated `p2` first and the translated `p1` second.
pub proof fn lemma_move_then_pop_two<T, U: Movable3D<T>>(p1: U, p2: U, x: T, y: T, z: T)
    ensures
        moved_seq(seq![p1, p2], x, y, z).len() == 2,
        moved_seq(seq![p1, p2], x, y, z).last() == p2.moved_spec(x, y, z),
        moved_seq(seq![p1, p2], x, y, z).drop_last().last() == p1.moved_spec(x, y, z),
{
    assert(moved_seq(seq![p1, p2], x, y, z)[1] == p2.moved_spec(x, y, z));
}

} // verus!
