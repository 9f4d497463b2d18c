use vstd::prelude::*;

verus! {

/// Capability: map a scalar to its canonical unsigned bit pattern of the same
/// width, so that hashes built from those patterns are consistent with
/// equality on the scalar.
///
/// For an IEEE-754 scalar the pattern is the raw bit layout, which makes the
/// derived hash bit-exact; note that such a scheme distinguishes positive and
/// negative zero even though IEEE equality does not, a documented limitation
/// of bit-pattern hashing. The exact (integer) scalars provided here are their
/// own bit pattern, so for them the scheme agrees with equality completely.
pub trait ConvertFp: Sized {
    /// The unsigned integer type of matching bit width.
    type Item;

    /// The bit pattern, as specifications see it.
    spec fn to_bits_spec(&self) -> Self::Item;

    /// Reinterpret the scalar as its bit pattern; total, never fails.
    fn to_bits1(&self) -> (r: Self::Item)
        ensures
            r == self.to_bits_spec(),
    ;
}

impl ConvertFp for u32 {
    type Item = u32;

    open spec fn to_bits_spec(&self) -> u32 {
        *self
    }

    fn to_bits1(&self) -> (r: u32) {
        *self
    }
}

impl ConvertFp for u64 {
    type Item = u64;

    open spec fn to_bits_spec(&self) -> u64 {
        *self
    }

    fn to_bits1(&self) -> (r: u64) {
        *self
    }
}

/// Capability: in-place addition on a scalar, the one arithmetic operation
/// translation needs. Implementations say in `add_spec` what the sum is;
/// `add_assign_val` must realize exactly that sum.
pub trait ScalarAdd: Sized + Copy {
    /// The sum, as specifications see it.
    spec fn add_spec(self, rhs: Self) -> Self;

    /// Add `rhs` to `self` in place; total, never fails.
    fn add_assign_val(&mut self, rhs: Self)
        ensures
            *final(self) == (*old(self)).add_spec(rhs),
    ;
}

impl ScalarAdd for u32 {
    open spec fn add_spec(self, rhs: u32) -> u32 {
        vstd::wrapping::u32_specs::wrapping_add(self, rhs)
    }

    fn add_assign_val(&mut self, rhs: u32) {
        *self = self.wrapping_add(rhs);
    }
}

impl ScalarAdd for u64 {
    open spec fn add_spec(self, rhs: u64) -> u64 {
        vstd::wrapping::u64_specs::wrapping_add(self, rhs)
    }

    fn add_assign_val(&mut self, rhs: u64) {
        *self = self.wrapping_add(rhs);
    }
}

} // verus!
