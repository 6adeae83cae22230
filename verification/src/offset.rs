//! Type-tagged byte-offset arithmetic between an outer aggregate and an
//! object nested inside it.

use core::marker::PhantomData;
use vstd::prelude::*;

verus! {

/// Relies on `core::marker::PhantomData`'s `Clone`: the marker is a
/// zero-sized unit type, so cloning it yields the marker itself. Verus needs
/// this to accept the derived `Clone` of types carrying a phantom tag.
pub assume_specification<T: core::marker::PointeeSized>[ <core::marker::PhantomData<T> as Clone>::clone ](
    p: &core::marker::PhantomData<T>,
) -> (r: core::marker::PhantomData<T>)
    ensures
        r == *p,
;

/// Stands in for an outer aggregate whose concrete type is unknown at the
/// point of use: all that is known is that some aggregate encloses the inner
/// object.
pub type Opaque = [usize; 0];

/// A strictly positive byte distance from the start of an outer aggregate
/// `O` to the start of a field of type `I` nested inside it. The distance is
/// used to navigate outward: subtracting it from the inner object's address
/// recovers the enclosing aggregate's address.
#[derive(Clone, Copy, Debug)]
#[verifier::reject_recursive_types(O)]
#[verifier::reject_recursive_types(I)]
pub struct FieldOffset<O, I> {
    off: usize,
    tags: PhantomData<(O, I)>,
}

impl<O, I> FieldOffset<O, I> {
    /// The stored byte distance.
    pub closed spec fn dist(self) -> usize {
        self.off
    }

    /// Well-formed: strictly positive (the inner object starts strictly past
    /// the start of the outer one) and small enough to carry a sign.
    pub open spec fn wf(self) -> bool {
        0 < self.dist() <= isize::MAX
    }

    /// Builds the offset from the addresses and sizes of an outer and an
    /// inner object known to alias one allocation. The inner object must lie
    /// fully within the outer object's byte range and strictly past its
    /// start; a caller that cannot meet this has broken a layout invariant.
    pub fn from_ptrs(o_addr: usize, o_size: usize, i_addr: usize, i_size: usize) -> (r: Self)
        requires
            o_addr < i_addr,
            i_addr + i_size <= o_addr + o_size,
            i_addr - o_addr <= isize::MAX,
        ensures
            r.dist() == i_addr - o_addr,
            r.wf(),
    {
        FieldOffset { off: i_addr - o_addr, tags: PhantomData }
    }

    /// The checked form of `from_ptrs`: returns the offset exactly when the
    /// inner range lies within the outer range, strictly past its start, at
    /// a distance that can carry a sign; `None` otherwise.
    pub fn try_from_ptrs(o_addr: usize, o_size: usize, i_addr: usize, i_size: usize) -> (r: Option<
        Self,
    >)
        ensures
            r is Some <==> (o_addr < i_addr && i_addr + i_size <= o_addr + o_size && i_addr - o_addr
                <= isize::MAX),
            r matches Some(f) ==> f.dist() == i_addr - o_addr && f.wf(),
    {
        if i_addr <= o_addr {
            return None;
        }
        let off = i_addr - o_addr;
        if off > (isize::MAX as usize) {
            return None;
        }
        if i_size > o_size {
            return None;
        }
        if off > o_size - i_size {
            return None;
        }
        Some(FieldOffset { off, tags: PhantomData })
    }

    /// Wraps a byte distance already known to be valid. The distance must be
    /// strictly positive and able to carry a sign.
    pub fn from_offset(off: usize) -> (r: Self)
        requires
            0 < off <= isize::MAX,
        ensures
            r.dist() == off,
            r.wf(),
    {
        FieldOffset { off, tags: PhantomData }
    }

    /// The checked form of `from_offset`: returns the offset exactly when
    /// the distance is strictly positive and can carry a sign.
    pub fn try_from_offset(off: usize) -> (r: Option<Self>)
        ensures
            r is Some <==> 0 < off <= isize::MAX,
            r matches Some(f) ==> f.dist() == off && f.wf(),
    {
        if off == 0 {
            None
        } else if off > (isize::MAX as usize) {
            None
        } else {
            Some(FieldOffset { off, tags: PhantomData })
        }
    }

    /// The stored byte distance.
    pub fn offset(&self) -> (r: usize)
        ensures
            r == self.dist(),
    {
        self.off
    }

    /// Moves an address by a signed byte distance.
    pub fn shift(addr: usize, delta: isize) -> (r: usize)
        requires
            isize::MIN < delta,
            0 <= addr + delta <= usize::MAX,
        ensures
            r == addr + delta,
    {
        if delta >= 0 {
            addr + (delta as usize)
        } else {
            addr - ((-delta) as usize)
        }
    }

    /// Navigates from the address of the inner object back to the address
    /// of its enclosing outer aggregate. The caller must know that the inner
    /// object really lies inside an outer one laid out per this offset;
    /// the contract only fixes the arithmetic.
    pub fn to_outer(&self, i_addr: usize) -> (r: usize)
        requires
            self.wf(),
            self.dist() <= i_addr,
        ensures
            r == i_addr - self.dist(),
    {
        Self::shift(i_addr, -(self.off as isize))
    }

    /// Composes this outer-to-middle offset with a middle-to-inner offset
    /// into the outer-to-inner offset: byte distances add.
    pub fn compose<I2>(self, that: FieldOffset<I, I2>) -> (r: FieldOffset<O, I2>)
        requires
            self.wf(),
            that.wf(),
            self.dist() + that.dist() <= isize::MAX,
        ensures
            r.dist() == self.dist() + that.dist(),
            r.wf(),
    {
        FieldOffset::<O, I2>::from_offset(self.offset() + that.offset())
    }
}

/// Round trip: an offset built by `from_ptrs` from a valid (outer, inner)
/// address pair, applied by `to_outer` to the inner address, recovers the
/// outer address exactly.
pub proof fn lemma_from_ptrs_to_outer<O, I>(
    f: FieldOffset<O, I>,
    o_addr: usize,
    o_size: usize,
    i_addr: usize,
    i_size: usize,
)
    requires
        o_addr < i_addr,
        i_addr + i_size <= o_addr + o_size,
        i_addr - o_addr <= isize::MAX,
        f.dist() == i_addr - o_addr,
    ensures
        f.wf(),
        i_addr - f.dist() == o_addr,
{
}

/// Composition agrees with stepwise navigation: going outward from an inner
/// address with `a.compose(b)` lands exactly where going first outward with
/// `b` and then with `a` lands.
pub proof fn lemma_compose_to_outer<O, M, I>(
    a: FieldOffset<O, M>,
    b: FieldOffset<M, I>,
    i_addr: usize,
)
    requires
        a.wf(),
        b.wf(),
        a.dist() + b.dist() <= isize::MAX,
        a.dist() + b.dist() <= i_addr,
    ensures
        i_addr - (a.dist() + b.dist()) == (i_addr - b.dist()) - a.dist(),
{
}

} // verus!
