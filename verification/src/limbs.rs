//! Fixed-width limb arrays: the boundary encoding of scalars and points.
//!
//! A scalar is four 64-bit limbs, a point is eight (x then y), each group
//! big-endian: the first limb is the most significant.

use vstd::prelude::*;

verus! {

/// Numeric value of a big-endian sequence of 64-bit limbs.
pub open spec fn limbs_be_nat(l: Seq<u64>) -> nat
    decreases l.len(),
{
    if l.len() == 0 {
        0
    } else {
        limbs_be_nat(l.drop_last()) * 0x1_0000_0000_0000_0000 + (l.last() as nat)
    }
}

/// The x coordinate held in the first half of a point's limb array.
pub open spec fn point_x_nat(q: Seq<u64>) -> nat {
    limbs_be_nat(q.subrange(0, 4))
}

/// The y coordinate held in the second half of a point's limb array.
pub open spec fn point_y_nat(q: Seq<u64>) -> nat {
    limbs_be_nat(q.subrange(4, 8))
}

/// A four-limb value is zero exactly when every limb is zero.
proof fn lemma_limbs4_zero_iff(l: Seq<u64>)
    requires
        l.len() == 4,
    ensures
        (limbs_be_nat(l) == 0) <==> (l[0] == 0 && l[1] == 0 && l[2] == 0 && l[3] == 0),
{
    let t3 = l.drop_last();
    let t2 = t3.drop_last();
    let t1 = t2.drop_last();
    let t0 = t1.drop_last();
    assert(t0.len() == 0);
    assert(limbs_be_nat(t0) == 0);
    assert(t1.last() == l[0] && t2.last() == l[1] && t3.last() == l[2] && l.last() == l[3]);
    assert(limbs_be_nat(t1) == (l[0] as nat));
    assert(limbs_be_nat(t2) == limbs_be_nat(t1) * 0x1_0000_0000_0000_0000 + (l[1] as nat));
    assert(limbs_be_nat(t3) == limbs_be_nat(t2) * 0x1_0000_0000_0000_0000 + (l[2] as nat));
    assert(limbs_be_nat(l) == limbs_be_nat(t3) * 0x1_0000_0000_0000_0000 + (l[3] as nat));
}

/// True exactly when the four limbs encode a non-zero value.
pub(crate) fn limbs_nonzero(l: &[u64; 4]) -> (b: bool)
    ensures
        b == (limbs_be_nat(l@) != 0),
{
    proof {
        lemma_limbs4_zero_iff(l@);
    }
    l[0] != 0 || l[1] != 0 || l[2] != 0 || l[3] != 0
}

} // verus!
