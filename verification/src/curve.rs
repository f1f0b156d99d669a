//! The secp256k1 domain constants and validity predicates that decoding
//! checks: scalars must lie below the group order, points must satisfy the
//! curve equation y^2 = x^3 + 7 over the base field.

use vstd::prelude::*;

verus! {

/// The secp256k1 group order n: the modulus bounding valid scalars.
pub open spec fn group_order() -> nat {
    0xFFFFFFFF_FFFFFFFF_FFFFFFFF_FFFFFFFE_BAAEDCE6_AF48A03B_BFD25E8C_D0364141nat
}

/// The secp256k1 base-field prime p, over which point coordinates live.
pub open spec fn field_prime() -> nat {
    0xFFFFFFFF_FFFFFFFF_FFFFFFFF_FFFFFFFF_FFFFFFFF_FFFFFFFF_FFFFFFFE_FFFFFC2Fnat
}

/// A limb-decoded scalar is accepted by the decoder exactly when its value
/// is strictly below the group order.
pub open spec fn scalar_canonical(v: nat) -> bool {
    v < group_order()
}

/// A signature component is valid for verification when it lies in
/// [1, n - 1]: canonical and non-zero.
pub open spec fn signature_component_valid(v: nat) -> bool {
    1 <= v && v < group_order()
}

/// A decoded public key is accepted exactly when both coordinates are
/// canonical field elements and the affine point (x, y) satisfies the curve
/// equation. The point at infinity has no such coordinate form; in
/// particular the all-zero encoding fails the equation (0 != 7 mod p) and
/// is rejected.
pub open spec fn point_valid(x: nat, y: nat) -> bool {
    &&& x < field_prime()
    &&& y < field_prime()
    &&& (y * y) % field_prime() == (x * x * x + 7) % field_prime()
}

} // verus!
