//! The curve-arithmetic collaborator, reached through trusted wrappers.
//!
//! The verified library treats the secp256k1 field and group arithmetic as
//! an external collaborator offering exactly two services: construction
//! with validation of domain values from limb arrays, and the ECDSA
//! verification predicate over (scalar, scalar, scalar, point). The k256
//! crate supplies both; each wrapper below converts limbs to the byte form
//! k256 reads and states over plain values what its source shows.

use vstd::prelude::*;
use k256::{AffinePoint, FieldBytes, Scalar};
use k256::ecdsa::{Signature, VerifyingKey};
use k256::elliptic_curve::ff::PrimeField;
use k256::elliptic_curve::point::AffineCoordinates;
use k256::ecdsa::signature::hazmat::PrehashVerifier;
use crate::curve::{point_valid, scalar_canonical, signature_component_valid};
use crate::limbs::{limbs_be_nat, point_x_nat, point_y_nat};

verus! {

/// The ECDSA acceptance predicate over the decoded message hash z,
/// signature components r and s, and public-key coordinates (qx, qy): with
/// w = s^-1 mod n, u1 = z*w mod n, u2 = r*w mod n and P = u1*G + u2*Q,
/// accept exactly when P is not the point at infinity and P.x mod n == r.
/// It is a fixed function of these five values alone; `ecdsa_predicate`
/// below says how the collaborator evaluates it.
pub uninterp spec fn ecdsa_accepts(z: nat, r: nat, s: nat, qx: nat, qy: nat) -> bool;

/// Relies on k256::Scalar::from_repr (the PrimeField impl in k256's
/// arithmetic/scalar.rs): it returns a value exactly when the 32 bytes,
/// read as a big-endian integer, are strictly below the secp256k1 group
/// order.
#[verifier::external_body]
pub(crate) fn scalar_decodes(l: &[u64; 4]) -> (b: bool)
    ensures
        b == scalar_canonical(limbs_be_nat(l@)),
{
    let bytes: Vec<u8> = l.iter().flat_map(|w| w.to_be_bytes()).collect();
    let scalar: Option<Scalar> = Scalar::from_repr(bytes[..].try_into().unwrap()).into();
    scalar.is_some()
}

/// Relies on k256::AffinePoint::from_coordinates (the AffineCoordinates
/// impl in k256's arithmetic/affine.rs): it returns a point exactly when
/// both 32-byte big-endian coordinates are below the field prime and
/// satisfy y^2 = x^3 + 7; it never yields the point at infinity.
#[verifier::external_body]
pub(crate) fn point_decodes(l: &[u64; 8]) -> (b: bool)
    ensures
        b == point_valid(point_x_nat(l@), point_y_nat(l@)),
{
    let bytes: Vec<u8> = l.iter().flat_map(|w| w.to_be_bytes()).collect();
    let x: FieldBytes = bytes[..32].try_into().unwrap();
    let y: FieldBytes = bytes[32..].try_into().unwrap();
    let point: Option<AffinePoint> = AffinePoint::from_coordinates(&x, &y).into();
    point.is_some()
}

/// Relies on ecdsa::hazmat::verify_prehashed, reached through
/// k256::ecdsa::VerifyingKey::verify_prehash, to evaluate the acceptance
/// predicate; on k256::AffinePoint::from_coordinates and
/// VerifyingKey::from_affine to rebuild the already-validated public key
/// (never the identity, so neither fails); and on Signature::from_slice,
/// which accepts exactly the r and s admitted here: canonical and
/// non-zero.
///
/// k256 configures verify_prehashed to refuse any s above n/2 before it
/// evaluates the equation, so the parsed signature is first passed through
/// Signature::normalize_s, which replaces such an s by n - s and leaves a
/// low s unchanged. Under the ECDSA equation (r, s) and (r, n - s) accept
/// together - negating s negates u1, u2 and P, and x(P) is unchanged - so
/// the call evaluates the acceptance predicate at the original values.
#[verifier::external_body]
pub(crate) fn ecdsa_predicate(z: &[u64; 4], r: &[u64; 4], s: &[u64; 4], q: &[u64; 8]) -> (b: bool)
    requires
        scalar_canonical(limbs_be_nat(z@)),
        signature_component_valid(limbs_be_nat(r@)),
        signature_component_valid(limbs_be_nat(s@)),
        point_valid(point_x_nat(q@), point_y_nat(q@)),
    ensures
        b == ecdsa_accepts(
            limbs_be_nat(z@),
            limbs_be_nat(r@),
            limbs_be_nat(s@),
            point_x_nat(q@),
            point_y_nat(q@),
        ),
{
    let b: Vec<u8> = z.iter().chain(r.iter()).chain(s.iter()).chain(q.iter()).flat_map(
        |w| w.to_be_bytes(),
    ).collect();
    let x: FieldBytes = b[96..128].try_into().unwrap();
    let y: FieldBytes = b[128..].try_into().unwrap();
    let point: Option<AffinePoint> = AffinePoint::from_coordinates(&x, &y).into();
    let key = VerifyingKey::from_affine(point.unwrap()).unwrap();
    key.verify_prehash(&b[..32], &Signature::from_slice(&b[32..96]).unwrap().normalize_s()).is_ok()
}

} // verus!
