//! The guest computation: decode the four limb arrays, evaluate the ECDSA
//! verification predicate, and fold every failure into the outcome signal
//! so that the run always terminates in a well-defined state.

use vstd::prelude::*;
use crate::curve::{point_valid, scalar_canonical, signature_component_valid};
use crate::curve_ops::{ecdsa_accepts, ecdsa_predicate, point_decodes, scalar_decodes};
use crate::limbs::{limbs_be_nat, limbs_nonzero, point_x_nat, point_y_nat};
use crate::outcome::OutcomeSignal;

verus! {

/// The terminal signal a run must end in, as a function of the numeric
/// values carried by the four limb arrays: the run stays pending exactly
/// when the message hash is canonical, both signature components lie in
/// [1, n - 1], the public key is a valid curve point, and the ECDSA
/// acceptance predicate holds.
pub open spec fn verdict(z: nat, r: nat, s: nat, qx: nat, qy: nat) -> OutcomeSignal {
    if scalar_canonical(z) && signature_component_valid(r) && signature_component_valid(s)
        && point_valid(qx, qy) && ecdsa_accepts(z, r, s, qx, qy) {
        OutcomeSignal::Pending
    } else {
        OutcomeSignal::Spoiled
    }
}

/// Verify one ECDSA signature: message hash `z`, signature `(r, s)`, and
/// public key `q` (x then y), each group of limbs big-endian.
///
/// Decoding failures and verifier rejection never abort; each is folded
/// into the returned signal, which is the single observable of the run.
/// The verifier step itself executes only on validated values; whenever it
/// is skipped the signal is already spoiled or is spoiled in its place, so
/// the run still reaches its terminal state.
pub fn secp256k1_ecdsa_verify(z: [u64; 4], r: [u64; 4], s: [u64; 4], q: [u64; 8]) -> (outcome:
    OutcomeSignal)
    ensures
        outcome == verdict(
            limbs_be_nat(z@),
            limbs_be_nat(r@),
            limbs_be_nat(s@),
            point_x_nat(q@),
            point_y_nat(q@),
        ),
{
    let mut signal = OutcomeSignal::new();
    let z_ok = scalar_decodes(&z);
    signal.absorb(z_ok);
    let r_ok = scalar_decodes(&r);
    signal.absorb(r_ok);
    let s_ok = scalar_decodes(&s);
    signal.absorb(s_ok);
    let q_ok = point_decodes(&q);
    signal.absorb(q_ok);
    let r_nonzero = limbs_nonzero(&r);
    let s_nonzero = limbs_nonzero(&s);
    if z_ok && r_ok && s_ok && q_ok && r_nonzero && s_nonzero {
        let accepted = ecdsa_predicate(&z, &r, &s, &q);
        signal.absorb(accepted);
    } else {
        signal.spoil();
    }
    signal
}

/// Every run on well-formed inputs carrying a mathematically valid
/// signature - one the ECDSA acceptance predicate holds of - ends with the
/// signal still pending: the only path to an accepting proof.
pub proof fn lemma_accepting_run_not_spoiled(z: nat, r: nat, s: nat, qx: nat, qy: nat)
    ensures
        (scalar_canonical(z) && signature_component_valid(r) && signature_component_valid(s)
            && point_valid(qx, qy) && ecdsa_accepts(z, r, s, qx, qy)) ==> verdict(z, r, s, qx, qy)
            == OutcomeSignal::Pending,
{
}

/// A signature component not reduced modulo the group order spoils the
/// run, whatever the other inputs hold.
pub proof fn lemma_unreduced_component_spoils(z: nat, r: nat, s: nat, qx: nat, qy: nat)
    ensures
        (r >= crate::curve::group_order() || s >= crate::curve::group_order()) ==> verdict(
            z,
            r,
            s,
            qx,
            qy,
        ) == OutcomeSignal::Spoiled,
{
}

/// A zero signature component spoils the run: the verifier rejects it even
/// though the decoder accepts the canonical value zero.
pub proof fn lemma_zero_component_spoils(z: nat, r: nat, s: nat, qx: nat, qy: nat)
    ensures
        (r == 0 || s == 0) ==> verdict(z, r, s, qx, qy) == OutcomeSignal::Spoiled,
{
}

/// A public key that is no valid curve point spoils the run regardless of
/// z, r and s; the encoded point at infinity is one such key.
pub proof fn lemma_invalid_point_spoils(z: nat, r: nat, s: nat, qx: nat, qy: nat)
    ensures
        !point_valid(qx, qy) ==> verdict(z, r, s, qx, qy) == OutcomeSignal::Spoiled,
{
}

/// The all-zero limb encoding, the conventional stand-in for the point at
/// infinity, is no valid point: it fails the curve equation, so by
/// `lemma_invalid_point_spoils` it spoils every run it appears in.
pub proof fn lemma_infinity_encoding_spoils(z: nat, r: nat, s: nat)
    ensures
        verdict(z, r, s, 0, 0) == OutcomeSignal::Spoiled,
{
    assert((0 * 0) % crate::curve::field_prime() == 0) by (nonlinear_arith);
    assert(!point_valid(0, 0));
}

} // verus!
