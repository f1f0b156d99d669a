//! Scenario tests for the guest verification entry point, built around a
//! known-good secp256k1 ECDSA test vector (prehashed message, signature,
//! and public key), plus spoiled variants of it.

use secp256k1_guest::{secp256k1_ecdsa_verify, OutcomeSignal};

// Known-good vector: z is the prehashed message, (r, s) a valid signature
// over it under the public key (QX, QY). Limbs are big-endian.
const Z: [u64; 4] = [
    0x4b688df40bcedbe6,
    0x41ddb16ff0a1842d,
    0x9c67ea1c3bf63f3e,
    0x0471baa664531d1a,
];
const R: [u64; 4] = [
    0x241097efbf8b63bf,
    0x145c8961dbdf10c3,
    0x10efbb3b2676bbc0,
    0xf8b08505c9e2f795,
];
const S: [u64; 4] = [
    0x021006b783860933,
    0x9e8b415a7f9acb1b,
    0x661828131aef1ecb,
    0xc7955dfb01f3ca0e,
];
const QX: [u64; 4] = [
    0x779dd197a5df977e,
    0xd2cf6cb31d82d433,
    0x28b790dc6b3b7d44,
    0x37a427bd5847dfcd,
];
const QY: [u64; 4] = [
    0xe94b724a555b6d01,
    0x7bb7607c3e3281da,
    0xf5b1699d6ef41249,
    0x75c9237b917d426f,
];

// The secp256k1 group order n and base-field prime p, as big-endian limbs.
const ORDER: [u64; 4] = [
    0xffffffffffffffff,
    0xfffffffffffffffe,
    0xbaaedce6af48a03b,
    0xbfd25e8cd0364141,
];
const PRIME: [u64; 4] = [
    0xffffffffffffffff,
    0xffffffffffffffff,
    0xffffffffffffffff,
    0xfffffffefffffc2f,
];

fn point(x: [u64; 4], y: [u64; 4]) -> [u64; 8] {
    let mut q = [0u64; 8];
    q[..4].copy_from_slice(&x);
    q[4..].copy_from_slice(&y);
    q
}

// a - b over big-endian limb arrays, for a >= b.
fn sub_limbs(a: &[u64; 4], b: &[u64; 4]) -> [u64; 4] {
    let mut out = [0u64; 4];
    let mut borrow: u128 = 0;
    for i in (0..4).rev() {
        let lhs = a[i] as u128;
        let rhs = b[i] as u128 + borrow;
        if lhs >= rhs {
            out[i] = (lhs - rhs) as u64;
            borrow = 0;
        } else {
            out[i] = ((1u128 << 64) + lhs - rhs) as u64;
            borrow = 1;
        }
    }
    out
}

#[test]
fn known_good_vector_accepts() {
    let outcome = secp256k1_ecdsa_verify(Z, R, S, point(QX, QY));
    assert_eq!(outcome, OutcomeSignal::Pending);
    assert!(!outcome.is_spoiled());
}

#[test]
fn high_s_counterpart_accepts() {
    // (r, n - s) is as valid a signature as (r, s): negating s negates u1,
    // u2 and the combined point, whose x coordinate is unchanged.
    let high_s = sub_limbs(&ORDER, &S);
    let outcome = secp256k1_ecdsa_verify(Z, R, high_s, point(QX, QY));
    assert_eq!(outcome, OutcomeSignal::Pending);
}

#[test]
fn incremented_s_spoils() {
    let mut s = S;
    s[3] += 1;
    let outcome = secp256k1_ecdsa_verify(Z, R, s, point(QX, QY));
    assert_eq!(outcome, OutcomeSignal::Spoiled);
}

#[test]
fn wrong_message_spoils() {
    let mut z = Z;
    z[3] ^= 1;
    let outcome = secp256k1_ecdsa_verify(z, R, S, point(QX, QY));
    assert_eq!(outcome, OutcomeSignal::Spoiled);
}

#[test]
fn infinity_encoding_spoils() {
    let outcome = secp256k1_ecdsa_verify(Z, R, S, [0u64; 8]);
    assert_eq!(outcome, OutcomeSignal::Spoiled);
}

#[test]
fn infinity_encoding_spoils_regardless_of_signature() {
    let outcome = secp256k1_ecdsa_verify(Z, [0u64; 4], ORDER, [0u64; 8]);
    assert_eq!(outcome, OutcomeSignal::Spoiled);
}

#[test]
fn unreduced_r_spoils() {
    let outcome = secp256k1_ecdsa_verify(Z, ORDER, S, point(QX, QY));
    assert_eq!(outcome, OutcomeSignal::Spoiled);
}

#[test]
fn unreduced_s_spoils() {
    let outcome = secp256k1_ecdsa_verify(Z, R, ORDER, point(QX, QY));
    assert_eq!(outcome, OutcomeSignal::Spoiled);
}

#[test]
fn unreduced_message_hash_spoils() {
    let outcome = secp256k1_ecdsa_verify(ORDER, R, S, point(QX, QY));
    assert_eq!(outcome, OutcomeSignal::Spoiled);
}

#[test]
fn zero_r_spoils() {
    let outcome = secp256k1_ecdsa_verify(Z, [0u64; 4], S, point(QX, QY));
    assert_eq!(outcome, OutcomeSignal::Spoiled);
}

#[test]
fn zero_s_spoils() {
    let outcome = secp256k1_ecdsa_verify(Z, R, [0u64; 4], point(QX, QY));
    assert_eq!(outcome, OutcomeSignal::Spoiled);
}

#[test]
fn off_curve_point_spoils() {
    let mut qy = QY;
    qy[3] ^= 1;
    let outcome = secp256k1_ecdsa_verify(Z, R, S, point(QX, qy));
    assert_eq!(outcome, OutcomeSignal::Spoiled);
}

#[test]
fn noncanonical_coordinate_spoils() {
    let outcome = secp256k1_ecdsa_verify(Z, R, S, point(QX, PRIME));
    assert_eq!(outcome, OutcomeSignal::Spoiled);
}

#[test]
fn bit_flips_in_r_spoil() {
    for limb in 0..4 {
        for bit in [0u32, 17, 31, 46, 63] {
            let mut r = R;
            r[limb] ^= 1u64 << bit;
            let outcome = secp256k1_ecdsa_verify(Z, r, S, point(QX, QY));
            assert_eq!(outcome, OutcomeSignal::Spoiled);
        }
    }
}

#[test]
fn bit_flips_in_s_spoil() {
    for limb in 0..4 {
        for bit in [0u32, 17, 31, 46, 63] {
            let mut s = S;
            s[limb] ^= 1u64 << bit;
            let outcome = secp256k1_ecdsa_verify(Z, R, s, point(QX, QY));
            assert_eq!(outcome, OutcomeSignal::Spoiled);
        }
    }
}
