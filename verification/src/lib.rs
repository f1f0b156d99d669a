//! ECDSA signature verification over secp256k1, written as a zkVM guest
//! computation: every failure mode (malformed scalar, malformed point,
//! rejected signature) is folded into a single monotonic "spoiled" outcome
//! signal instead of an abort, so that a run always completes and yields a
//! trace of fixed shape that can never verify as an accepting proof.

pub mod config;
pub mod curve;
pub mod curve_ops;
pub mod limbs;
pub mod outcome;
pub mod verify;

pub use config::GuestConfig;
pub use outcome::OutcomeSignal;
pub use verify::secp256k1_ecdsa_verify;
