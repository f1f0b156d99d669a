//! The static resource bounds declared with the guest entry point.
//!
//! The proving framework consumes these ahead of time: the computation
//! must never exceed them for any input, valid or spoiled. They are
//! configuration attached to the entry point, not values the verification
//! logic reads.

use vstd::prelude::*;

verus! {

/// Upper bound on heap units available to one guest run.
pub const HEAP_SIZE: usize = 100000;

/// Upper bound on the number of execution steps one guest run may emit.
pub const MAX_TRACE_LENGTH: usize = 262144;

/// The configuration record handed to the proving framework alongside the
/// entry point.
#[derive(Clone, Copy, Debug, PartialEq, Eq, Structural)]
pub struct GuestConfig {
    pub heap_size: usize,
    pub max_trace_length: usize,
}

impl GuestConfig {
    /// The bounds declared for `secp256k1_ecdsa_verify`.
    pub fn declared() -> (c: GuestConfig)
        ensures
            c.heap_size == HEAP_SIZE,
            c.max_trace_length == MAX_TRACE_LENGTH,
    {
        GuestConfig { heap_size: HEAP_SIZE, max_trace_length: MAX_TRACE_LENGTH }
    }
}

} // verus!
