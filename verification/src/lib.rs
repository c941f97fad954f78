//! A verified core for a three-tier "data echo" storage program.
//!
//! Buffers are fixed-size byte accounts holding an optional fixed-layout
//! header followed by a payload region. Three tiers of writes exist:
//! unauthenticated echo into an all-zero buffer, authority-gated echo into a
//! buffer at a derived address, and priced echo paid for by burning tokens.

use vstd::prelude::*;

pub mod account;
pub mod buffer;
pub mod codec;
pub mod error;
pub mod pda;
pub mod processor;
pub mod seeds;
pub mod token;

verus! {

/// The least of two lengths: how many bytes an unauthenticated echo copies.
pub open spec fn min_len(a: nat, b: nat) -> nat {
    if a <= b {
        a
    } else {
        b
    }
}

} // verus!
