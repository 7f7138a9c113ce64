//! Scalar numbers as they cross this crate.

use vstd::prelude::*;

verus! {

/// A real number as the engine reads it: an IEEE 754 binary64 value, held by
/// its bit pattern. This crate never computes with one. It stores them, hands
/// them on, and writes down the few that serve as defaults.
#[derive(Clone, Copy, Debug, PartialEq, Eq, Structural)]
pub struct Scalar {
    pub bits: u64,
}

/// The bit pattern of 1.0.
pub const ONE: u64 = 0x3FF0_0000_0000_0000;

/// The bit pattern of 14.0.
pub const FOURTEEN: u64 = 0x402C_0000_0000_0000;

} // verus!
