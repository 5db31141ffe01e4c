//! The sampling temperature of a request.

use vstd::prelude::*;

verus! {

/// A sampling temperature, held as the bit pattern of the single-precision
/// number that the caller chose.
///
/// The library never computes with a temperature: it carries the value from
/// the caller's options into requests, queries and store rows, bit for bit.
#[derive(Clone, Copy, PartialEq, Eq, Structural, Debug)]
pub struct Temperature {
    pub bits: u32,
}

impl Temperature {
    /// The temperature with the given bit pattern.
    pub fn from_bits(bits: u32) -> (t: Temperature)
        ensures
            t.bits == bits,
    {
        Temperature { bits }
    }

    /// The bit pattern of the temperature.
    pub fn to_bits(&self) -> (bits: u32)
        ensures
            bits == self.bits,
    {
        self.bits
    }
}

} // verus!
