//! Floating-point values as the builders carry them.
//!
//! The builders never compute with a floating-point value: they store it and
//! hand it to the document unchanged. A value is therefore held as its
//! IEEE 754 bit pattern, which callers obtain from and turn back into a native
//! floating-point number at the edge of the library.

use vstd::prelude::*;

verus! {

/// A binary64 number, held as its IEEE 754 bit pattern.
#[derive(Clone, Copy, Debug, PartialEq, Eq, Structural)]
pub struct Float64 {
    bits: u64,
}

impl Float64 {
    /// The bit pattern this number was made from.
    pub closed spec fn bits(self) -> u64 {
        self.bits
    }

    /// The number with the given bit pattern.
    pub fn from_bits(bits: u64) -> (r: Self)
        ensures
            r.bits() == bits,
    {
        Float64 { bits }
    }

    /// The number's bit pattern.
    pub fn to_bits(self) -> (bits: u64)
        ensures
            bits == self.bits(),
    {
        self.bits
    }

    /// Two numbers with the same bit pattern are the same number.
    pub proof fn lemma_bits_injective(a: Self, b: Self)
        requires
            a.bits() == b.bits(),
        ensures
            a == b,
    {
    }
}

/// A binary32 number, held as its IEEE 754 bit pattern.
#[derive(Clone, Copy, Debug, PartialEq, Eq, Structural)]
pub struct Float32 {
    bits: u32,
}

impl Float32 {
    /// The bit pattern this number was made from.
    pub closed spec fn bits(self) -> u32 {
        self.bits
    }

    /// The number with the given bit pattern.
    pub fn from_bits(bits: u32) -> (r: Self)
        ensures
            r.bits() == bits,
    {
        Float32 { bits }
    }

    /// The number's bit pattern.
    pub fn to_bits(self) -> (bits: u32)
        ensures
            bits == self.bits(),
    {
        self.bits
    }

    /// Two numbers with the same bit pattern are the same number.
    pub proof fn lemma_bits_injective(a: Self, b: Self)
        requires
            a.bits() == b.bits(),
        ensures
            a == b,
    {
    }
}

} // verus!
