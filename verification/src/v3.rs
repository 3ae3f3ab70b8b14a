use vstd::prelude::*;

verus! {

// Coordinates are carried as the IEEE-754 bit patterns of
// double-precision values, so that the editor's index and selection
// logic can be verified while the arithmetic on the coordinates stays
// with the caller.  Equality of two vectors is bit equality.

/// Bit pattern of the double `0.0`.
pub const F64_ZERO: u64 = 0x0000_0000_0000_0000;

/// Bit pattern of the double `1.0`.
pub const F64_ONE: u64 = 0x3FF0_0000_0000_0000;

/// Bit pattern of the double `-1.0`.
pub const F64_NEG_ONE: u64 = 0xBFF0_0000_0000_0000;

/// A 3-component double-precision vector; each component is the bit
/// pattern of its value.
#[derive(Debug, Clone, Copy, PartialEq, Eq, Structural)]
pub struct V3 {
    pub x: u64,
    pub y: u64,
    pub z: u64,
}

impl V3 {
    pub fn new(x: u64, y: u64, z: u64) -> (r: V3)
        ensures
            r == (V3 { x, y, z }),
    {
        V3 { x, y, z }
    }
}

} // verus!
