//! One tracked point of a detected feature.

use vstd::prelude::*;

verus! {

/// A tracked point: position, depth, visibility and presence confidence.
///
/// Each field holds the IEEE 754 single-precision bit pattern of its value.
/// The core only moves landmarks from the engine's buffer into the nested
/// result and never computes with them, so keeping the bits is exact: a
/// landmark that went through the decoder is bit for bit the one that the
/// engine wrote.
#[derive(Debug, Clone, Copy, PartialEq, Eq, Hash, Structural)]
pub struct Landmark {
    pub x: u32,
    pub y: u32,
    pub z: u32,
    pub visibility: u32,
    pub presence: u32,
}

impl Landmark {
    /// The landmark whose five fields are all positive zero.
    pub open spec fn zero() -> Landmark {
        Landmark { x: 0, y: 0, z: 0, visibility: 0, presence: 0 }
    }

    /// Builds a landmark from the bit patterns of its five fields.
    pub fn from_bits(x: u32, y: u32, z: u32, visibility: u32, presence: u32) -> (l: Landmark)
        ensures
            l == (Landmark { x, y, z, visibility, presence }),
    {
        Landmark { x, y, z, visibility, presence }
    }
}

impl Default for Landmark {
    fn default() -> (l: Landmark)
        ensures
            l == Landmark::zero(),
    {
        Landmark { x: 0, y: 0, z: 0, visibility: 0, presence: 0 }
    }
}

impl DeepView for Landmark {
    type V = Landmark;

    open spec fn deep_view(&self) -> Landmark {
        *self
    }
}

} // verus!
