//! Color conversion.
use vstd::prelude::*;
use crate::util::{rgb24_spec, BitField};

verus! {

/// RGB15 -> RGB24 conversion: each 5-bit component becomes the top bits
/// of an 8-bit component.
pub fn RGB(a: u16) -> (r: u32)
    ensures
        r == rgb24_spec(a),
{
    let red = a.bits(4, 0) << 19u32;
    let green = a.bits(9, 5) << 11u32;
    let blue = a.bits(14, 10) << 3u32;
    red | green | blue
}

} // verus!
