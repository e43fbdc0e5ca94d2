//! Status LED colors.

use vstd::prelude::*;

verus! {

/// An RGB color triple.
#[derive(Clone, Copy, PartialEq, Eq, Structural, Debug)]
pub struct Rgb {
    pub r: u8,
    pub g: u8,
    pub b: u8,
}

/// The rainbow color at a wheel position: three linear ramps that meet at
/// thirds of the wheel.
pub open spec fn wheel_color(pos: u8) -> Rgb {
    let p = (255 - pos) as u8;
    if p < 85 {
        Rgb { r: (255 - 3 * p) as u8, g: 0, b: (3 * p) as u8 }
    } else if p < 170 {
        let q = (p - 85) as u8;
        Rgb { r: 0, g: (3 * q) as u8, b: (255 - 3 * q) as u8 }
    } else {
        let q = (p - 170) as u8;
        Rgb { r: (3 * q) as u8, g: (255 - 3 * q) as u8, b: 0 }
    }
}

/// Computes the rainbow color at a wheel position.
pub fn wheel(pos: u8) -> (color: Rgb)
    ensures
        color == wheel_color(pos),
{
    let p = 255 - pos;
    if p < 85 {
        Rgb { r: 255 - 3 * p, g: 0, b: 3 * p }
    } else if p < 170 {
        let q = p - 85;
        Rgb { r: 0, g: 3 * q, b: 255 - 3 * q }
    } else {
        let q = p - 170;
        Rgb { r: 3 * q, g: 255 - 3 * q, b: 0 }
    }
}

} // verus!
