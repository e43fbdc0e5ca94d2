//! Battery charge readings.
//!
//! The analog converter periodically hands over a raw 12-bit reading of
//! half the battery voltage against a 2.4 V reference. Conversions to volts
//! or to a charge ratio are floating-point display concerns done by the
//! host around the core.

use vstd::prelude::*;

verus! {

/// One raw battery reading from the analog converter.
#[derive(Clone, Copy, Debug)]
pub struct BatteryCharge(i16);

impl BatteryCharge {
    /// The raw converter reading this charge wraps.
    pub closed spec fn spec_raw(self) -> i16 {
        self.0
    }

    /// Wraps a raw converter reading.
    pub fn new(raw: i16) -> (charge: BatteryCharge)
        ensures
            charge.spec_raw() == raw,
    {
        BatteryCharge(raw)
    }

    /// The raw converter reading.
    pub fn raw(&self) -> (r: i16)
        ensures
            r == self.spec_raw(),
    {
        self.0
    }
}

} // verus!
