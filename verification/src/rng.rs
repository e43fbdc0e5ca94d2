//! Random number source backed by the radio stack.
//!
//! The entropy itself comes from the stack outside the core; this type is
//! the shared handle the tasks request numbers through.

use vstd::prelude::*;

verus! {

/// Handle to the radio stack's random number generator.
#[derive(Clone, Copy, Debug)]
pub struct SoftdeviceRng {}

impl SoftdeviceRng {
    /// Creates the handle.
    pub fn new() -> (rng: SoftdeviceRng)
        ensures
            rng == (SoftdeviceRng {  }),
    {
        SoftdeviceRng {  }
    }
}

} // verus!
