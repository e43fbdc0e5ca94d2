//! Distance coordination: windowed averaging of ranging samples.
//!
//! The consumer drains the sample queue and reports the mean of every full
//! window of five samples. The sample that arrives at a full window is
//! spent on flushing it and is not itself recorded.

use vstd::prelude::*;

verus! {

/// Width of the averaging window.
pub const AVERAGE_WINDOW: usize = 5;

/// Sum of a sequence of samples.
pub open spec fn sum_of(s: Seq<u64>) -> int
    decreases s.len(),
{
    if s.len() == 0 {
        0
    } else {
        sum_of(s.drop_last()) + s.last()
    }
}

/// The mean a full window reports.
pub open spec fn window_average(s: Seq<u64>) -> u64
    recommends
        s.len() == AVERAGE_WINDOW,
{
    (sum_of(s) / (AVERAGE_WINDOW as int)) as u64
}

/// The delay before the next keep-alive broadcast: the drawn random value's
/// remainder by the period, so the wait lands anywhere in `[0, range)`. The
/// period is never zero.
pub fn random_timeout_offset(drawn: u32, range: u32) -> (offset: u32)
    requires
        range > 0,
    ensures
        offset == drawn % range,
        offset < range,
{
    drawn % range
}

/// Windowed averager of ranging samples.
pub struct DistanceAverager {
    window: Vec<u64>,
}

impl View for DistanceAverager {
    type V = Seq<u64>;

    closed spec fn view(&self) -> Seq<u64> {
        self.window@
    }
}

impl DistanceAverager {
    /// The pending window never exceeds its width.
    pub closed spec fn well_formed(self) -> bool {
        self.window@.len() <= AVERAGE_WINDOW
    }

    /// Creates an averager with an empty window.
    pub fn new() -> (a: DistanceAverager)
        ensures
            a@ == Seq::<u64>::empty(),
            a.well_formed(),
    {
        DistanceAverager { window: Vec::new() }
    }

    /// Feeds one sample. While the window is filling, the sample is
    /// recorded and nothing is reported; a sample arriving at a full window
    /// is dropped, and the window's mean is reported and the window
    /// cleared.
    pub fn observe(&mut self, distance: u64) -> (report: Option<u64>)
        requires
            old(self).well_formed(),
        ensures
            final(self).well_formed(),
            old(self)@.len() < AVERAGE_WINDOW ==> report is None && final(self)@ == old(
                self,
            )@.push(distance),
            old(self)@.len() == AVERAGE_WINDOW ==> report == Some(window_average(old(self)@))
                && final(self)@ == Seq::<u64>::empty(),
    {
        if self.window.len() < AVERAGE_WINDOW {
            self.window.push(distance);
            None
        } else {
            let ghost w = self.window@;
            let mut total: u128 = 0;
            let mut i: usize = 0;
            while i < AVERAGE_WINDOW
                invariant
                    self.window@ == w,
                    w.len() == AVERAGE_WINDOW,
                    i <= AVERAGE_WINDOW,
                    total == sum_of(w.take(i as int)),
                    total <= i * (u64::MAX as int),
                decreases AVERAGE_WINDOW - i,
            {
                proof {
                    assert(w.take(i + 1).drop_last() =~= w.take(i as int));
                }
                total = total + (self.window[i] as u128);
                i = i + 1;
            }
            proof {
                assert(w.take(AVERAGE_WINDOW as int) =~= w);
            }
            self.window.clear();
            Some((total / (AVERAGE_WINDOW as u128)) as u64)
        }
    }
}

} // verus!
