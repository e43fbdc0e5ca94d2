//! Fault recovery: the sticky reset flag and the session teardown.
//!
//! Some transceiver faults require a whole-chip power cycle. Any failure
//! detector raises the level-triggered reset flag; before every state
//! machine iteration the recovery controller checks it, and when it is
//! raised, clears it, abandons the session and re-runs the power-cycle and
//! initialization sequence. This is the only teardown/rebuild path.

use vstd::prelude::*;

use crate::engine::Mode;
use crate::engine::RangingState;

verus! {

/// Level-triggered reset flag: raised by any failure detector, cleared only
/// by the recovery controller after acting.
pub struct ResetRequest {
    /// Whether a reset has been requested and not yet acted on.
    pub raised: bool,
}

impl ResetRequest {
    /// Creates a lowered flag.
    pub fn new() -> (flag: ResetRequest)
        ensures
            !flag.raised,
    {
        ResetRequest { raised: false }
    }

    /// Raises the flag; it stays raised until recovery clears it.
    pub fn raise(&mut self)
        ensures
            final(self).raised,
    {
        self.raised = true;
    }

    /// Whether the flag is raised.
    pub fn is_raised(&self) -> (r: bool)
        ensures
            r == self.raised,
    {
        self.raised
    }

    /// Lowers the flag.
    pub fn clear(&mut self)
        ensures
            !final(self).raised,
    {
        self.raised = false;
    }
}

/// The session state recovery yields, whatever state it found.
pub open spec fn recovered_state(s: RangingState) -> RangingState {
    RangingState::initial()
}

/// Acts on the reset flag: lowers it and abandons the session, returning
/// the state machine to its initial configuration. The caller then re-runs
/// the transceiver power-cycle and initialization before resuming.
pub fn recover(state: &mut RangingState, reset: &mut ResetRequest)
    ensures
        *final(state) == recovered_state(*old(state)),
        *final(state) == RangingState::initial(),
        !final(reset).raised,
{
    reset.clear();
    state.mode = Mode::Listener;
    state.last_tx = None;
    state.last_rx = None;
    state.counter = 0;
}

/// Recovery is idempotent: invoking the sequence repeatedly always yields
/// the same result, a listener with no timestamp pair and a zero counter.
pub proof fn lemma_recovery_idempotent(s: RangingState)
    ensures
        recovered_state(recovered_state(s)) == recovered_state(s),
        recovered_state(s).mode is Listener,
        recovered_state(s).last_tx is None,
        recovered_state(s).last_rx is None,
        recovered_state(s).counter == 0,
{
}

} // verus!
