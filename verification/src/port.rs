//! Transceiver port model: the radio handle's protocol phases.
//!
//! The physical driver moves the radio between a ready state and dedicated
//! sending and receiving states, enabling interrupts on the way in and
//! running a symmetric cleanup (leave the mode, disable all interrupts) on
//! every way out. This model keeps that protocol explicit: an operation can
//! only begin on a ready port, so at most one exchange is in flight at any
//! time, and `cleanups` counts the completed cleanup sequences so callers
//! can state that cleanup ran exactly once per operation.

use vstd::prelude::*;

verus! {

/// How long the reset line is held low during a power cycle, at least.
pub const RESET_HOLD_MS: u64 = 50;

/// Phase of the transceiver handle.
#[derive(Clone, Copy, PartialEq, Eq, Structural, Debug)]
pub enum Phase {
    Ready,
    Sending,
    Receiving,
}

/// Protocol-state model of the transceiver port.
pub struct TransceiverPort {
    /// Current phase; a new operation may begin only in `Ready`.
    pub phase: Phase,
    /// Whether transmit-complete interrupts are enabled.
    pub tx_interrupts: bool,
    /// Whether data-ready interrupts are enabled.
    pub rx_interrupts: bool,
    /// How many cleanup sequences (mode exit plus interrupt disable) ran.
    pub cleanups: u64,
}

impl TransceiverPort {
    /// A freshly initialized port: ready, all interrupts off.
    pub fn new() -> (port: TransceiverPort)
        ensures
            port == (TransceiverPort {
                phase: Phase::Ready,
                tx_interrupts: false,
                rx_interrupts: false,
                cleanups: 0,
            }),
    {
        TransceiverPort { phase: Phase::Ready, tx_interrupts: false, rx_interrupts: false, cleanups: 0 }
    }

    /// Starts a transmission: disables all interrupts, enables the
    /// transmit-complete interrupt and enters sending mode. Demands a ready
    /// port — a send can never begin while a receive is in flight.
    pub fn begin_send(&mut self)
        requires
            old(self).phase is Ready,
        ensures
            *final(self) == (TransceiverPort {
                phase: Phase::Sending,
                tx_interrupts: true,
                rx_interrupts: false,
                ..*old(self)
            }),
    {
        self.tx_interrupts = true;
        self.rx_interrupts = false;
        self.phase = Phase::Sending;
    }

    /// The symmetric cleanup of a transmission, run once on every exit
    /// path: leaves sending mode and disables all interrupts.
    pub fn finish_send(&mut self)
        requires
            old(self).phase is Sending,
            old(self).cleanups < u64::MAX,
        ensures
            *final(self) == (TransceiverPort {
                phase: Phase::Ready,
                tx_interrupts: false,
                rx_interrupts: false,
                cleanups: (old(self).cleanups + 1) as u64,
            }),
    {
        self.phase = Phase::Ready;
        self.tx_interrupts = false;
        self.rx_interrupts = false;
        self.cleanups = self.cleanups + 1;
    }

    /// Starts a reception: enables data-ready interrupts and enters
    /// listening mode. Demands a ready port — a receive can never begin
    /// while a send is in flight.
    pub fn begin_receive(&mut self)
        requires
            old(self).phase is Ready,
        ensures
            *final(self) == (TransceiverPort {
                phase: Phase::Receiving,
                tx_interrupts: false,
                rx_interrupts: true,
                ..*old(self)
            }),
    {
        self.rx_interrupts = true;
        self.tx_interrupts = false;
        self.phase = Phase::Receiving;
    }

    /// The symmetric cleanup of a reception, run once on every exit path:
    /// leaves listening mode and disables all interrupts.
    pub fn finish_receive(&mut self)
        requires
            old(self).phase is Receiving,
            old(self).cleanups < u64::MAX,
        ensures
            *final(self) == (TransceiverPort {
                phase: Phase::Ready,
                tx_interrupts: false,
                rx_interrupts: false,
                cleanups: (old(self).cleanups + 1) as u64,
            }),
    {
        self.phase = Phase::Ready;
        self.tx_interrupts = false;
        self.rx_interrupts = false;
        self.cleanups = self.cleanups + 1;
    }
}

} // verus!
