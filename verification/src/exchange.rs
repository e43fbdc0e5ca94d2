//! Exchange primitives: transmit-with-wait and receive-with-wait, each with
//! interrupt-driven suspension, bounded retry and symmetric cleanup.
//!
//! Every hardware operation follows the same shape: poll once, suspend on
//! the interrupt if the operation is still pending, poll once more. What
//! the polls reported — and which branch of the receive/deadline race won —
//! enters these functions as arguments, so the protocol's decisions are
//! verified for every outcome the hardware can produce.

use vstd::prelude::*;

use crate::fault::ResetRequest;
use crate::port::TransceiverPort;

verus! {

/// Number of transmission attempts made before the session is abandoned.
pub const TRANSMIT_RETRY_LIMIT: usize = 10;

/// Size of the receive buffer: packets arrive at most this long.
pub const MAX_PACKET_LEN: usize = 128;

/// What one poll of a pending transmission reports: a completion timestamp,
/// still pending, or an explicit hardware error.
#[derive(Clone, Copy, PartialEq, Eq, Structural, Debug)]
pub enum TxPoll {
    Sent(u64),
    Pending,
    Fault,
}

/// The polls the hardware answers during one transmission attempt: the
/// synchronous one, and the one after the transmit-complete interrupt.
#[derive(Clone, Copy, PartialEq, Eq, Structural, Debug)]
pub struct TxAttempt {
    pub first: TxPoll,
    pub second: TxPoll,
}

/// A packet delivered by the radio: its buffer, the valid length, the
/// receive timestamp and the link quality indicator.
pub struct ReceivedPacket {
    pub bytes: Vec<u8>,
    pub len: usize,
    pub timestamp: u64,
    pub quality: u8,
}

impl ReceivedPacket {
    /// The valid length never exceeds the buffer.
    pub open spec fn well_formed(self) -> bool {
        self.len <= self.bytes@.len()
    }
}

/// What one poll of a pending reception reports.
pub enum RxPoll {
    Ready(ReceivedPacket),
    Pending,
    Fault,
}

/// An explicit receive-path hardware error; it escalates to session reset.
#[derive(Clone, Copy, PartialEq, Eq, Structural, Debug)]
pub struct ReceiveFault;

/// What the race between one reception and the deadline timer reported.
pub enum RxEvent {
    Delivered(ReceivedPacket),
    Fault,
    DeadlineLapsed,
}

/// The timestamp one transmission attempt yields: the synchronous report
/// if it settled at once, otherwise the post-interrupt report. A hardware
/// error, or an attempt still pending after its interrupt, yields nothing.
pub open spec fn transmit_result(first: TxPoll, second: TxPoll) -> Option<u64> {
    match first {
        TxPoll::Sent(ts) => Some(ts),
        TxPoll::Fault => None,
        TxPoll::Pending => match second {
            TxPoll::Sent(ts) => Some(ts),
            _ => None,
        },
    }
}

/// The timestamp attempt `a` yields.
pub open spec fn attempt_result(a: TxAttempt) -> Option<u64> {
    transmit_result(a.first, a.second)
}

/// Whether every transmission attempt in `s` before index `n` failed.
pub open spec fn attempts_failed_before(s: Seq<TxAttempt>, n: int) -> bool {
    forall|i: int| 0 <= i < n ==> attempt_result(#[trigger] s[i]) is None
}

/// One transmission attempt. `first` is what the pending send reported
/// synchronously; `second` is what it reported after the transmit-complete
/// interrupt, consulted only when the first poll was still pending. On
/// every exit path the port leaves sending mode and disables interrupts,
/// exactly once. A hardware error yields nothing, which signals "retry".
pub fn transmit_once(port: &mut TransceiverPort, first: TxPoll, second: TxPoll) -> (r: Option<u64>)
    requires
        old(port).phase is Ready,
        old(port).cleanups < u64::MAX,
    ensures
        final(port).phase is Ready,
        !final(port).tx_interrupts,
        !final(port).rx_interrupts,
        final(port).cleanups == old(port).cleanups + 1,
        r == transmit_result(first, second),
{
    port.begin_send();
    let response = match first {
        TxPoll::Sent(ts) => Some(ts),
        TxPoll::Fault => None,
        TxPoll::Pending => match second {
            TxPoll::Sent(ts) => Some(ts),
            _ => None,
        },
    };
    port.finish_send();
    response
}

/// Transmission with bounded retry: up to 10 silent retries of
/// `transmit_once` against successive attempt outcomes. The first success
/// ends the loop with its timestamp and the number of attempts made. After
/// the 10th consecutive failure the reset flag is raised and the
/// zero-timestamp sentinel is returned; callers must treat that sentinel as
/// "abandon, do not measure", never as data.
pub fn transmit_with_retry(
    port: &mut TransceiverPort,
    attempts: &Vec<TxAttempt>,
    reset: &mut ResetRequest,
) -> (r: (u64, usize))
    requires
        old(port).phase is Ready,
        attempts@.len() >= TRANSMIT_RETRY_LIMIT,
        old(port).cleanups + TRANSMIT_RETRY_LIMIT <= u64::MAX,
    ensures
        final(port).phase is Ready,
        !final(port).tx_interrupts,
        !final(port).rx_interrupts,
        final(port).cleanups == old(port).cleanups + r.1,
        1 <= r.1 <= TRANSMIT_RETRY_LIMIT,
        attempts_failed_before(attempts@, r.1 - 1),
        attempt_result(attempts@[r.1 - 1]) matches Some(ts) ==> r.0 == ts && *final(reset) == *old(
            reset,
        ),
        attempt_result(attempts@[r.1 - 1]) is None ==> r.1 == TRANSMIT_RETRY_LIMIT && r.0 == 0
            && final(reset).raised,
{
    let mut i: usize = 0;
    while i < TRANSMIT_RETRY_LIMIT
        invariant
            i <= TRANSMIT_RETRY_LIMIT,
            attempts@.len() >= TRANSMIT_RETRY_LIMIT,
            port.phase is Ready,
            i > 0 ==> !port.tx_interrupts && !port.rx_interrupts,
            port.cleanups == old(port).cleanups + i,
            old(port).cleanups + TRANSMIT_RETRY_LIMIT <= u64::MAX,
            attempts_failed_before(attempts@, i as int),
            *reset == *old(reset),
        decreases TRANSMIT_RETRY_LIMIT - i,
    {
        let a = attempts[i];
        match transmit_once(port, a.first, a.second) {
            Some(ts) => {
                return (ts, i + 1);
            },
            None => {
                i = i + 1;
            },
        }
    }
    reset.raise();
    (0, TRANSMIT_RETRY_LIMIT)
}

/// The packet or error one reception yields from its two polls: the
/// synchronous report if it settled at once, otherwise the report after
/// the data-ready interrupt. Explicit hardware errors propagate.
pub open spec fn receive_result(first: RxPoll, second: RxPoll) -> Result<
    ReceivedPacket,
    ReceiveFault,
> {
    match first {
        RxPoll::Ready(p) => Ok(p),
        RxPoll::Fault => Err(ReceiveFault),
        RxPoll::Pending => match second {
            RxPoll::Ready(p) => Ok(p),
            _ => Err(ReceiveFault),
        },
    }
}

/// One reception. `first` is what the pending receive reported
/// synchronously; `second` is what it reported after the data-ready
/// interrupt, consulted only when the first poll was still pending. After
/// its interrupt the hardware has settled, so two pending polls cannot
/// occur.
pub fn receive_once(first: RxPoll, second: RxPoll) -> (r: Result<ReceivedPacket, ReceiveFault>)
    requires
        !(first is Pending && second is Pending),
    ensures
        r == receive_result(first, second),
{
    match first {
        RxPoll::Ready(p) => Ok(p),
        RxPoll::Fault => Err(ReceiveFault),
        RxPoll::Pending => match second {
            RxPoll::Ready(p) => Ok(p),
            _ => Err(ReceiveFault),
        },
    }
}

/// Reception with a deadline. The port enters listening mode, the caller
/// races one reception against the deadline timer, and `event` is what the
/// race reported. On every path — packet, fault or deadline — the port
/// leaves listening mode and disables interrupts exactly once before the
/// result is returned. A lapsed deadline is expected control flow, not an
/// error, and yields nothing; a hardware fault raises the reset flag and
/// yields nothing.
pub fn receive_with_timeout(
    port: &mut TransceiverPort,
    event: RxEvent,
    reset: &mut ResetRequest,
) -> (r: Option<ReceivedPacket>)
    requires
        old(port).phase is Ready,
        old(port).cleanups < u64::MAX,
    ensures
        final(port).phase is Ready,
        !final(port).tx_interrupts,
        !final(port).rx_interrupts,
        final(port).cleanups == old(port).cleanups + 1,
        event matches RxEvent::Delivered(p) ==> r == Some(p) && *final(reset) == *old(reset),
        event is Fault ==> r is None && final(reset).raised,
        event is DeadlineLapsed ==> r is None && *final(reset) == *old(reset),
{
    port.begin_receive();
    port.finish_receive();
    match event {
        RxEvent::Delivered(p) => Some(p),
        RxEvent::Fault => {
            reset.raise();
            None
        },
        RxEvent::DeadlineLapsed => None,
    }
}

} // verus!
