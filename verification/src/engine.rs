//! Ranging session state machine.
//!
//! Each device alternates two roles. A `Driver` sends one empty probe to
//! break an idle link, then listens again. A `Listener` waits for a packet,
//! derives a ranging sample from it when the timing guards hold, answers
//! with its own reply delay after a short settle pause, and stays a
//! listener. The roles are only a bootstrap mechanism: both peers run
//! identical logic, and a receive timeout breaks the symmetry when both
//! start out listening.

use vstd::prelude::*;

use crate::codec::decode_reply_delay;
use crate::codec::encode_reply_delay;
use crate::codec::packet_reply_delay;
use crate::codec::reply_delay_bytes;
use crate::exchange::attempt_result;
use crate::exchange::attempts_failed_before;
use crate::exchange::receive_with_timeout;
use crate::exchange::transmit_with_retry;
use crate::exchange::RxEvent;
use crate::exchange::TRANSMIT_RETRY_LIMIT;
use crate::exchange::TxAttempt;
use crate::fault::ResetRequest;
use crate::port::TransceiverPort;
use crate::queue::SAMPLE_QUEUE_CAPACITY;
use crate::queue::SampleQueue;

verus! {

/// Hardware timestamps are device-local clock readings that wrap at this
/// modulus; they are comparable only within one device's clock domain.
pub const TICK_MODULUS: u64 = 0x100_0000_0000;

/// How long a listener waits for a packet before turning driver.
pub const RECEIVE_TIMEOUT_MS: u64 = 50;

/// Pause between receiving a packet and transmitting the reply, a required
/// hardware margin. Empirically tuned; do not shrink without validation.
pub const SETTLE_DELAY_MS: u64 = 3;

/// The diagnostic exchange counter wraps, with a log line, once every this
/// many completed exchanges.
pub const EXCHANGE_LOG_PERIOD: u32 = 100;

/// Per-iteration role of the state machine; not persisted across sessions.
#[derive(Clone, Copy, PartialEq, Eq, Structural, Debug)]
pub enum Mode {
    Driver,
    Listener,
}

/// Session state of the ranging engine.
pub struct RangingState {
    /// Current role.
    pub mode: Mode,
    /// Timestamp of this device's latest reply transmission, if any.
    pub last_tx: Option<u64>,
    /// Timestamp of this device's latest packet reception, if any.
    pub last_rx: Option<u64>,
    /// Count of successful exchanges since the last wrap; diagnostic only.
    pub counter: u32,
}

/// Whether an exchange with round-trip `interval` and peer reply delay
/// `reply_delay` yields a ranging sample: the peer must have reported a
/// prior reply, and the round trip must exceed it.
pub open spec fn sample_emitted(interval: u64, reply_delay: u64) -> bool {
    reply_delay != 0 && interval > reply_delay
}

/// The raw time-of-flight estimate of one exchange: half of what remains of
/// the round-trip interval once the peer's processing delay is removed.
pub open spec fn ranging_sample(interval: u64, reply_delay: u64) -> u64
    recommends
        interval > reply_delay,
{
    (((interval - reply_delay) as u64) / 2) as u64
}

/// The diagnostic exchange counter after one more successful exchange: it
/// counts up and returns to zero once per `EXCHANGE_LOG_PERIOD` exchanges,
/// so it always stays below the period.
pub open spec fn bumped_counter(c: u32) -> u32 {
    if c + 1 < EXCHANGE_LOG_PERIOD {
        (c + 1) as u32
    } else {
        0
    }
}

/// How one listener iteration ended.
pub enum ListenerOutcome {
    /// The receive window lapsed with nothing heard: no sample, and the
    /// device turns driver to break the idle link.
    TimedOut,
    /// The receive path reported a hardware error: reset was requested.
    /// The role flips to driver like any packetless window, but recovery
    /// rebuilds the whole session before the role matters.
    ReceiveFailed,
    /// A packet was received and answered: the reply that went on the air,
    /// its transmit timestamp (the zero sentinel if retry was exhausted)
    /// and how many transmission attempts it took.
    Exchanged { reply: Vec<u8>, tx_ts: u64, attempts_made: usize },
}

/// Computes the sample of one exchange, if the guards admit one. A sample
/// is produced exactly when `reply_delay` is not the zero sentinel and the
/// interval exceeds it; it then equals `(interval - reply_delay) / 2`.
pub fn compute_sample(interval: u64, reply_delay: u64) -> (sample: Option<u64>)
    ensures
        sample is Some <==> sample_emitted(interval, reply_delay),
        sample matches Some(s) ==> s == ranging_sample(interval, reply_delay),
{
    if reply_delay != 0 && interval > reply_delay {
        Some((interval - reply_delay) / 2)
    } else {
        None
    }
}

impl RangingState {
    /// The state a session starts in and returns to after recovery.
    pub open spec fn initial() -> RangingState {
        RangingState { mode: Mode::Listener, last_tx: None, last_rx: None, counter: 0 }
    }

    /// Creates a fresh session.
    pub fn new() -> (s: RangingState)
        ensures
            s == RangingState::initial(),
    {
        RangingState { mode: Mode::Listener, last_tx: None, last_rx: None, counter: 0 }
    }

    /// The reply delay this device reports to its peer: the time between
    /// its previous receive and its latest transmit, or the `0` sentinel
    /// when no such pair exists yet.
    pub open spec fn reply_delay(self) -> u64 {
        match (self.last_tx, self.last_rx) {
            (Some(tx), Some(rx)) => if tx > rx {
                (tx - rx) as u64
            } else {
                0
            },
            _ => 0,
        }
    }

    /// Whether a packet of length `len` received at `rx_ts` yields a sample
    /// in this state: a reply of this session was sent before, the receive
    /// lies after it, the packet is long enough to carry the field, and the
    /// decoded delay passes the guards against corrupt or implausible data.
    pub open spec fn packet_emits_sample(self, packet: Seq<u8>, len: int, rx_ts: u64) -> bool {
        &&& self.last_tx matches Some(tx)
        &&& rx_ts > tx
        &&& len > 12
        &&& sample_emitted((rx_ts - tx) as u64, packet_reply_delay(packet, len))
    }

    /// The sample such a packet yields.
    pub open spec fn packet_sample(self, packet: Seq<u8>, len: int, rx_ts: u64) -> u64
        recommends
            self.packet_emits_sample(packet, len, rx_ts),
    {
        match self.last_tx {
            Some(tx) => ranging_sample((rx_ts - tx) as u64, packet_reply_delay(packet, len)),
            None => 0,
        }
    }

    /// A listener whose receive window lapsed becomes the driver; no sample
    /// is derived and the session history is kept.
    pub fn on_timeout(&mut self)
        requires
            old(self).mode is Listener,
        ensures
            *final(self) == (RangingState { mode: Mode::Driver, ..*old(self) }),
    {
        self.mode = Mode::Driver;
    }

    /// A driver that has sent its probe goes straight back to listening.
    /// The probe's own timestamp is discarded: probes never update
    /// `last_tx`, so a sample is only ever derived from a `(last_tx, rx)`
    /// pair belonging to the same session.
    pub fn on_probe_sent(&mut self)
        requires
            old(self).mode is Driver,
        ensures
            *final(self) == (RangingState { mode: Mode::Listener, ..*old(self) }),
    {
        self.mode = Mode::Listener;
    }

    /// Derives the ranging sample, if any, that a packet of `len` bytes
    /// received at `rx_ts` yields in this state.
    pub fn sample_for_packet(&self, packet: &Vec<u8>, len: usize, rx_ts: u64) -> (sample: Option<
        u64,
    >)
        requires
            len <= packet@.len(),
        ensures
            sample is Some <==> self.packet_emits_sample(packet@, len as int, rx_ts),
            sample matches Some(s) ==> s == self.packet_sample(packet@, len as int, rx_ts),
    {
        match self.last_tx {
            Some(tx) => {
                if rx_ts > tx && len > 12 {
                    let delay = decode_reply_delay(packet, len);
                    compute_sample(rx_ts - tx, delay)
                } else {
                    None
                }
            },
            None => None,
        }
    }

    /// Builds the 8-byte reply field this device embeds in its response.
    pub fn build_reply(&self) -> (payload: Vec<u8>)
        ensures
            payload@ == reply_delay_bytes(self.reply_delay()),
            payload@.len() == 8,
    {
        let delay: u64 = match (self.last_tx, self.last_rx) {
            (Some(tx), Some(rx)) => if tx > rx {
                tx - rx
            } else {
                0
            },
            _ => 0,
        };
        encode_reply_delay(delay)
    }

    /// Processes one received packet as a listener: enqueues the derived
    /// sample, when there is one, and hands back the reply payload to send
    /// once the settle delay has passed. Free queue space is owed only when
    /// the guards admit a sample — a full queue suspends the unverified
    /// producer at the push, never a packetless iteration.
    pub fn on_packet_received(
        &self,
        packet: &Vec<u8>,
        len: usize,
        rx_ts: u64,
        samples: &mut SampleQueue,
    ) -> (reply: Vec<u8>)
        requires
            self.mode is Listener,
            len <= packet@.len(),
            old(samples).well_formed(),
            self.packet_emits_sample(packet@, len as int, rx_ts) ==> old(samples)@.len()
                < SAMPLE_QUEUE_CAPACITY,
        ensures
            final(samples).well_formed(),
            self.packet_emits_sample(packet@, len as int, rx_ts) ==> final(samples)@ == old(
                samples,
            )@.push(self.packet_sample(packet@, len as int, rx_ts)),
            !self.packet_emits_sample(packet@, len as int, rx_ts) ==> final(samples)@ == old(
                samples,
            )@,
            reply@ == reply_delay_bytes(self.reply_delay()),
            reply@.len() == 8,
    {
        match self.sample_for_packet(packet, len, rx_ts) {
            Some(s) => samples.push(s),
            None => {},
        }
        self.build_reply()
    }

    /// One driver iteration: the device turns back into a listener and
    /// sends a single empty probe with bounded retry, to break an idle
    /// link. The probe's timestamp is discarded — only the session history
    /// of real replies feeds the pairing that produces samples.
    pub fn send_probe(
        &mut self,
        io: &mut TransceiverPort,
        attempts: &Vec<TxAttempt>,
        reset: &mut ResetRequest,
    ) -> (r: (u64, usize))
        requires
            old(self).mode is Driver,
            old(io).phase is Ready,
            attempts@.len() >= TRANSMIT_RETRY_LIMIT,
            old(io).cleanups + TRANSMIT_RETRY_LIMIT <= u64::MAX,
        ensures
            *final(self) == (RangingState { mode: Mode::Listener, ..*old(self) }),
            final(io).phase is Ready,
            !final(io).tx_interrupts,
            !final(io).rx_interrupts,
            final(io).cleanups == old(io).cleanups + r.1,
            1 <= r.1 <= TRANSMIT_RETRY_LIMIT,
            attempts_failed_before(attempts@, r.1 - 1),
            attempt_result(attempts@[r.1 - 1]) matches Some(ts) ==> r.0 == ts && *final(reset)
                == *old(reset),
            attempt_result(attempts@[r.1 - 1]) is None ==> r.1 == TRANSMIT_RETRY_LIMIT && r.0 == 0
                && final(reset).raised,
    {
        let r = transmit_with_retry(io, attempts, reset);
        self.on_probe_sent();
        r
    }

    /// One full listener iteration. `event` is what the race between the
    /// reception and its deadline reported; `reply_attempts` are the
    /// outcomes the transmitter answers for the reply. On a packet: the
    /// derived sample (if the guards admit one) is enqueued, the reply
    /// carrying this device's delay goes out after the settle pause with
    /// bounded retry, and the exchange is committed — even a zero-sentinel
    /// transmit timestamp is committed, as reset then rebuilds the session
    /// anyway. On a lapsed window or a receive fault: no sample, and the
    /// device turns driver.
    pub fn listener_step(
        &mut self,
        io: &mut TransceiverPort,
        event: RxEvent,
        reply_attempts: &Vec<TxAttempt>,
        samples: &mut SampleQueue,
        reset: &mut ResetRequest,
    ) -> (r: ListenerOutcome)
        requires
            old(self).mode is Listener,
            old(io).phase is Ready,
            reply_attempts@.len() >= TRANSMIT_RETRY_LIMIT,
            old(io).cleanups + 1 + TRANSMIT_RETRY_LIMIT <= u64::MAX,
            old(samples).well_formed(),
            event matches RxEvent::Delivered(p) ==> p.well_formed() && (old(
                self,
            ).packet_emits_sample(p.bytes@, p.len as int, p.timestamp) ==> old(samples)@.len()
                < SAMPLE_QUEUE_CAPACITY),
        ensures
            final(io).phase is Ready,
            !final(io).tx_interrupts,
            !final(io).rx_interrupts,
            final(samples).well_formed(),
            event is DeadlineLapsed ==> r is TimedOut && *final(self) == (RangingState {
                mode: Mode::Driver,
                ..*old(self)
            }) && final(samples)@ == old(samples)@ && *final(reset) == *old(reset)
                && final(io).cleanups == old(io).cleanups + 1,
            event is Fault ==> r is ReceiveFailed && *final(self) == (RangingState {
                mode: Mode::Driver,
                ..*old(self)
            }) && final(samples)@ == old(samples)@ && final(reset).raised && final(io).cleanups
                == old(io).cleanups + 1,
            event matches RxEvent::Delivered(p) ==> ({
                &&& r matches ListenerOutcome::Exchanged { reply, tx_ts, attempts_made }
                &&& reply@ == reply_delay_bytes(old(self).reply_delay())
                &&& 1 <= attempts_made <= TRANSMIT_RETRY_LIMIT
                &&& attempts_failed_before(reply_attempts@, attempts_made - 1)
                &&& (attempt_result(reply_attempts@[attempts_made - 1]) matches Some(ts) ==> tx_ts
                    == ts && *final(reset) == *old(reset))
                &&& (attempt_result(reply_attempts@[attempts_made - 1]) is None ==> attempts_made
                    == TRANSMIT_RETRY_LIMIT && tx_ts == 0 && final(reset).raised)
                &&& (old(self).packet_emits_sample(p.bytes@, p.len as int, p.timestamp)
                    ==> final(samples)@ == old(samples)@.push(
                    old(self).packet_sample(p.bytes@, p.len as int, p.timestamp),
                ))
                &&& (!old(self).packet_emits_sample(p.bytes@, p.len as int, p.timestamp)
                    ==> final(samples)@ == old(samples)@)
                &&& *final(self) == (RangingState {
                    mode: Mode::Listener,
                    last_tx: Some(tx_ts),
                    last_rx: Some(p.timestamp),
                    counter: bumped_counter(old(self).counter),
                })
                &&& final(io).cleanups == old(io).cleanups + 1 + attempts_made
            }),
    {
        let timed_out = matches!(event, RxEvent::DeadlineLapsed);
        match receive_with_timeout(io, event, reset) {
            Some(p) => {
                let reply = self.on_packet_received(&p.bytes, p.len, p.timestamp, samples);
                // The settle pause passes here; it does not touch state.
                let (tx_ts, attempts_made) = transmit_with_retry(io, reply_attempts, reset);
                self.commit_exchange(p.timestamp, tx_ts);
                ListenerOutcome::Exchanged { reply, tx_ts, attempts_made }
            },
            None => {
                self.mode = Mode::Driver;
                if timed_out {
                    ListenerOutcome::TimedOut
                } else {
                    ListenerOutcome::ReceiveFailed
                }
            },
        }
    }

    /// Records a completed exchange: the reply's transmit timestamp and the
    /// packet's receive timestamp become the session's latest pair, and the
    /// diagnostic counter advances. The role stays as it was.
    pub fn commit_exchange(&mut self, rx_ts: u64, tx_ts: u64)
        ensures
            *final(self) == (RangingState {
                last_tx: Some(tx_ts),
                last_rx: Some(rx_ts),
                counter: bumped_counter(old(self).counter),
                ..*old(self)
            }),
    {
        self.last_tx = Some(tx_ts);
        self.last_rx = Some(rx_ts);
        if self.counter < EXCHANGE_LOG_PERIOD - 1 {
            self.counter = self.counter + 1;
        } else {
            self.counter = 0;
        }
    }
}

} // verus!
