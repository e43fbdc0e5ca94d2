//! Core logic of a two-device ultra-wideband ranging engine.
//!
//! Two peers alternate transmit/receive cycles, exchange each side's
//! internal processing delay over the air, and derive raw time-of-flight
//! samples from round-trip timing, with bounded retry and whole-transceiver
//! fault recovery. This crate holds the protocol decisions, the wire codec,
//! the session state machine and the supporting peripheral rules; the
//! hardware itself is driven by a host around the library.

pub mod battery;
pub mod beacon;
pub mod codec;
pub mod color;
pub mod console;
pub mod coord;
pub mod engine;
pub mod exchange;
pub mod fault;
pub mod haptics;
pub mod port;
pub mod queue;
pub mod rng;
