//! Packet-latency correlation for a relayer between two chains: timestamp
//! stores keyed by packet identity, a height watermark that drops replayed
//! events, the linkage of two handlers, and the undelivered estimates derived
//! from two independently kept counters. Every operation returns the
//! observations it owes to an instrumentation sink, in order.

use vstd::prelude::*;

pub mod estimator;
pub mod events;
pub mod gate;
pub mod handler;
pub mod laws;
pub mod metrics;
pub mod packet;
pub mod store;

verus! {

} // verus!
