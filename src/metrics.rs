use vstd::prelude::*;
use crate::packet::PacketId;

verus! {

/// Monotonic counters of the instrumentation sink.
#[derive(Clone, Copy, Debug, PartialEq, Eq, Structural)]
pub enum CounterKind {
    ReceivedSendPackets,
    ReceivedReceivePackets,
    ReceivedAcknowledgePackets,
    ReceivedTimeouts,
    SentPackets,
    SentAcknowledgments,
    SentTimeoutPackets,
}

/// Gauges of the instrumentation sink, set to absolute values.
#[derive(Clone, Copy, Debug, PartialEq, Eq, Structural)]
pub enum GaugeKind {
    UndeliveredPackets,
    UndeliveredAcknowledgements,
    LatestProcessedHeight,
}

/// Histograms of the instrumentation sink.
#[derive(Clone, Copy, Debug, PartialEq, Eq, Structural)]
pub enum HistogramKind {
    SentPacketTime,
    SentAcknowledgmentTime,
    SentTimeoutPacketTime,
    SentUpdateClientTime,
    GasCostForSentTxBundle,
    TransactionLengthForSentTxBundle,
}

/// Which of a handler's three timestamp stores.
#[derive(Clone, Copy, Debug, PartialEq, Eq, Structural)]
pub enum SentKind {
    Packet,
    Acknowledgment,
    TimeoutPacket,
}

/// The histogram that latencies correlated against a store go to.
pub open spec fn latency_histogram(kind: SentKind) -> HistogramKind {
    match kind {
        SentKind::Packet => HistogramKind::SentPacketTime,
        SentKind::Acknowledgment => HistogramKind::SentAcknowledgmentTime,
        SentKind::TimeoutPacket => HistogramKind::SentTimeoutPacketTime,
    }
}

pub fn histogram_for(kind: SentKind) -> (r: HistogramKind)
    ensures
        r == latency_histogram(kind),
{
    match kind {
        SentKind::Packet => HistogramKind::SentPacketTime,
        SentKind::Acknowledgment => HistogramKind::SentAcknowledgmentTime,
        SentKind::TimeoutPacket => HistogramKind::SentTimeoutPacketTime,
    }
}

/// One call against the instrumentation sink, in the order it is owed.
#[derive(Debug)]
pub enum Observation {
    /// Increment a counter by one.
    Increment(CounterKind),
    /// Set a gauge to a value.
    SetGauge(GaugeKind, u64),
    /// Observe one histogram sample (milliseconds for the timing histograms).
    Sample(HistogramKind, u64),
    /// A confirmation whose send time was not found: a warning, nothing observed.
    MissingSendTime(SentKind, PacketId),
    /// Client-height bookkeeping after a client update.
    ClientHeight { client_id: String, revision_number: u64, revision_height: u64 },
}

/// The counts a handler keeps, mirrored into the sink's counters and gauges.
#[derive(Clone, Copy, Debug, PartialEq, Eq, Structural)]
pub struct Counts {
    pub received_send_packets: u64,
    pub received_receive_packets: u64,
    pub received_acknowledge_packets: u64,
    pub received_timeouts: u64,
    pub sent_packets: u64,
    pub sent_acknowledgments: u64,
    pub sent_timeout_packets: u64,
    pub undelivered_packets: u64,
    pub undelivered_acknowledgements: u64,
}

impl Counts {
    pub fn zero() -> (r: Counts)
        ensures
            r == Counts::spec_zero(),
    {
        Counts {
            received_send_packets: 0,
            received_receive_packets: 0,
            received_acknowledge_packets: 0,
            received_timeouts: 0,
            sent_packets: 0,
            sent_acknowledgments: 0,
            sent_timeout_packets: 0,
            undelivered_packets: 0,
            undelivered_acknowledgements: 0,
        }
    }

    pub open spec fn spec_zero() -> Counts {
        Counts {
            received_send_packets: 0,
            received_receive_packets: 0,
            received_acknowledge_packets: 0,
            received_timeouts: 0,
            sent_packets: 0,
            sent_acknowledgments: 0,
            sent_timeout_packets: 0,
            undelivered_packets: 0,
            undelivered_acknowledgements: 0,
        }
    }
}

} // verus!
