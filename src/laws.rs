use vstd::prelude::*;
use crate::estimator::clamped_diff;
use crate::events::{event_height, ChainEvent};
use crate::gate::{batch_watermark, lemma_batch_watermark_above};
use crate::handler::{
    batch_outcome, correlation, event_step, linked, run_events, store_of, HandlerModel,
};
use crate::metrics::{CounterKind, GaugeKind, HistogramKind, Observation, SentKind};
use crate::packet::PacketId;

verus! {

proof fn lemma_single_event(m: HandlerModel, cp: HandlerModel, e: ChainEvent, now: u64)
    ensures
        run_events(m, cp, m.latest_processed_height, seq![e], now)
            == event_step(m, cp, m.latest_processed_height, e, now),
        batch_watermark(m.latest_processed_height, seq![e])
            == crate::gate::raised(m.latest_processed_height, event_height(e)),
{
    let s = seq![e];
    assert(s.drop_last() =~= Seq::<ChainEvent>::empty());
    assert(s.last() == e);
    let w0 = m.latest_processed_height;
    assert(run_events(m, cp, w0, s.drop_last(), now) == (m, Seq::<Observation>::empty()));
    let (m2, o2) = event_step(m, cp, w0, e, now);
    assert(Seq::<Observation>::empty() + o2 =~= o2);
    assert(batch_watermark(w0, s.drop_last()) == w0);
}

/// A packet sent through one handler and then confirmed through its linked
/// counterparty yields exactly one latency sample: the time between the two
/// batches.
pub proof fn law_sent_then_received(
    a: HandlerModel,
    b: HandlerModel,
    packet: PacketId,
    confirmed: PacketId,
    sent_height: u64,
    received_height: u64,
    t0: u64,
    t1: u64,
)
    requires
        linked(a, b),
        linked(b, a),
        confirmed@ == packet@,
        sent_height >= a.latest_processed_height,
        received_height >= b.latest_processed_height,
    ensures
        ({
            let a2 = batch_outcome(a, b, seq![ChainEvent::SendPacket { height: sent_height, packet }], t0).0;
            let obs = batch_outcome(b, a2, seq![ChainEvent::ReceivePacket { height: received_height, packet: confirmed }], t1).1;
            &&& obs == seq![
                Observation::Increment(CounterKind::ReceivedReceivePackets),
                Observation::Sample(HistogramKind::SentPacketTime, clamped_diff(t1, t0)),
                Observation::SetGauge(GaugeKind::LatestProcessedHeight, received_height),
            ]
            &&& t1 >= t0 ==> clamped_diff(t1, t0) == t1 - t0
        }),
{
    let send = ChainEvent::SendPacket { height: sent_height, packet };
    let recv = ChainEvent::ReceivePacket { height: received_height, packet: confirmed };
    lemma_single_event(a, b, send, t0);
    let a2 = batch_outcome(a, b, seq![send], t0).0;
    lemma_single_event(b, a2, recv, t1);
    assert(a2.sent_packet_times.contains_key(packet@));
    let o = event_step(b, a2, b.latest_processed_height, recv, t1).1;
    assert(o.push(Observation::SetGauge(GaugeKind::LatestProcessedHeight, received_height)) =~= seq![
        Observation::Increment(CounterKind::ReceivedReceivePackets),
        Observation::Sample(HistogramKind::SentPacketTime, clamped_diff(t1, t0)),
        Observation::SetGauge(GaugeKind::LatestProcessedHeight, received_height),
    ]);
}

/// A confirmation whose packet the counterparty never recorded yields no
/// latency sample, only a warning.
pub proof fn law_unmatched_confirmation(b: HandlerModel, a: HandlerModel, confirmed: PacketId, height: u64, now: u64)
    requires
        !a.sent_packet_times.contains_key(confirmed@),
        height >= b.latest_processed_height,
    ensures
        ({
            let obs = batch_outcome(b, a, seq![ChainEvent::ReceivePacket { height, packet: confirmed }], now).1;
            &&& obs == seq![
                Observation::Increment(CounterKind::ReceivedReceivePackets),
                Observation::MissingSendTime(SentKind::Packet, confirmed),
                Observation::SetGauge(GaugeKind::LatestProcessedHeight, height),
            ]
            &&& forall|i: int| 0 <= i < obs.len() ==> !(#[trigger] obs[i] is Sample)
        }),
{
    let recv = ChainEvent::ReceivePacket { height, packet: confirmed };
    lemma_single_event(b, a, recv, now);
    let obs = batch_outcome(b, a, seq![recv], now).1;
    assert(obs =~= seq![
        Observation::Increment(CounterKind::ReceivedReceivePackets),
        Observation::MissingSendTime(SentKind::Packet, confirmed),
        Observation::SetGauge(GaugeKind::LatestProcessedHeight, height),
    ]);
}

/// The watermark never goes down across a batch.
pub proof fn law_watermark_monotone(m: HandlerModel, cp: HandlerModel, events: Seq<ChainEvent>, now: u64)
    ensures
        batch_outcome(m, cp, events, now).0.latest_processed_height >= m.latest_processed_height,
{
    lemma_batch_watermark_above(m.latest_processed_height, events);
}

/// An event below the pre-batch watermark changes nothing and is observed
/// nowhere.
pub proof fn law_stale_event_inert(m: HandlerModel, cp: HandlerModel, w0: u64, e: ChainEvent, now: u64)
    requires
        event_height(e) is Some,
        event_height(e)->0 < w0,
    ensures
        event_step(m, cp, w0, e, now) == (m, Seq::<Observation>::empty()),
{
}

/// Once two handlers are linked, what one records as sent is what the other
/// correlates against, in both directions.
pub proof fn law_linked_visibility(a: HandlerModel, b: HandlerModel, packet: PacketId, height: u64, t: u64, now: u64)
    requires
        linked(a, b),
        linked(b, a),
        height >= a.latest_processed_height,
    ensures
        ({
            let a2 = batch_outcome(a, b, seq![ChainEvent::SendPacket { height, packet }], t).0;
            &&& store_of(a2, SentKind::Packet).contains_key(packet@)
            &&& store_of(a2, SentKind::Packet)[packet@] == t
            &&& linked(b, a2)
            &&& correlation(store_of(a2, SentKind::Packet), packet, SentKind::Packet, now)
                == Observation::Sample(HistogramKind::SentPacketTime, clamped_diff(now, t))
        }),
        ({
            let a3 = batch_outcome(a, b, seq![ChainEvent::WriteAcknowledgement { height, packet }], t).0;
            &&& store_of(a3, SentKind::Acknowledgment)[packet@] == t
            &&& linked(b, a3)
            &&& correlation(store_of(a3, SentKind::Acknowledgment), packet, SentKind::Acknowledgment, now)
                == Observation::Sample(HistogramKind::SentAcknowledgmentTime, clamped_diff(now, t))
        }),
{
    lemma_single_event(a, b, ChainEvent::SendPacket { height, packet }, t);
    lemma_single_event(a, b, ChainEvent::WriteAcknowledgement { height, packet }, t);
}

/// The undelivered estimate is the difference of the two counters where the
/// sent count is ahead, and zero otherwise: never negative.
pub proof fn law_undelivered_never_negative(sent: u64, received: u64)
    ensures
        clamped_diff(sent, received) as int >= 0,
        clamped_diff(sent, received) as int == if sent >= received { sent - received } else { 0 },
{
}

} // verus!
