use vstd::prelude::*;
use crate::estimator::{bump, bumped, clamped_diff, undelivered};
use crate::events::{
    classify, event_height, is_confirmation, message_kind, ChainEvent, MessageKind, OutboundMessage,
};
use crate::gate::{admitted, batch_watermark, passes_gate, raise, raised};
use crate::metrics::{
    histogram_for, latency_histogram, CounterKind, Counts, GaugeKind, HistogramKind, Observation,
    SentKind,
};
use crate::packet::{PacketId, PacketKey};
use crate::store::TimestampStore;

verus! {

/// Why a handler refused an operation.
#[derive(Clone, Copy, Debug, PartialEq, Eq, Structural)]
pub enum LinkError {
    /// A cross-referencing operation was asked of handlers that are not linked.
    NotLinked,
    /// One of the two handlers is already linked.
    AlreadyLinked,
    /// Both handlers carry the same identity.
    SameHandler,
}

/// The abstract state of one handler.
pub struct HandlerModel {
    pub id: u64,
    pub counterparty: Option<u64>,
    pub sent_packet_times: Map<PacketKey, u64>,
    pub sent_acknowledgment_times: Map<PacketKey, u64>,
    pub sent_timeout_packet_times: Map<PacketKey, u64>,
    pub last_update_client_time: Option<u64>,
    pub latest_processed_height: u64,
    pub counts: Counts,
}

/// The instrumentation state of one endpoint of a relayed chain pair.
pub struct MetricsHandler {
    id: u64,
    counterparty: Option<u64>,
    sent_packet_times: TimestampStore,
    sent_acknowledgment_times: TimestampStore,
    sent_timeout_packet_times: TimestampStore,
    last_update_client_time: Option<u64>,
    latest_processed_height: u64,
    counts: Counts,
}

impl View for MetricsHandler {
    type V = HandlerModel;

    closed spec fn view(&self) -> HandlerModel {
        HandlerModel {
            id: self.id,
            counterparty: self.counterparty,
            sent_packet_times: self.sent_packet_times@,
            sent_acknowledgment_times: self.sent_acknowledgment_times@,
            sent_timeout_packet_times: self.sent_timeout_packet_times@,
            last_update_client_time: self.last_update_client_time,
            latest_processed_height: self.latest_processed_height,
            counts: self.counts,
        }
    }
}

/// `a` holds a link to `b`.
pub open spec fn linked(a: HandlerModel, b: HandlerModel) -> bool {
    a.counterparty == Some(b.id)
}

pub open spec fn store_of(m: HandlerModel, kind: SentKind) -> Map<PacketKey, u64> {
    match kind {
        SentKind::Packet => m.sent_packet_times,
        SentKind::Acknowledgment => m.sent_acknowledgment_times,
        SentKind::TimeoutPacket => m.sent_timeout_packet_times,
    }
}

/// What a confirmation of `packet` observes against a store of send times:
/// the elapsed milliseconds, or a warning where no send time is known.
pub open spec fn correlation(store: Map<PacketKey, u64>, packet: PacketId, kind: SentKind, now: u64) -> Observation {
    if store.contains_key(packet@) {
        Observation::Sample(latency_histogram(kind), clamped_diff(now, store[packet@]))
    } else {
        Observation::MissingSendTime(kind, packet)
    }
}

/// The elapsed time since the previous client update, if there was one.
pub open spec fn update_delta(last: Option<u64>, now: u64) -> Seq<Observation> {
    match last {
        Some(t) => seq![Observation::Sample(HistogramKind::SentUpdateClientTime, clamped_diff(now, t))],
        None => Seq::empty(),
    }
}

/// One event of a batch whose pre-batch watermark is `w0`.
pub open spec fn event_step(m: HandlerModel, cp: HandlerModel, w0: u64, e: ChainEvent, now: u64) -> (HandlerModel, Seq<Observation>) {
    if !admitted(w0, event_height(e)) {
        (m, Seq::empty())
    } else {
        match e {
            ChainEvent::SendPacket { packet, .. } => (
                HandlerModel {
                    sent_packet_times: m.sent_packet_times.insert(packet@, now),
                    counts: Counts { received_send_packets: bumped(m.counts.received_send_packets), ..m.counts },
                    ..m
                },
                seq![Observation::Increment(CounterKind::ReceivedSendPackets)],
            ),
            ChainEvent::ReceivePacket { packet, .. } => (
                HandlerModel {
                    counts: Counts { received_receive_packets: bumped(m.counts.received_receive_packets), ..m.counts },
                    ..m
                },
                seq![
                    Observation::Increment(CounterKind::ReceivedReceivePackets),
                    correlation(cp.sent_packet_times, packet, SentKind::Packet, now),
                ],
            ),
            ChainEvent::WriteAcknowledgement { packet, .. } => (
                HandlerModel { sent_acknowledgment_times: m.sent_acknowledgment_times.insert(packet@, now), ..m },
                Seq::empty(),
            ),
            ChainEvent::AcknowledgePacket { packet, .. } => (
                HandlerModel {
                    counts: Counts { received_acknowledge_packets: bumped(m.counts.received_acknowledge_packets), ..m.counts },
                    ..m
                },
                seq![
                    Observation::Increment(CounterKind::ReceivedAcknowledgePackets),
                    correlation(cp.sent_acknowledgment_times, packet, SentKind::Acknowledgment, now),
                ],
            ),
            ChainEvent::TimeoutPacket { packet, .. } => (
                HandlerModel { counts: Counts { received_timeouts: bumped(m.counts.received_timeouts), ..m.counts }, ..m },
                seq![
                    Observation::Increment(CounterKind::ReceivedTimeouts),
                    correlation(cp.sent_timeout_packet_times, packet, SentKind::TimeoutPacket, now),
                ],
            ),
            ChainEvent::TimeoutOnClosePacket { packet, .. } => (
                HandlerModel { counts: Counts { received_timeouts: bumped(m.counts.received_timeouts), ..m.counts }, ..m },
                seq![
                    Observation::Increment(CounterKind::ReceivedTimeouts),
                    correlation(cp.sent_timeout_packet_times, packet, SentKind::TimeoutPacket, now),
                ],
            ),
            ChainEvent::UpdateClient { client_id, consensus_height, .. } => (
                HandlerModel { last_update_client_time: Some(now), ..m },
                update_delta(m.last_update_client_time, now).push(
                    Observation::ClientHeight {
                        client_id,
                        revision_number: consensus_height.revision_number,
                        revision_height: consensus_height.revision_height,
                    },
                ),
            ),
            ChainEvent::Other => (m, Seq::empty()),
        }
    }
}

/// The events of a batch, one after another, before the watermark moves.
pub open spec fn run_events(m: HandlerModel, cp: HandlerModel, w0: u64, events: Seq<ChainEvent>, now: u64) -> (HandlerModel, Seq<Observation>)
    decreases events.len(),
{
    if events.len() == 0 {
        (m, Seq::empty())
    } else {
        let (m1, o1) = run_events(m, cp, w0, events.drop_last(), now);
        let (m2, o2) = event_step(m1, cp, w0, events.last(), now);
        (m2, o1 + o2)
    }
}

/// A whole batch: its events, then the watermark raised once.
pub open spec fn batch_outcome(m: HandlerModel, cp: HandlerModel, events: Seq<ChainEvent>, now: u64) -> (HandlerModel, Seq<Observation>) {
    let w0 = m.latest_processed_height;
    let (m1, o) = run_events(m, cp, w0, events, now);
    let w = batch_watermark(w0, events);
    (
        HandlerModel { latest_processed_height: w, ..m1 },
        o.push(Observation::SetGauge(GaugeKind::LatestProcessedHeight, w)),
    )
}

/// The batch holds an admitted confirmation.
pub open spec fn needs_counterparty(w0: u64, events: Seq<ChainEvent>) -> bool {
    exists|i: int| 0 <= i < events.len() && #[trigger] is_confirmation(events[i]) && admitted(w0, event_height(events[i]))
}

/// One outbound message: the undelivered estimate for its category, from
/// this handler's sent count and the counterparty's received count.
pub open spec fn message_step(m: HandlerModel, cp: HandlerModel, kind: MessageKind) -> (HandlerModel, Seq<Observation>) {
    match kind {
        MessageKind::Acknowledgement => {
            let sent = bumped(m.counts.sent_acknowledgments);
            let u = clamped_diff(sent, cp.counts.received_acknowledge_packets);
            (
                HandlerModel { counts: Counts { sent_acknowledgments: sent, undelivered_acknowledgements: u, ..m.counts }, ..m },
                seq![
                    Observation::Increment(CounterKind::SentAcknowledgments),
                    Observation::SetGauge(GaugeKind::UndeliveredAcknowledgements, u),
                ],
            )
        },
        MessageKind::RecvPacket => {
            let u = clamped_diff(m.counts.sent_packets, cp.counts.received_receive_packets);
            (
                HandlerModel {
                    counts: Counts { sent_packets: bumped(m.counts.sent_packets), undelivered_packets: u, ..m.counts },
                    ..m
                },
                seq![
                    Observation::SetGauge(GaugeKind::UndeliveredPackets, u),
                    Observation::Increment(CounterKind::SentPackets),
                ],
            )
        },
        _ => (m, Seq::empty()),
    }
}

pub open spec fn run_messages(m: HandlerModel, cp: HandlerModel, messages: Seq<OutboundMessage>) -> (HandlerModel, Seq<Observation>)
    decreases messages.len(),
{
    if messages.len() == 0 {
        (m, Seq::empty())
    } else {
        let (m1, o1) = run_messages(m, cp, messages.drop_last());
        let (m2, o2) = message_step(m1, cp, message_kind(messages.last().type_url@));
        (m2, o1 + o2)
    }
}

/// The batch holds a message whose estimate reads the counterparty's counts.
pub open spec fn reads_counterparty(messages: Seq<OutboundMessage>) -> bool {
    exists|i: int| 0 <= i < messages.len() && #[trigger] is_estimated(message_kind(messages[i].type_url@))
}

pub open spec fn is_estimated(kind: MessageKind) -> bool {
    kind == MessageKind::Acknowledgement || kind == MessageKind::RecvPacket
}

pub open spec fn is_timeout(kind: MessageKind) -> bool {
    kind == MessageKind::Timeout || kind == MessageKind::TimeoutOnClose
}

pub open spec fn run_timeouts(m: HandlerModel, messages: Seq<OutboundMessage>) -> (HandlerModel, Seq<Observation>)
    decreases messages.len(),
{
    if messages.len() == 0 {
        (m, Seq::empty())
    } else {
        let (m1, o1) = run_timeouts(m, messages.drop_last());
        if is_timeout(message_kind(messages.last().type_url@)) {
            (
                HandlerModel { counts: Counts { sent_timeout_packets: bumped(m1.counts.sent_timeout_packets), ..m1.counts }, ..m1 },
                o1.push(Observation::Increment(CounterKind::SentTimeoutPackets)),
            )
        } else {
            (m1, o1)
        }
    }
}

/// The sum of the payload lengths of a batch.
pub open spec fn total_length(messages: Seq<OutboundMessage>) -> int
    decreases messages.len(),
{
    if messages.len() == 0 {
        0
    } else {
        total_length(messages.drop_last()) + messages.last().value@.len()
    }
}

/// The delta since the previous client update, after which the slot holds `now`.
pub fn observe_delta_time(last: &mut Option<u64>, now: u64) -> (r: Option<u64>)
    ensures
        *final(last) == Some(now),
        r == (match *old(last) {
            Some(t) => Some(clamped_diff(now, t)),
            None => None::<u64>,
        }),
{
    let r = match *last {
        Some(t) => Some(now.saturating_sub(t)),
        None => None,
    };
    *last = Some(now);
    r
}

impl MetricsHandler {
    pub closed spec fn wf(&self) -> bool {
        &&& self.sent_packet_times.wf()
        &&& self.sent_acknowledgment_times.wf()
        &&& self.sent_timeout_packet_times.wf()
    }

    /// A handler with empty stores and zero counts, linked to nobody.
    pub fn new(id: u64) -> (r: MetricsHandler)
        ensures
            r.wf(),
            r@.id == id,
            r@.counterparty.is_none(),
            r@.sent_packet_times.is_empty(),
            r@.sent_acknowledgment_times.is_empty(),
            r@.sent_timeout_packet_times.is_empty(),
            r@.last_update_client_time.is_none(),
            r@.latest_processed_height == 0,
            r@.counts == Counts::spec_zero(),
    {
        MetricsHandler {
            id,
            counterparty: None,
            sent_packet_times: TimestampStore::new(),
            sent_acknowledgment_times: TimestampStore::new(),
            sent_timeout_packet_times: TimestampStore::new(),
            last_update_client_time: None,
            latest_processed_height: 0,
            counts: Counts::zero(),
        }
    }

    pub fn id(&self) -> (r: u64)
        ensures
            r == self@.id,
    {
        self.id
    }

    pub fn counterparty_id(&self) -> (r: Option<u64>)
        ensures
            r == self@.counterparty,
    {
        self.counterparty
    }

    pub fn counts(&self) -> (r: Counts)
        ensures
            r == self@.counts,
    {
        self.counts
    }

    pub fn latest_processed_height(&self) -> (r: u64)
        ensures
            r == self@.latest_processed_height,
    {
        self.latest_processed_height
    }

    pub fn last_update_client_time(&self) -> (r: Option<u64>)
        ensures
            r == self@.last_update_client_time,
    {
        self.last_update_client_time
    }

    pub fn is_linked_to(&self, other: &MetricsHandler) -> (r: bool)
        ensures
            r == linked(self@, other@),
    {
        match self.counterparty {
            Some(c) => c == other.id,
            None => false,
        }
    }

    fn store(&self, kind: SentKind) -> (r: &TimestampStore)
        requires
            self.wf(),
        ensures
            r.wf(),
            r@ == store_of(self@, kind),
    {
        match kind {
            SentKind::Packet => &self.sent_packet_times,
            SentKind::Acknowledgment => &self.sent_acknowledgment_times,
            SentKind::TimeoutPacket => &self.sent_timeout_packet_times,
        }
    }

    /// The instant that this handler's own store of `kind` holds for `packet`.
    pub fn recorded_time(&self, kind: SentKind, packet: &PacketId) -> (r: Option<u64>)
        requires
            self.wf(),
        ensures
            r == (if store_of(self@, kind).contains_key(packet@) {
                Some(store_of(self@, kind)[packet@])
            } else {
                None::<u64>
            }),
    {
        self.store(kind).lookup(packet)
    }

    /// Links the two handlers both ways. Refused where either is linked
    /// already or both carry the same identity; nothing changes then.
    pub fn link_with_counterparty(&mut self, counterparty: &mut MetricsHandler) -> (r: Result<(), LinkError>)
        ensures
            r == (if old(self)@.counterparty.is_some() || old(counterparty)@.counterparty.is_some() {
                Err::<(), LinkError>(LinkError::AlreadyLinked)
            } else if old(self)@.id == old(counterparty)@.id {
                Err(LinkError::SameHandler)
            } else {
                Ok(())
            }),
            r.is_ok() ==> final(self)@ == (HandlerModel { counterparty: Some(old(counterparty)@.id), ..old(self)@ }),
            r.is_ok() ==> final(counterparty)@ == (HandlerModel { counterparty: Some(old(self)@.id), ..old(counterparty)@ }),
            r.is_err() ==> final(self)@ == old(self)@ && final(counterparty)@ == old(counterparty)@,
            final(self).wf() == old(self).wf(),
            final(counterparty).wf() == old(counterparty).wf(),
    {
        if self.counterparty.is_some() || counterparty.counterparty.is_some() {
            return Err(LinkError::AlreadyLinked);
        }
        if self.id == counterparty.id {
            return Err(LinkError::SameHandler);
        }
        self.counterparty = Some(counterparty.id);
        counterparty.counterparty = Some(self.id);
        Ok(())
    }

    /// Correlates a confirmation of `packet` against the counterparty's store
    /// of `kind`. Refused where the handlers are not linked.
    pub fn observe_last_packet_time(
        &self,
        counterparty: &MetricsHandler,
        packet: &PacketId,
        kind: SentKind,
        now: u64,
    ) -> (r: Result<Observation, LinkError>)
        requires
            counterparty.wf(),
        ensures
            r == (if linked(self@, counterparty@) {
                Ok::<Observation, LinkError>(correlation(store_of(counterparty@, kind), *packet, kind, now))
            } else {
                Err(LinkError::NotLinked)
            }),
    {
        if !self.is_linked_to(counterparty) {
            return Err(LinkError::NotLinked);
        }
        match counterparty.store(kind).lookup(packet) {
            Some(t) => Ok(Observation::Sample(histogram_for(kind), now.saturating_sub(t))),
            None => Ok(Observation::MissingSendTime(kind, packet.duplicate())),
        }
    }

    fn count_received(&mut self, kind: CounterKind)
        requires
            kind == CounterKind::ReceivedSendPackets || kind == CounterKind::ReceivedReceivePackets
                || kind == CounterKind::ReceivedAcknowledgePackets || kind == CounterKind::ReceivedTimeouts,
        ensures
            final(self).wf() == old(self).wf(),
            final(self)@ == (HandlerModel {
                counts: match kind {
                    CounterKind::ReceivedSendPackets => Counts { received_send_packets: bumped(old(self)@.counts.received_send_packets), ..old(self)@.counts },
                    CounterKind::ReceivedReceivePackets => Counts { received_receive_packets: bumped(old(self)@.counts.received_receive_packets), ..old(self)@.counts },
                    CounterKind::ReceivedAcknowledgePackets => Counts { received_acknowledge_packets: bumped(old(self)@.counts.received_acknowledge_packets), ..old(self)@.counts },
                    _ => Counts { received_timeouts: bumped(old(self)@.counts.received_timeouts), ..old(self)@.counts },
                },
                ..old(self)@
            }),
    {
        match kind {
            CounterKind::ReceivedSendPackets => {
                self.counts.received_send_packets = bump(self.counts.received_send_packets);
            },
            CounterKind::ReceivedReceivePackets => {
                self.counts.received_receive_packets = bump(self.counts.received_receive_packets);
            },
            CounterKind::ReceivedAcknowledgePackets => {
                self.counts.received_acknowledge_packets = bump(self.counts.received_acknowledge_packets);
            },
            _ => {
                self.counts.received_timeouts = bump(self.counts.received_timeouts);
            },
        }
    }

    fn apply_event(&mut self, counterparty: &MetricsHandler, w0: u64, e: &ChainEvent, now: u64, obs: &mut Vec<Observation>)
        requires
            old(self).wf(),
            counterparty.wf(),
            is_confirmation(*e) && admitted(w0, event_height(*e)) ==> linked(old(self)@, counterparty@),
        ensures
            final(self).wf(),
            final(self)@ == event_step(old(self)@, counterparty@, w0, *e, now).0,
            final(obs)@ == old(obs)@ + event_step(old(self)@, counterparty@, w0, *e, now).1,
    {
        if !passes_gate(w0, e.height()) {
            assert(old(obs)@ + Seq::<Observation>::empty() =~= old(obs)@);
            return;
        }
        let ghost o0 = obs@;
        match e {
            ChainEvent::SendPacket { packet, .. } => {
                self.count_received(CounterKind::ReceivedSendPackets);
                obs.push(Observation::Increment(CounterKind::ReceivedSendPackets));
                self.sent_packet_times.record(packet.duplicate(), now);
            },
            ChainEvent::ReceivePacket { packet, .. } => {
                self.count_received(CounterKind::ReceivedReceivePackets);
                obs.push(Observation::Increment(CounterKind::ReceivedReceivePackets));
                if let Ok(o) = self.observe_last_packet_time(counterparty, packet, SentKind::Packet, now) {
                    obs.push(o);
                }
            },
            ChainEvent::WriteAcknowledgement { packet, .. } => {
                self.sent_acknowledgment_times.record(packet.duplicate(), now);
            },
            ChainEvent::AcknowledgePacket { packet, .. } => {
                self.count_received(CounterKind::ReceivedAcknowledgePackets);
                obs.push(Observation::Increment(CounterKind::ReceivedAcknowledgePackets));
                if let Ok(o) = self.observe_last_packet_time(counterparty, packet, SentKind::Acknowledgment, now) {
                    obs.push(o);
                }
            },
            ChainEvent::TimeoutPacket { packet, .. } | ChainEvent::TimeoutOnClosePacket { packet, .. } => {
                self.count_received(CounterKind::ReceivedTimeouts);
                obs.push(Observation::Increment(CounterKind::ReceivedTimeouts));
                if let Ok(o) = self.observe_last_packet_time(counterparty, packet, SentKind::TimeoutPacket, now) {
                    obs.push(o);
                }
            },
            ChainEvent::UpdateClient { client_id, consensus_height, .. } => {
                if let Some(d) = observe_delta_time(&mut self.last_update_client_time, now) {
                    obs.push(Observation::Sample(HistogramKind::SentUpdateClientTime, d));
                }
                obs.push(Observation::ClientHeight {
                    client_id: client_id.clone(),
                    revision_number: consensus_height.revision_number,
                    revision_height: consensus_height.revision_height,
                });
            },
            ChainEvent::Other => {},
        }
        assert(obs@ =~= o0 + event_step(old(self)@, counterparty@, w0, *e, now).1);
    }

    /// Handles a batch of events in order: events below the watermark captured
    /// before the batch are skipped; send-side events are recorded in this
    /// handler's stores; confirmations are correlated against the
    /// counterparty's stores; the watermark is then raised once. Refused, with
    /// nothing changed, where an admitted confirmation comes and the handlers
    /// are not linked.
    pub fn handle_events(&mut self, counterparty: &MetricsHandler, events: &Vec<ChainEvent>, now: u64) -> (r: Result<Vec<Observation>, LinkError>)
        requires
            old(self).wf(),
            counterparty.wf(),
        ensures
            final(self).wf(),
            match r {
                Err(e) => e == LinkError::NotLinked
                    && needs_counterparty(old(self)@.latest_processed_height, events@)
                    && !linked(old(self)@, counterparty@)
                    && final(self)@ == old(self)@,
                Ok(obs) => (needs_counterparty(old(self)@.latest_processed_height, events@) ==> linked(old(self)@, counterparty@))
                    && final(self)@ == batch_outcome(old(self)@, counterparty@, events@, now).0
                    && obs@ == batch_outcome(old(self)@, counterparty@, events@, now).1,
            },
    {
        let w0 = self.latest_processed_height;
        if !self.is_linked_to(counterparty) {
            let mut j: usize = 0;
            while j < events.len()
                invariant
                    self.wf(),
                    self@ == old(self)@,
                    w0 == old(self)@.latest_processed_height,
                    !linked(old(self)@, counterparty@),
                    j <= events@.len(),
                    forall|k: int| 0 <= k < j ==> !(#[trigger] is_confirmation(events@[k]) && admitted(w0, event_height(events@[k]))),
                decreases events@.len() - j,
            {
                if events[j].confirms() && passes_gate(w0, events[j].height()) {
                    return Err(LinkError::NotLinked);
                }
                j = j + 1;
            }
        }
        let ghost m0 = self@;
        let mut obs: Vec<Observation> = Vec::new();
        let mut mark: u64 = w0;
        let mut i: usize = 0;
        while i < events.len()
            invariant
                self.wf(),
                counterparty.wf(),
                i <= events@.len(),
                w0 == m0.latest_processed_height,
                needs_counterparty(w0, events@) ==> linked(m0, counterparty@),
                self@.id == m0.id,
                self@.counterparty == m0.counterparty,
                self@.latest_processed_height == w0,
                (self@, obs@) == run_events(m0, counterparty@, w0, events@.take(i as int), now),
                mark == batch_watermark(w0, events@.take(i as int)),
                mark >= w0,
            decreases events@.len() - i,
        {
            let e = &events[i];
            proof {
                assert(events@.take(i + 1).drop_last() =~= events@.take(i as int));
                assert(events@.take(i + 1).last() == events@[i as int]);
                if is_confirmation(events@[i as int]) && admitted(w0, event_height(events@[i as int])) {
                    assert(needs_counterparty(w0, events@));
                }
            }
            self.apply_event(counterparty, w0, e, now, &mut obs);
            let h = e.height();
            if passes_gate(w0, h) {
                mark = raise(mark, h);
            } else {
                assert(raised(mark, h) == mark);
            }
            i = i + 1;
        }
        proof {
            assert(events@.take(events@.len() as int) =~= events@);
        }
        self.latest_processed_height = mark;
        obs.push(Observation::SetGauge(GaugeKind::LatestProcessedHeight, mark));
        Ok(obs)
    }

    fn apply_message(&mut self, counterparty: &MetricsHandler, message: &OutboundMessage, obs: &mut Vec<Observation>)
        requires
            is_estimated(message_kind(message.type_url@)) ==> linked(old(self)@, counterparty@),
        ensures
            final(self).wf() == old(self).wf(),
            final(self)@ == message_step(old(self)@, counterparty@, message_kind(message.type_url@)).0,
            final(obs)@ == old(obs)@ + message_step(old(self)@, counterparty@, message_kind(message.type_url@)).1,
    {
        let ghost o0 = obs@;
        match classify(&message.type_url) {
            MessageKind::Acknowledgement => {
                self.counts.sent_acknowledgments = bump(self.counts.sent_acknowledgments);
                obs.push(Observation::Increment(CounterKind::SentAcknowledgments));
                let u = undelivered(self.counts.sent_acknowledgments, counterparty.counts.received_acknowledge_packets);
                self.counts.undelivered_acknowledgements = u;
                obs.push(Observation::SetGauge(GaugeKind::UndeliveredAcknowledgements, u));
            },
            MessageKind::RecvPacket => {
                let u = undelivered(self.counts.sent_packets, counterparty.counts.received_receive_packets);
                self.counts.undelivered_packets = u;
                obs.push(Observation::SetGauge(GaugeKind::UndeliveredPackets, u));
                self.counts.sent_packets = bump(self.counts.sent_packets);
                obs.push(Observation::Increment(CounterKind::SentPackets));
            },
            _ => {},
        }
        assert(obs@ =~= o0 + message_step(old(self)@, counterparty@, message_kind(message.type_url@)).1);
    }

    /// Accounts a batch of outbound messages in order: an acknowledgement
    /// counts as sent and then re-estimates the undelivered acknowledgements;
    /// a receive-packet message re-estimates the undelivered packets and then
    /// counts as sent; other messages are ignored. Refused, with nothing
    /// changed, where such a message comes and the handlers are not linked.
    pub fn handle_messages(&mut self, counterparty: &MetricsHandler, messages: &Vec<OutboundMessage>) -> (r: Result<Vec<Observation>, LinkError>)
        ensures
            final(self).wf() == old(self).wf(),
            match r {
                Err(e) => e == LinkError::NotLinked && reads_counterparty(messages@)
                    && !linked(old(self)@, counterparty@) && final(self)@ == old(self)@,
                Ok(obs) => (reads_counterparty(messages@) ==> linked(old(self)@, counterparty@))
                    && final(self)@ == run_messages(old(self)@, counterparty@, messages@).0
                    && obs@ == run_messages(old(self)@, counterparty@, messages@).1,
            },
    {
        if !self.is_linked_to(counterparty) {
            let mut j: usize = 0;
            while j < messages.len()
                invariant
                    self@ == old(self)@,
                    !linked(old(self)@, counterparty@),
                    j <= messages@.len(),
                    forall|k: int| 0 <= k < j ==> !(#[trigger] is_estimated(message_kind(messages@[k].type_url@))),
                decreases messages@.len() - j,
            {
                let kind = classify(&messages[j].type_url);
                if kind == MessageKind::Acknowledgement || kind == MessageKind::RecvPacket {
                    assert(is_estimated(message_kind(messages@[j as int].type_url@)));
                    return Err(LinkError::NotLinked);
                }
                j = j + 1;
            }
        }
        let ghost m0 = self@;
        let ghost wf0 = self.wf();
        let mut obs: Vec<Observation> = Vec::new();
        let mut i: usize = 0;
        while i < messages.len()
            invariant
                i <= messages@.len(),
                self.wf() == wf0,
                reads_counterparty(messages@) ==> linked(m0, counterparty@),
                self@.id == m0.id,
                self@.counterparty == m0.counterparty,
                (self@, obs@) == run_messages(m0, counterparty@, messages@.take(i as int)),
            decreases messages@.len() - i,
        {
            proof {
                assert(messages@.take(i + 1).drop_last() =~= messages@.take(i as int));
                assert(messages@.take(i + 1).last() == messages@[i as int]);
                if is_estimated(message_kind(messages@[i as int].type_url@)) {
                    assert(reads_counterparty(messages@));
                }
            }
            self.apply_message(counterparty, &messages[i], &mut obs);
            i = i + 1;
        }
        proof {
            assert(messages@.take(messages@.len() as int) =~= messages@);
        }
        Ok(obs)
    }

    /// Counts each timeout and timeout-on-close message of a batch as a sent
    /// timeout; other messages are ignored.
    pub fn handle_timeouts(&mut self, timeouts: &Vec<OutboundMessage>) -> (r: Vec<Observation>)
        ensures
            final(self).wf() == old(self).wf(),
            final(self)@ == run_timeouts(old(self)@, timeouts@).0,
            r@ == run_timeouts(old(self)@, timeouts@).1,
    {
        let ghost m0 = self@;
        let ghost wf0 = self.wf();
        let mut obs: Vec<Observation> = Vec::new();
        let mut i: usize = 0;
        while i < timeouts.len()
            invariant
                i <= timeouts@.len(),
                self.wf() == wf0,
                (self@, obs@) == run_timeouts(m0, timeouts@.take(i as int)),
            decreases timeouts@.len() - i,
        {
            proof {
                assert(timeouts@.take(i + 1).drop_last() =~= timeouts@.take(i as int));
                assert(timeouts@.take(i + 1).last() == timeouts@[i as int]);
            }
            let kind = classify(&timeouts[i].type_url);
            if kind == MessageKind::Timeout || kind == MessageKind::TimeoutOnClose {
                self.counts.sent_timeout_packets = bump(self.counts.sent_timeout_packets);
                obs.push(Observation::Increment(CounterKind::SentTimeoutPackets));
            }
            i = i + 1;
        }
        proof {
            assert(timeouts@.take(timeouts@.len() as int) =~= timeouts@);
        }
        obs
    }

    /// One sample of the declared weight and one of the summed payload
    /// lengths of the batch, whatever the messages' categories.
    pub fn handle_transaction_costs(&self, batch_weight: u64, messages: &Vec<OutboundMessage>) -> (r: Vec<Observation>)
        requires
            total_length(messages@) <= u64::MAX,
        ensures
            r@ == seq![
                Observation::Sample(HistogramKind::GasCostForSentTxBundle, batch_weight),
                Observation::Sample(HistogramKind::TransactionLengthForSentTxBundle, total_length(messages@) as u64),
            ],
    {
        let total = batch_length(messages);
        let mut obs: Vec<Observation> = Vec::new();
        obs.push(Observation::Sample(HistogramKind::GasCostForSentTxBundle, batch_weight));
        obs.push(Observation::Sample(HistogramKind::TransactionLengthForSentTxBundle, total));
        assert(obs@ =~= seq![
            Observation::Sample(HistogramKind::GasCostForSentTxBundle, batch_weight),
            Observation::Sample(HistogramKind::TransactionLengthForSentTxBundle, total_length(messages@) as u64),
        ]);
        obs
    }
}

proof fn lemma_total_length_grows(messages: Seq<OutboundMessage>, i: int)
    requires
        0 <= i <= messages.len(),
    ensures
        0 <= total_length(messages.take(i)) <= total_length(messages),
    decreases messages.len(),
{
    if messages.len() > 0 {
        if i == messages.len() {
            assert(messages.take(i) =~= messages);
            lemma_total_length_grows(messages.drop_last(), messages.len() - 1);
        } else {
            lemma_total_length_grows(messages.drop_last(), i);
            assert(messages.drop_last().take(i) =~= messages.take(i));
        }
    }
}

/// The summed payload lengths of a batch.
pub fn batch_length(messages: &Vec<OutboundMessage>) -> (r: u64)
    requires
        total_length(messages@) <= u64::MAX,
    ensures
        r == total_length(messages@),
{
    let mut total: u64 = 0;
    let mut i: usize = 0;
    while i < messages.len()
        invariant
            i <= messages@.len(),
            total_length(messages@) <= u64::MAX,
            total == total_length(messages@.take(i as int)),
        decreases messages@.len() - i,
    {
        proof {
            assert(messages@.take(i + 1).drop_last() =~= messages@.take(i as int));
            assert(messages@.take(i + 1).last() == messages@[i as int]);
            lemma_total_length_grows(messages@, i + 1);
        }
        total = total + messages[i].value.len() as u64;
        i = i + 1;
    }
    proof {
        assert(messages@.take(messages@.len() as int) =~= messages@);
    }
    total
}

} // verus!
