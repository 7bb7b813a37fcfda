use relay_metrics::estimator::undelivered;
use relay_metrics::events::{classify, ChainEvent, ClientHeight, MessageKind, OutboundMessage};
use relay_metrics::handler::{observe_delta_time, LinkError, MetricsHandler};
use relay_metrics::metrics::{CounterKind, GaugeKind, HistogramKind, Observation, SentKind};
use relay_metrics::packet::PacketId;

fn pid(seq: u64) -> PacketId {
    PacketId::new(seq, "channel-0".to_string(), "transfer".to_string())
}

fn linked_pair() -> (MetricsHandler, MetricsHandler) {
    let mut a = MetricsHandler::new(1);
    let mut b = MetricsHandler::new(2);
    a.link_with_counterparty(&mut b).unwrap();
    (a, b)
}

fn msg(tag: &str, len: usize) -> OutboundMessage {
    OutboundMessage { type_url: tag.to_string(), value: vec![0u8; len] }
}

const ACK: &str = "/ibc.core.channel.v1.MsgAcknowledgement";
const RECV: &str = "/ibc.core.channel.v1.MsgRecvPacket";
const TIMEOUT: &str = "/ibc.core.channel.v1.MsgTimeout";
const TIMEOUT_ON_CLOSE: &str = "/ibc.core.channel.v1.MsgTimeoutOnClose";

#[test]
fn received_packet_latency_scenario() {
    let (mut a, mut b) = linked_pair();
    let sent = vec![ChainEvent::SendPacket { height: 10, packet: pid(5) }];
    a.handle_events(&b, &sent, 1000).unwrap();
    let recv = vec![ChainEvent::ReceivePacket { height: 7, packet: pid(5) }];
    let obs = b.handle_events(&a, &recv, 1120).unwrap();
    assert_eq!(obs.len(), 3);
    assert!(matches!(obs[0], Observation::Increment(CounterKind::ReceivedReceivePackets)));
    assert!(matches!(obs[1], Observation::Sample(HistogramKind::SentPacketTime, 120)));
    assert!(matches!(obs[2], Observation::SetGauge(GaugeKind::LatestProcessedHeight, 7)));
    let samples = obs.iter().filter(|o| matches!(o, Observation::Sample(..))).count();
    assert_eq!(samples, 1);
}

#[test]
fn transaction_cost_scenario() {
    let a = MetricsHandler::new(1);
    let batch = vec![msg(ACK, 10), msg("/other", 20), msg(RECV, 30)];
    let obs = a.handle_transaction_costs(500, &batch);
    assert_eq!(obs.len(), 2);
    assert!(matches!(obs[0], Observation::Sample(HistogramKind::GasCostForSentTxBundle, 500)));
    assert!(matches!(obs[1], Observation::Sample(HistogramKind::TransactionLengthForSentTxBundle, 60)));
}

#[test]
fn transaction_cost_of_empty_batch() {
    let a = MetricsHandler::new(1);
    let obs = a.handle_transaction_costs(0, &vec![]);
    assert!(matches!(obs[1], Observation::Sample(HistogramKind::TransactionLengthForSentTxBundle, 0)));
}

#[test]
fn acknowledgement_latency_through_link() {
    let (mut a, mut b) = linked_pair();
    b.handle_events(&a, &vec![ChainEvent::WriteAcknowledgement { height: 3, packet: pid(9) }], 50).unwrap();
    let obs = a.handle_events(&b, &vec![ChainEvent::AcknowledgePacket { height: 4, packet: pid(9) }], 80).unwrap();
    assert!(matches!(obs[0], Observation::Increment(CounterKind::ReceivedAcknowledgePackets)));
    assert!(matches!(obs[1], Observation::Sample(HistogramKind::SentAcknowledgmentTime, 30)));
    assert_eq!(a.counts().received_acknowledge_packets, 1);
}

#[test]
fn unmatched_confirmation_only_warns() {
    let (a, mut b) = linked_pair();
    let obs = b.handle_events(&a, &vec![ChainEvent::ReceivePacket { height: 1, packet: pid(42) }], 10).unwrap();
    assert_eq!(obs.len(), 3);
    match &obs[1] {
        Observation::MissingSendTime(SentKind::Packet, p) => assert_eq!(p, &pid(42)),
        other => panic!("unexpected {:?}", other),
    }
    assert!(!obs.iter().any(|o| matches!(o, Observation::Sample(..))));
}

#[test]
fn timeout_without_recorded_send_warns() {
    let (mut a, b) = linked_pair();
    let obs = a
        .handle_events(&b, &vec![ChainEvent::TimeoutOnClosePacket { height: 2, packet: pid(1) }], 5)
        .unwrap();
    assert!(matches!(obs[0], Observation::Increment(CounterKind::ReceivedTimeouts)));
    assert!(matches!(obs[1], Observation::MissingSendTime(SentKind::TimeoutPacket, _)));
    assert_eq!(a.counts().received_timeouts, 1);
}

#[test]
fn confirmation_before_linkage_fails_every_time() {
    let mut a = MetricsHandler::new(1);
    let b = MetricsHandler::new(2);
    let events = vec![
        ChainEvent::SendPacket { height: 5, packet: pid(1) },
        ChainEvent::ReceivePacket { height: 5, packet: pid(1) },
    ];
    for _ in 0..3 {
        assert!(matches!(a.handle_events(&b, &events, 10), Err(LinkError::NotLinked)));
    }
    assert_eq!(a.counts().received_send_packets, 0);
    assert_eq!(a.recorded_time(SentKind::Packet, &pid(1)), None);
    assert!(matches!(a.handle_messages(&b, &vec![msg(ACK, 1)]), Err(LinkError::NotLinked)));
    assert!(matches!(a.observe_last_packet_time(&b, &pid(1), SentKind::Packet, 3), Err(LinkError::NotLinked)));
}

#[test]
fn send_only_batch_before_linkage_succeeds() {
    let mut a = MetricsHandler::new(1);
    let b = MetricsHandler::new(2);
    let obs = a.handle_events(&b, &vec![ChainEvent::SendPacket { height: 5, packet: pid(1) }], 10).unwrap();
    assert!(matches!(obs[0], Observation::Increment(CounterKind::ReceivedSendPackets)));
    assert_eq!(a.recorded_time(SentKind::Packet, &pid(1)), Some(10));
    assert!(a.handle_messages(&b, &vec![msg("/unknown", 3)]).unwrap().is_empty());
}

#[test]
fn linking_twice_is_refused() {
    let (mut a, mut b) = linked_pair();
    assert_eq!(a.link_with_counterparty(&mut b), Err(LinkError::AlreadyLinked));
    let mut c = MetricsHandler::new(3);
    let mut d = MetricsHandler::new(3);
    assert_eq!(c.link_with_counterparty(&mut d), Err(LinkError::SameHandler));
    assert_eq!(a.counterparty_id(), Some(2));
    assert_eq!(b.counterparty_id(), Some(1));
    assert!(a.is_linked_to(&b) && b.is_linked_to(&a));
}

#[test]
fn watermark_filters_stale_events() {
    let (mut a, b) = linked_pair();
    a.handle_events(&b, &vec![ChainEvent::SendPacket { height: 100, packet: pid(1) }], 1).unwrap();
    assert_eq!(a.latest_processed_height(), 100);
    let obs = a
        .handle_events(
            &b,
            &vec![
                ChainEvent::SendPacket { height: 99, packet: pid(2) },
                ChainEvent::SendPacket { height: 100, packet: pid(3) },
                ChainEvent::Other,
            ],
            2,
        )
        .unwrap();
    assert_eq!(obs.len(), 2);
    assert_eq!(a.recorded_time(SentKind::Packet, &pid(2)), None);
    assert_eq!(a.recorded_time(SentKind::Packet, &pid(3)), Some(2));
    assert_eq!(a.counts().received_send_packets, 2);
    assert_eq!(a.latest_processed_height(), 100);
}

#[test]
fn watermark_rises_to_batch_maximum_once() {
    let (mut a, b) = linked_pair();
    let obs = a
        .handle_events(
            &b,
            &vec![
                ChainEvent::SendPacket { height: 7, packet: pid(1) },
                ChainEvent::SendPacket { height: 3, packet: pid(2) },
            ],
            1,
        )
        .unwrap();
    // Both are admitted: the height check uses the watermark from before the batch.
    assert_eq!(a.counts().received_send_packets, 2);
    assert_eq!(a.latest_processed_height(), 7);
    assert!(matches!(obs[2], Observation::SetGauge(GaugeKind::LatestProcessedHeight, 7)));
    a.handle_events(&b, &vec![ChainEvent::SendPacket { height: 5, packet: pid(4) }], 2).unwrap();
    assert_eq!(a.latest_processed_height(), 7);
}

#[test]
fn linked_stores_are_visible_both_ways() {
    let (mut a, mut b) = linked_pair();
    a.handle_events(&b, &vec![ChainEvent::SendPacket { height: 1, packet: pid(8) }], 40).unwrap();
    b.handle_events(&a, &vec![ChainEvent::SendPacket { height: 1, packet: pid(9) }], 70).unwrap();
    let seen_by_b = b.observe_last_packet_time(&a, &pid(8), SentKind::Packet, 100).unwrap();
    assert!(matches!(seen_by_b, Observation::Sample(HistogramKind::SentPacketTime, 60)));
    let seen_by_a = a.observe_last_packet_time(&b, &pid(9), SentKind::Packet, 100).unwrap();
    assert!(matches!(seen_by_a, Observation::Sample(HistogramKind::SentPacketTime, 30)));
}

#[test]
fn latency_clamps_when_clock_goes_back() {
    let (mut a, mut b) = linked_pair();
    a.handle_events(&b, &vec![ChainEvent::SendPacket { height: 1, packet: pid(1) }], 500).unwrap();
    let obs = b.handle_events(&a, &vec![ChainEvent::ReceivePacket { height: 1, packet: pid(1) }], 400).unwrap();
    assert!(matches!(obs[1], Observation::Sample(HistogramKind::SentPacketTime, 0)));
}

#[test]
fn undelivered_is_clamped() {
    assert_eq!(undelivered(5, 3), 2);
    assert_eq!(undelivered(3, 5), 0);
    assert_eq!(undelivered(0, u64::MAX), 0);
    assert_eq!(undelivered(u64::MAX, 0), u64::MAX);
}

#[test]
fn acknowledgement_messages_use_post_increment_count() {
    let (mut a, mut b) = linked_pair();
    // b has seen one acknowledgement arrive.
    b.handle_events(&a, &vec![ChainEvent::AcknowledgePacket { height: 1, packet: pid(1) }], 1).unwrap();
    let obs = a.handle_messages(&b, &vec![msg(ACK, 1)]).unwrap();
    assert!(matches!(obs[0], Observation::Increment(CounterKind::SentAcknowledgments)));
    assert!(matches!(obs[1], Observation::SetGauge(GaugeKind::UndeliveredAcknowledgements, 0)));
    let obs = a.handle_messages(&b, &vec![msg(ACK, 1), msg(ACK, 1)]).unwrap();
    assert!(matches!(obs[3], Observation::SetGauge(GaugeKind::UndeliveredAcknowledgements, 2)));
    assert_eq!(a.counts().sent_acknowledgments, 3);
    assert_eq!(a.counts().undelivered_acknowledgements, 2);
}

#[test]
fn receive_messages_use_pre_increment_count() {
    let (mut a, b) = linked_pair();
    let obs = a.handle_messages(&b, &vec![msg(RECV, 1), msg(RECV, 1), msg("/x", 1)]).unwrap();
    assert_eq!(obs.len(), 4);
    assert!(matches!(obs[0], Observation::SetGauge(GaugeKind::UndeliveredPackets, 0)));
    assert!(matches!(obs[1], Observation::Increment(CounterKind::SentPackets)));
    assert!(matches!(obs[2], Observation::SetGauge(GaugeKind::UndeliveredPackets, 1)));
    assert_eq!(a.counts().sent_packets, 2);
}

#[test]
fn undelivered_never_negative_when_counterparty_ahead() {
    let (mut a, mut b) = linked_pair();
    let recvs = vec![
        ChainEvent::ReceivePacket { height: 1, packet: pid(1) },
        ChainEvent::ReceivePacket { height: 1, packet: pid(2) },
        ChainEvent::ReceivePacket { height: 1, packet: pid(3) },
    ];
    b.handle_events(&a, &recvs, 1).unwrap();
    let obs = a.handle_messages(&b, &vec![msg(RECV, 1)]).unwrap();
    assert!(matches!(obs[0], Observation::SetGauge(GaugeKind::UndeliveredPackets, 0)));
}

#[test]
fn timeouts_are_counted() {
    let mut a = MetricsHandler::new(1);
    let obs = a.handle_timeouts(&vec![msg(TIMEOUT, 1), msg(ACK, 1), msg(TIMEOUT_ON_CLOSE, 1)]);
    assert_eq!(obs.len(), 2);
    assert!(matches!(obs[0], Observation::Increment(CounterKind::SentTimeoutPackets)));
    assert_eq!(a.counts().sent_timeout_packets, 2);
}

#[test]
fn client_updates_observe_delta() {
    let (mut a, b) = linked_pair();
    let update = |h: u64| ChainEvent::UpdateClient {
        height: h,
        client_id: "07-tendermint-0".to_string(),
        consensus_height: ClientHeight { revision_number: 1, revision_height: h },
    };
    let obs = a.handle_events(&b, &vec![update(4)], 100).unwrap();
    assert_eq!(obs.len(), 2);
    match &obs[0] {
        Observation::ClientHeight { client_id, revision_number, revision_height } => {
            assert_eq!(client_id, "07-tendermint-0");
            assert_eq!((*revision_number, *revision_height), (1, 4));
        },
        other => panic!("unexpected {:?}", other),
    }
    let obs = a.handle_events(&b, &vec![update(5)], 175).unwrap();
    assert!(matches!(obs[0], Observation::Sample(HistogramKind::SentUpdateClientTime, 75)));
    assert_eq!(a.last_update_client_time(), Some(175));
}

#[test]
fn delta_time_slot() {
    let mut slot = None;
    assert_eq!(observe_delta_time(&mut slot, 10), None);
    assert_eq!(slot, Some(10));
    assert_eq!(observe_delta_time(&mut slot, 25), Some(15));
    assert_eq!(slot, Some(25));
}

#[test]
fn message_tags_are_classified() {
    assert_eq!(classify(&ACK.to_string()), MessageKind::Acknowledgement);
    assert_eq!(classify(&RECV.to_string()), MessageKind::RecvPacket);
    assert_eq!(classify(&TIMEOUT.to_string()), MessageKind::Timeout);
    assert_eq!(classify(&TIMEOUT_ON_CLOSE.to_string()), MessageKind::TimeoutOnClose);
    assert_eq!(classify(&"/ibc.core.client.v1.MsgUpdateClient".to_string()), MessageKind::Other);
}

#[test]
fn recording_twice_keeps_latest_instant() {
    let (mut a, b) = linked_pair();
    let events = vec![
        ChainEvent::SendPacket { height: 1, packet: pid(1) },
        ChainEvent::SendPacket { height: 1, packet: PacketId::new(1, "channel-1".to_string(), "transfer".to_string()) },
    ];
    a.handle_events(&b, &events, 5).unwrap();
    a.handle_events(&b, &vec![ChainEvent::SendPacket { height: 1, packet: pid(1) }], 9).unwrap();
    assert_eq!(a.recorded_time(SentKind::Packet, &pid(1)), Some(9));
    let other = PacketId::new(1, "channel-1".to_string(), "transfer".to_string());
    assert_eq!(a.recorded_time(SentKind::Packet, &other), Some(5));
    assert_eq!(a.recorded_time(SentKind::Acknowledgment, &pid(1)), None);
}
