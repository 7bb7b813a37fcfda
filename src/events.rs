use vstd::prelude::*;
use crate::packet::PacketId;

verus! {

/// A client height: revision number and revision height.
#[derive(Clone, Copy, Debug, PartialEq, Eq, Structural)]
pub struct ClientHeight {
    pub revision_number: u64,
    pub revision_height: u64,
}

/// A protocol event observed on a chain, with the chain height at which it
/// happened where the category carries one.
#[derive(Debug)]
pub enum ChainEvent {
    SendPacket { height: u64, packet: PacketId },
    ReceivePacket { height: u64, packet: PacketId },
    WriteAcknowledgement { height: u64, packet: PacketId },
    AcknowledgePacket { height: u64, packet: PacketId },
    TimeoutPacket { height: u64, packet: PacketId },
    TimeoutOnClosePacket { height: u64, packet: PacketId },
    UpdateClient { height: u64, client_id: String, consensus_height: ClientHeight },
    Other,
}

/// The chain height an event carries, if its category has one.
pub open spec fn event_height(e: ChainEvent) -> Option<u64> {
    match e {
        ChainEvent::SendPacket { height, .. } => Some(height),
        ChainEvent::ReceivePacket { height, .. } => Some(height),
        ChainEvent::WriteAcknowledgement { height, .. } => Some(height),
        ChainEvent::AcknowledgePacket { height, .. } => Some(height),
        ChainEvent::TimeoutPacket { height, .. } => Some(height),
        ChainEvent::TimeoutOnClosePacket { height, .. } => Some(height),
        ChainEvent::UpdateClient { height, .. } => Some(height),
        ChainEvent::Other => None,
    }
}

/// Whether handling the event reads the counterparty's stores.
pub open spec fn is_confirmation(e: ChainEvent) -> bool {
    match e {
        ChainEvent::ReceivePacket { .. } => true,
        ChainEvent::AcknowledgePacket { .. } => true,
        ChainEvent::TimeoutPacket { .. } => true,
        ChainEvent::TimeoutOnClosePacket { .. } => true,
        _ => false,
    }
}

impl ChainEvent {
    pub fn height(&self) -> (r: Option<u64>)
        ensures
            r == event_height(*self),
    {
        match self {
            ChainEvent::SendPacket { height, .. } => Some(*height),
            ChainEvent::ReceivePacket { height, .. } => Some(*height),
            ChainEvent::WriteAcknowledgement { height, .. } => Some(*height),
            ChainEvent::AcknowledgePacket { height, .. } => Some(*height),
            ChainEvent::TimeoutPacket { height, .. } => Some(*height),
            ChainEvent::TimeoutOnClosePacket { height, .. } => Some(*height),
            ChainEvent::UpdateClient { height, .. } => Some(*height),
            ChainEvent::Other => None,
        }
    }

    pub fn confirms(&self) -> (r: bool)
        ensures
            r == is_confirmation(*self),
    {
        match self {
            ChainEvent::ReceivePacket { .. } => true,
            ChainEvent::AcknowledgePacket { .. } => true,
            ChainEvent::TimeoutPacket { .. } => true,
            ChainEvent::TimeoutOnClosePacket { .. } => true,
            _ => false,
        }
    }
}

/// An outbound message: its type tag and its serialized payload.
#[derive(Debug)]
pub struct OutboundMessage {
    pub type_url: String,
    pub value: Vec<u8>,
}

/// The categories of outbound message that the accounting distinguishes.
#[derive(Clone, Copy, Debug, PartialEq, Eq, Structural)]
pub enum MessageKind {
    Acknowledgement,
    RecvPacket,
    Timeout,
    TimeoutOnClose,
    Other,
}

pub open spec fn message_kind(tag: Seq<char>) -> MessageKind {
    if tag == "/ibc.core.channel.v1.MsgAcknowledgement"@ {
        MessageKind::Acknowledgement
    } else if tag == "/ibc.core.channel.v1.MsgRecvPacket"@ {
        MessageKind::RecvPacket
    } else if tag == "/ibc.core.channel.v1.MsgTimeout"@ {
        MessageKind::Timeout
    } else if tag == "/ibc.core.channel.v1.MsgTimeoutOnClose"@ {
        MessageKind::TimeoutOnClose
    } else {
        MessageKind::Other
    }
}

/// The category of a message, from its type tag.
pub fn classify(type_url: &String) -> (r: MessageKind)
    ensures
        r == message_kind(type_url@),
{
    if *type_url == "/ibc.core.channel.v1.MsgAcknowledgement".to_owned() {
        MessageKind::Acknowledgement
    } else if *type_url == "/ibc.core.channel.v1.MsgRecvPacket".to_owned() {
        MessageKind::RecvPacket
    } else if *type_url == "/ibc.core.channel.v1.MsgTimeout".to_owned() {
        MessageKind::Timeout
    } else if *type_url == "/ibc.core.channel.v1.MsgTimeoutOnClose".to_owned() {
        MessageKind::TimeoutOnClose
    } else {
        MessageKind::Other
    }
}

} // verus!
