use vstd::prelude::*;

verus! {

/// The identity of an in-flight packet, seen from its destination side:
/// sequence number, destination channel and destination port.
#[derive(Debug)]
pub struct PacketId {
    pub sequence: u64,
    pub destination_channel: String,
    pub destination_port: String,
}

/// The mathematical identity of a packet.
pub type PacketKey = (u64, Seq<char>, Seq<char>);

impl View for PacketId {
    type V = PacketKey;

    open spec fn view(&self) -> PacketKey {
        (self.sequence, self.destination_channel@, self.destination_port@)
    }
}

impl PacketId {
    pub fn new(sequence: u64, destination_channel: String, destination_port: String) -> (r: PacketId)
        ensures
            r.sequence == sequence,
            r.destination_channel == destination_channel,
            r.destination_port == destination_port,
    {
        PacketId { sequence, destination_channel, destination_port }
    }

    /// A copy with the same field values.
    pub fn duplicate(&self) -> (r: PacketId)
        ensures
            r == *self,
    {
        PacketId {
            sequence: self.sequence,
            destination_channel: self.destination_channel.clone(),
            destination_port: self.destination_port.clone(),
        }
    }
}

impl PartialEq for PacketId {
    fn eq(&self, o: &PacketId) -> (r: bool)
        ensures
            r == (self@ == o@),
    {
        self.sequence == o.sequence && self.destination_channel == o.destination_channel
            && self.destination_port == o.destination_port
    }
}

impl vstd::std_specs::cmp::PartialEqSpecImpl for PacketId {
    open spec fn obeys_eq_spec() -> bool {
        true
    }

    open spec fn eq_spec(&self, o: &PacketId) -> bool {
        self@ == o@
    }
}

} // verus!
