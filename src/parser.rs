use vstd::prelude::*;

verus! {

/// A parser for one protocol: reads raw packet bytes into a structured
/// packet, and writes such a packet back as bytes.
pub trait ProtocolParser {
    type Packet;

    fn parse(&self, data: &[u8]) -> Self::Packet;

    fn serialize(&self, packet: &Self::Packet) -> Vec<u8>;
}

} // verus!
