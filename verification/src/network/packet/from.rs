//! Encoding of packets into bytes.
use super::super::{ARRAY_CID, OBJECT_CID, PING_CID, PONG_CID};
use super::{encode_packet, Packet, PacketView};
use vstd::bytes::*;
use vstd::prelude::*;

verus! {

impl Packet {
    /// The bytes that encode this packet; an unknown packet encodes to no bytes.
    pub fn to_bytes(self) -> (output: Vec<u8>)
        ensures
            output@ == encode_packet(self@),
    {
        match self {
            Packet::Ping { timestamp } => ping(timestamp),
            Packet::Pong { timestamp } => pong(timestamp),
            Packet::Object { id, data } => object(id, data),
            Packet::Array { id, data } => array(id, data),
            Packet::Unknown => Vec::new(),
        }
    }
}

fn ping(timestamp: u64) -> (output: Vec<u8>)
    ensures
        output@ == encode_packet(PacketView::Ping { timestamp }),
{
    let mut timestamp_bytes = u64_to_le_bytes(timestamp);
    let mut output = Vec::new();
    output.push(PING_CID);
    output.append(&mut timestamp_bytes);
    assert(output@ =~= seq![PING_CID] + spec_u64_to_le_bytes(timestamp));
    output
}

fn pong(timestamp: u64) -> (output: Vec<u8>)
    ensures
        output@ == encode_packet(PacketView::Pong { timestamp }),
{
    let mut timestamp_bytes = u64_to_le_bytes(timestamp);
    let mut output = Vec::new();
    output.push(PONG_CID);
    output.append(&mut timestamp_bytes);
    assert(output@ =~= seq![PONG_CID] + spec_u64_to_le_bytes(timestamp));
    output
}

fn object(id: u16, data: Vec<u8>) -> (output: Vec<u8>)
    ensures
        output@ == encode_packet(PacketView::Object { id, data: data@ }),
{
    let mut data = data;
    let ghost payload = data@;
    let mut id_bytes = u16_to_le_bytes(id);
    let mut output = Vec::new();
    output.push(OBJECT_CID);
    output.append(&mut id_bytes);
    output.append(&mut data);
    assert(output@ =~= seq![OBJECT_CID] + spec_u16_to_le_bytes(id) + payload);
    output
}

fn array(id: u16, data: Vec<u8>) -> (output: Vec<u8>)
    ensures
        output@ == encode_packet(PacketView::Array { id, data: data@ }),
{
    let mut data = data;
    let ghost payload = data@;
    let mut id_bytes = u16_to_le_bytes(id);
    let mut output = Vec::new();
    output.push(ARRAY_CID);
    output.append(&mut id_bytes);
    output.append(&mut data);
    assert(output@ =~= seq![ARRAY_CID] + spec_u16_to_le_bytes(id) + payload);
    output
}

} // verus!
