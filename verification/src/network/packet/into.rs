//! Decoding of packets from bytes.
use super::super::{ARRAY_CID, OBJECT_CID, PING_CID, PONG_CID};
use super::{decode_packet, Packet, PacketView};
use vstd::bytes::*;
use vstd::prelude::*;
use vstd::slice::{slice_subrange, slice_to_vec};

verus! {

impl Packet {
    /// The packet that `data` encodes; `Unknown` when the bytes are not a valid packet.
    pub fn from_bytes(data: &[u8]) -> (packet: Packet)
        ensures
            packet@ == decode_packet(data@),
    {
        if data.len() == 0 {
            return Packet::Unknown;
        }
        let cid = data[0];
        if cid == PING_CID {
            ping(data)
        } else if cid == PONG_CID {
            pong(data)
        } else if cid == OBJECT_CID {
            object(data)
        } else if cid == ARRAY_CID {
            array(data)
        } else {
            Packet::Unknown
        }
    }
}

/// A ping is 1 byte of channel identifier and 8 bytes of timestamp.
fn ping(data: &[u8]) -> (packet: Packet)
    ensures
        packet@ == if data@.len() == 9 {
            PacketView::Ping { timestamp: spec_u64_from_le_bytes(data@.subrange(1, 9)) }
        } else {
            PacketView::Unknown
        },
{
    if data.len() != 9 {
        return Packet::Unknown;
    }
    Packet::Ping { timestamp: u64_from_le_bytes(slice_subrange(data, 1, 9)) }
}

/// A pong is 1 byte of channel identifier and 8 bytes of timestamp.
fn pong(data: &[u8]) -> (packet: Packet)
    ensures
        packet@ == if data@.len() == 9 {
            PacketView::Pong { timestamp: spec_u64_from_le_bytes(data@.subrange(1, 9)) }
        } else {
            PacketView::Unknown
        },
{
    if data.len() != 9 {
        return Packet::Unknown;
    }
    Packet::Pong { timestamp: u64_from_le_bytes(slice_subrange(data, 1, 9)) }
}

/// An object is 1 byte of channel identifier, 2 bytes of identifier and the data.
fn object(data: &[u8]) -> (packet: Packet)
    ensures
        packet@ == if data@.len() >= 3 {
            PacketView::Object {
                id: spec_u16_from_le_bytes(data@.subrange(1, 3)),
                data: data@.subrange(3, data@.len() as int),
            }
        } else {
            PacketView::Unknown
        },
{
    if data.len() < 3 {
        return Packet::Unknown;
    }
    let id = u16_from_le_bytes(slice_subrange(data, 1, 3));
    Packet::Object { id, data: slice_to_vec(slice_subrange(data, 3, data.len())) }
}

/// An array is 1 byte of channel identifier, 2 bytes of identifier and the data.
fn array(data: &[u8]) -> (packet: Packet)
    ensures
        packet@ == if data@.len() >= 3 {
            PacketView::Array {
                id: spec_u16_from_le_bytes(data@.subrange(1, 3)),
                data: data@.subrange(3, data@.len() as int),
            }
        } else {
            PacketView::Unknown
        },
{
    if data.len() < 3 {
        return Packet::Unknown;
    }
    let id = u16_from_le_bytes(slice_subrange(data, 1, 3));
    Packet::Array { id, data: slice_to_vec(slice_subrange(data, 3, data.len())) }
}

} // verus!
