//! Control packets carried inside binary WebSocket frames, with 128-bit timestamps.
use super::frame::{frame_to_packet, Frame, FrameView};
use super::{PING_CID, PONG_CID};
use vstd::bytes::*;
use vstd::prelude::*;

verus! {

/// A control packet.
#[derive(Debug)]
pub enum Packet {
    Ping { timestamp: u128 },
    Pong { timestamp: u128 },
    Unknown,
}

/// Mathematical model of a control [`Packet`].
pub enum PacketView {
    Ping { timestamp: u128 },
    Pong { timestamp: u128 },
    Unknown,
}

impl View for Packet {
    type V = PacketView;

    open spec fn view(&self) -> PacketView {
        match self {
            Packet::Ping { timestamp } => PacketView::Ping { timestamp: *timestamp },
            Packet::Pong { timestamp } => PacketView::Pong { timestamp: *timestamp },
            Packet::Unknown => PacketView::Unknown,
        }
    }
}

/// The frame that carries a control packet.
pub open spec fn packet_to_frame(packet: PacketView) -> FrameView {
    match packet {
        PacketView::Ping { timestamp } => FrameView::Binary {
            data: seq![PING_CID] + spec_u128_to_le_bytes(timestamp),
        },
        PacketView::Pong { timestamp } => FrameView::Binary {
            data: seq![PONG_CID] + spec_u128_to_le_bytes(timestamp),
        },
        PacketView::Unknown => FrameView::Unknown,
    }
}

impl Frame {
    /// The frame that carries a control packet; an unknown packet gives an unknown frame.
    pub fn from_packet(packet: Packet) -> (frame: Frame)
        ensures
            frame@ == packet_to_frame(packet@),
    {
        match packet {
            Packet::Ping { timestamp } => ping(timestamp),
            Packet::Pong { timestamp } => pong(timestamp),
            Packet::Unknown => Frame::Unknown,
        }
    }
}

fn ping(timestamp: u128) -> (frame: Frame)
    ensures
        frame@ == packet_to_frame(PacketView::Ping { timestamp }),
{
    let mut timestamp_bytes = u128_to_le_bytes(timestamp);
    let mut data = Vec::new();
    data.push(PING_CID);
    data.append(&mut timestamp_bytes);
    assert(data@ =~= seq![PING_CID] + spec_u128_to_le_bytes(timestamp));
    Frame::new_binary(data)
}

fn pong(timestamp: u128) -> (frame: Frame)
    ensures
        frame@ == packet_to_frame(PacketView::Pong { timestamp }),
{
    let mut timestamp_bytes = u128_to_le_bytes(timestamp);
    let mut data = Vec::new();
    data.push(PONG_CID);
    data.append(&mut timestamp_bytes);
    assert(data@ =~= seq![PONG_CID] + spec_u128_to_le_bytes(timestamp));
    Frame::new_binary(data)
}

/// A control packet sent in a frame is read back unchanged from that frame.
pub proof fn lemma_frame_roundtrip(packet: PacketView)
    ensures
        frame_to_packet(packet_to_frame(packet)) == packet,
{
    lemma_auto_spec_u128_to_from_le_bytes();
    match packet {
        PacketView::Ping { timestamp } => {
            let data = seq![PING_CID] + spec_u128_to_le_bytes(timestamp);
            assert(data.subrange(1, 17) =~= spec_u128_to_le_bytes(timestamp));
        },
        PacketView::Pong { timestamp } => {
            let data = seq![PONG_CID] + spec_u128_to_le_bytes(timestamp);
            assert(data.subrange(1, 17) =~= spec_u128_to_le_bytes(timestamp));
        },
        PacketView::Unknown => {},
    }
}

/// A text frame never carries a control packet.
pub proof fn lemma_text_frame_is_unknown(text: Seq<char>)
    ensures
        frame_to_packet(FrameView::Text { text }) is Unknown,
{
}

} // verus!
