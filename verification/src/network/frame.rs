//! WebSocket frames and the control packets that travel inside binary frames.
use super::frame_packet::{Packet, PacketView};
use super::{PING_CID, PONG_CID};
use vstd::bytes::*;
use vstd::prelude::*;
use vstd::slice::slice_subrange;

verus! {

/// A WebSocket frame.
#[derive(Clone, Debug)]
pub enum Frame {
    Text { text: String },
    Binary { data: Vec<u8> },
    Unknown,
}

/// Mathematical model of a [`Frame`].
pub enum FrameView {
    Text { text: Seq<char> },
    Binary { data: Seq<u8> },
    Unknown,
}

impl View for Frame {
    type V = FrameView;

    open spec fn view(&self) -> FrameView {
        match self {
            Frame::Text { text } => FrameView::Text { text: text@ },
            Frame::Binary { data } => FrameView::Binary { data: data@ },
            Frame::Unknown => FrameView::Unknown,
        }
    }
}

/// The control packet that a frame carries; `Unknown` for anything but a well-formed
/// binary ping or pong frame.
pub open spec fn frame_to_packet(frame: FrameView) -> PacketView {
    match frame {
        FrameView::Binary { data } => if data.len() == 17 && data[0] == PING_CID {
            PacketView::Ping { timestamp: spec_u128_from_le_bytes(data.subrange(1, 17)) }
        } else if data.len() == 17 && data[0] == PONG_CID {
            PacketView::Pong { timestamp: spec_u128_from_le_bytes(data.subrange(1, 17)) }
        } else {
            PacketView::Unknown
        },
        _ => PacketView::Unknown,
    }
}

impl Frame {
    /// Text frame.
    pub fn new_text(text: String) -> (frame: Self)
        ensures
            frame@ == (FrameView::Text { text: text@ }),
    {
        Frame::Text { text }
    }

    /// Binary frame.
    pub fn new_binary(data: Vec<u8>) -> (frame: Self)
        ensures
            frame@ == (FrameView::Binary { data: data@ }),
    {
        Frame::Binary { data }
    }
}

impl Packet {
    /// The control packet that a frame carries; `Unknown` for anything but a well-formed
    /// binary ping or pong frame.
    pub fn from_frame(frame: Frame) -> (packet: Packet)
        ensures
            packet@ == frame_to_packet(frame@),
    {
        if let Frame::Binary { data } = frame {
            if data.len() == 0 {
                return Packet::Unknown;
            }
            let cid = data[0];
            if cid == PING_CID {
                ping(data.as_slice())
            } else if cid == PONG_CID {
                pong(data.as_slice())
            } else {
                Packet::Unknown
            }
        } else {
            Packet::Unknown
        }
    }
}

/// A ping frame is 1 byte of channel identifier and 16 bytes of timestamp.
fn ping(data: &[u8]) -> (packet: Packet)
    ensures
        packet@ == if data@.len() == 17 {
            PacketView::Ping { timestamp: spec_u128_from_le_bytes(data@.subrange(1, 17)) }
        } else {
            PacketView::Unknown
        },
{
    if data.len() != 17 {
        return Packet::Unknown;
    }
    Packet::Ping { timestamp: u128_from_le_bytes(slice_subrange(data, 1, 17)) }
}

/// A pong frame is 1 byte of channel identifier and 16 bytes of timestamp.
fn pong(data: &[u8]) -> (packet: Packet)
    ensures
        packet@ == if data@.len() == 17 {
            PacketView::Pong { timestamp: spec_u128_from_le_bytes(data@.subrange(1, 17)) }
        } else {
            PacketView::Unknown
        },
{
    if data.len() != 17 {
        return Packet::Unknown;
    }
    Packet::Pong { timestamp: u128_from_le_bytes(slice_subrange(data, 1, 17)) }
}

} // verus!
