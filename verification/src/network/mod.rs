//! Networking: the binary packet codec, WebSocket frames and the connection bookkeeping.
pub mod connection;
pub mod frame;
pub mod frame_packet;
pub mod packet;

use vstd::prelude::*;

verus! {

/// Channel identifier of a ping packet.
pub const PING_CID: u8 = 0x00;

/// Channel identifier of a pong packet.
pub const PONG_CID: u8 = 0x01;

/// Channel identifier of an object packet.
pub const OBJECT_CID: u8 = 0x02;

/// Channel identifier of an array packet.
pub const ARRAY_CID: u8 = 0x03;

} // verus!
