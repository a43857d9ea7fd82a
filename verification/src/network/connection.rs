//! Connection bookkeeping shared by the WebSocket clients: edge detection on the
//! connection status and the handling of incoming packets.
use super::packet::{Packet, PacketView};
use vstd::prelude::*;

verus! {

/// State of a connection to the server.
#[derive(Copy, Clone, Debug, Default, PartialEq, Eq, Structural)]
pub enum ConnectionStatus {
    #[default]
    Disconnected,
    Connecting,
    Connected,
    Error,
}

/// Whether observing `status` after `last` reports a fresh connection.
pub open spec fn reports_connected(last: ConnectionStatus, status: ConnectionStatus) -> bool {
    last != status && status == ConnectionStatus::Connected
}

/// Whether observing `status` after `last` reports a fresh disconnection.
pub open spec fn reports_disconnected(last: ConnectionStatus, status: ConnectionStatus) -> bool {
    last != status && status == ConnectionStatus::Disconnected
}

/// Remembers the last observed connection status, to report changes once.
pub struct ConnectionTracker {
    pub last_status: ConnectionStatus,
}

impl ConnectionTracker {
    /// Tracker that has observed a disconnected connection.
    pub fn new() -> (tracker: Self)
        ensures
            tracker.last_status == ConnectionStatus::Disconnected,
    {
        ConnectionTracker { last_status: ConnectionStatus::Disconnected }
    }

    /// Whether the connection became connected since the last observation; records `status`.
    pub fn has_connected(&mut self, status: ConnectionStatus) -> (connected: bool)
        ensures
            connected == reports_connected(old(self).last_status, status),
            old(self).last_status != status && status == ConnectionStatus::Connected ==> connected,
            connected ==> status == ConnectionStatus::Connected && old(self).last_status
                != ConnectionStatus::Connected,
            final(self).last_status == status,
    {
        let connected = self.last_status != status && status == ConnectionStatus::Connected;
        self.last_status = status;
        connected
    }

    /// Whether the connection became disconnected since the last observation; records `status`.
    pub fn has_disconnected(&mut self, status: ConnectionStatus) -> (disconnected: bool)
        ensures
            disconnected == reports_disconnected(old(self).last_status, status),
            old(self).last_status != status && status == ConnectionStatus::Disconnected
                ==> disconnected,
            disconnected ==> status == ConnectionStatus::Disconnected && old(self).last_status
                != ConnectionStatus::Disconnected,
            final(self).last_status == status,
    {
        let disconnected = self.last_status != status && status == ConnectionStatus::Disconnected;
        self.last_status = status;
        disconnected
    }
}

/// A change of status is reported at most once: observing the same status again reports nothing.
pub proof fn lemma_status_change_reported_once(last: ConnectionStatus, status: ConnectionStatus)
    ensures
        !reports_connected(status, status),
        !reports_disconnected(status, status),
        !(reports_connected(last, status) && reports_disconnected(last, status)),
{
}

/// Every change of the observed status into `Connected` is reported as a connection,
/// from whichever status it comes, and nothing else is; likewise for `Disconnected`. In
/// particular a client that only knows a connected flag reports its connection when the
/// flag turns on, and its disconnection when it turns off.
pub proof fn lemma_every_change_is_reported(last: ConnectionStatus, status: ConnectionStatus)
    ensures
        reports_connected(last, status) <==> (last != ConnectionStatus::Connected && status
            == ConnectionStatus::Connected),
        reports_disconnected(last, status) <==> (last != ConnectionStatus::Disconnected && status
            == ConnectionStatus::Disconnected),
        reports_connected(ConnectionStatus::Disconnected, ConnectionStatus::Connected),
        reports_connected(ConnectionStatus::Connecting, ConnectionStatus::Connected),
        reports_connected(ConnectionStatus::Error, ConnectionStatus::Connected),
        reports_connected(status_of_flag(false), status_of_flag(true)),
        reports_disconnected(status_of_flag(true), status_of_flag(false)),
{
}

/// The status `Connected` maps to from a plain connected flag.
pub open spec fn status_of_flag(connected: bool) -> ConnectionStatus {
    if connected {
        ConnectionStatus::Connected
    } else {
        ConnectionStatus::Disconnected
    }
}

/// The connection status that a plain connected flag stands for.
pub fn status_from_flag(connected: bool) -> (status: ConnectionStatus)
    ensures
        status == status_of_flag(connected),
{
    if connected {
        ConnectionStatus::Connected
    } else {
        ConnectionStatus::Disconnected
    }
}

/// What to do with a packet that arrived from the other side.
#[derive(Debug, PartialEq)]
pub enum IncomingAction {
    /// Send this packet back.
    Reply(Packet),
    /// Record this round-trip time, in milliseconds.
    UpdatePing(u32),
    /// Hand the packet to the application.
    Deliver(Packet),
}

/// Whether a packet may be handled at time `now`: a pong must not come from the future.
pub open spec fn incoming_allowed(packet: PacketView, now: u64) -> bool {
    match packet {
        PacketView::Pong { timestamp } => timestamp <= now,
        _ => true,
    }
}

/// Handles a packet received at `now` (milliseconds since the Unix epoch): a ping is
/// answered with a pong carrying the same timestamp, a pong gives the round-trip time,
/// and every other packet is delivered to the application.
pub fn handle_incoming(packet: Packet, now: u64) -> (action: IncomingAction)
    requires
        incoming_allowed(packet@, now),
    ensures
        match packet@ {
            PacketView::Ping { timestamp } => action matches IncomingAction::Reply(reply)
                && reply@ == (PacketView::Pong { timestamp }),
            PacketView::Pong { timestamp } => action == IncomingAction::UpdatePing(
                (now - timestamp) as u32,
            ),
            _ => action matches IncomingAction::Deliver(delivered) && delivered@ == packet@,
        },
{
    match packet {
        Packet::Ping { timestamp } => IncomingAction::Reply(Packet::Pong { timestamp }),
        Packet::Pong { timestamp } => IncomingAction::UpdatePing((now - timestamp) as u32),
        _ => IncomingAction::Deliver(packet),
    }
}

} // verus!
