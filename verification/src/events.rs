//! Typed events. Each handler emits one typed event for its outcome plus a
//! generic `Message` event; modules may append their own.

use vstd::prelude::*;

use crate::chan_msgs::Packet;
use crate::height::Height;
use crate::identifier::{ChannelId, ClientId, ConnectionId, PortId};

verus! {

/// Which subsystem a generic `Message` event belongs to.
#[derive(Clone, Copy, Debug, PartialEq, Eq, Structural)]
pub enum MessageEvent {
    Client,
    Connection,
    Channel,
    Module,
}

/// An event record raised by an application module.
#[derive(Debug, PartialEq, Eq)]
pub struct ModuleEvent {
    pub kind: String,
}

/// What a module hands back from an execution callback: extra events and
/// log lines to append after the handler's own.
#[derive(Debug, PartialEq, Eq)]
pub struct ModuleExtras {
    pub events: Vec<ModuleEvent>,
    pub log: Vec<String>,
}

impl ModuleExtras {
    pub fn empty() -> (r: ModuleExtras)
        ensures
            r.events@.len() == 0,
            r.log@.len() == 0,
    {
        ModuleExtras { events: Vec::new(), log: Vec::new() }
    }
}

/// The events the core emits.
#[derive(Debug, PartialEq, Eq)]
pub enum IbcEvent {
    Message(MessageEvent),
    CreateClient { client_id: ClientId, consensus_height: Height },
    UpdateClient { client_id: ClientId, consensus_height: Height },
    ClientMisbehaviour { client_id: ClientId },
    OpenInitConnection { conn_id_on_a: ConnectionId, client_id_on_a: ClientId },
    OpenTryConnection { conn_id_on_b: ConnectionId, client_id_on_b: ClientId },
    OpenAckConnection { conn_id_on_a: ConnectionId, conn_id_on_b: ConnectionId },
    OpenConfirmConnection { conn_id_on_b: ConnectionId },
    OpenInitChannel { port_id_on_a: PortId, chan_id_on_a: ChannelId, conn_id_on_a: ConnectionId },
    OpenTryChannel { port_id_on_b: PortId, chan_id_on_b: ChannelId, conn_id_on_b: ConnectionId },
    OpenAckChannel { port_id_on_a: PortId, chan_id_on_a: ChannelId, chan_id_on_b: ChannelId },
    OpenConfirmChannel { port_id_on_b: PortId, chan_id_on_b: ChannelId },
    CloseInitChannel { port_id_on_a: PortId, chan_id_on_a: ChannelId },
    CloseConfirmChannel {
        port_id_on_b: PortId,
        chan_id_on_b: ChannelId,
        port_id_on_a: PortId,
        chan_id_on_a: ChannelId,
        conn_id_on_b: ConnectionId,
    },
    SendPacket { packet: Packet },
    ReceivePacket { packet: Packet },
    WriteAcknowledgement { packet: Packet, ack: Vec<u8> },
    AcknowledgePacket { packet: Packet },
    TimeoutPacket { packet: Packet },
    Module(ModuleEvent),
}

} // verus!
