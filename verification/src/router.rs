//! The callback surface an application module exposes to the core. The
//! core invokes validation callbacks during `validate` and execution
//! callbacks during `execute`, never mixed.

use vstd::prelude::*;

use crate::chan_msgs::Packet;
use crate::errors::{ChannelError, PacketError};
use crate::events::ModuleExtras;
use crate::identifier::{ChannelId, PortId};

verus! {

/// Per-step callbacks of an application module bound to a port. What a
/// callback decides or returns is the application's business; the core
/// threads it through.
pub trait Module: Sized {
    /// Negotiates the version for a channel this chain initiates.
    fn on_chan_open_init_validate(
        &self,
        port_id: &PortId,
        channel_id: &ChannelId,
        version_proposal: &String,
    ) -> Result<String, ChannelError>;

    fn on_chan_open_init_execute(
        &mut self,
        port_id: &PortId,
        channel_id: &ChannelId,
        version_proposal: &String,
    ) -> Result<(ModuleExtras, String), ChannelError>;

    /// Negotiates the version for a channel the counterparty initiated.
    fn on_chan_open_try_validate(
        &self,
        port_id: &PortId,
        channel_id: &ChannelId,
        counterparty_version: &String,
    ) -> Result<String, ChannelError>;

    fn on_chan_open_try_execute(
        &mut self,
        port_id: &PortId,
        channel_id: &ChannelId,
        counterparty_version: &String,
    ) -> Result<(ModuleExtras, String), ChannelError>;

    fn on_chan_open_ack_validate(
        &self,
        port_id: &PortId,
        channel_id: &ChannelId,
        counterparty_version: &String,
    ) -> Result<(), ChannelError>;

    fn on_chan_open_ack_execute(
        &mut self,
        port_id: &PortId,
        channel_id: &ChannelId,
        counterparty_version: &String,
    ) -> Result<ModuleExtras, ChannelError>;

    fn on_chan_open_confirm_validate(&self, port_id: &PortId, channel_id: &ChannelId) -> Result<
        (),
        ChannelError,
    >;

    fn on_chan_open_confirm_execute(&mut self, port_id: &PortId, channel_id: &ChannelId)
        -> Result<ModuleExtras, ChannelError>;

    fn on_chan_close_init_validate(&self, port_id: &PortId, channel_id: &ChannelId) -> Result<
        (),
        ChannelError,
    >;

    fn on_chan_close_init_execute(&mut self, port_id: &PortId, channel_id: &ChannelId) -> Result<
        ModuleExtras,
        ChannelError,
    >;

    fn on_chan_close_confirm_validate(&self, port_id: &PortId, channel_id: &ChannelId) -> Result<
        (),
        ChannelError,
    >;

    fn on_chan_close_confirm_execute(&mut self, port_id: &PortId, channel_id: &ChannelId)
        -> Result<ModuleExtras, ChannelError>;

    /// Produces the acknowledgement for a received packet.
    fn on_recv_packet_execute(&mut self, packet: &Packet) -> (ModuleExtras, Vec<u8>);

    fn on_acknowledgement_packet_validate(&self, packet: &Packet, ack: &Vec<u8>) -> Result<
        (),
        PacketError,
    >;

    fn on_acknowledgement_packet_execute(&mut self, packet: &Packet, ack: &Vec<u8>) -> (
        ModuleExtras,
        Result<(), PacketError>,
    );

    fn on_timeout_packet_validate(&self, packet: &Packet) -> Result<(), PacketError>;

    fn on_timeout_packet_execute(&mut self, packet: &Packet) -> (
        ModuleExtras,
        Result<(), PacketError>,
    );
}

/// A module that accepts every callback, adds no events or logs, and
/// acknowledges every packet with a single success byte.
pub struct AcceptingModule {}

impl AcceptingModule {
    pub fn new() -> (r: AcceptingModule) {
        AcceptingModule {}
    }
}

impl Module for AcceptingModule {
    fn on_chan_open_init_validate(
        &self,
        port_id: &PortId,
        channel_id: &ChannelId,
        version_proposal: &String,
    ) -> Result<String, ChannelError> {
        Ok(version_proposal.clone())
    }

    fn on_chan_open_init_execute(
        &mut self,
        port_id: &PortId,
        channel_id: &ChannelId,
        version_proposal: &String,
    ) -> Result<(ModuleExtras, String), ChannelError> {
        Ok((ModuleExtras::empty(), version_proposal.clone()))
    }

    fn on_chan_open_try_validate(
        &self,
        port_id: &PortId,
        channel_id: &ChannelId,
        counterparty_version: &String,
    ) -> Result<String, ChannelError> {
        Ok(counterparty_version.clone())
    }

    fn on_chan_open_try_execute(
        &mut self,
        port_id: &PortId,
        channel_id: &ChannelId,
        counterparty_version: &String,
    ) -> Result<(ModuleExtras, String), ChannelError> {
        Ok((ModuleExtras::empty(), counterparty_version.clone()))
    }

    fn on_chan_open_ack_validate(
        &self,
        port_id: &PortId,
        channel_id: &ChannelId,
        counterparty_version: &String,
    ) -> Result<(), ChannelError> {
        Ok(())
    }

    fn on_chan_open_ack_execute(
        &mut self,
        port_id: &PortId,
        channel_id: &ChannelId,
        counterparty_version: &String,
    ) -> Result<ModuleExtras, ChannelError> {
        Ok(ModuleExtras::empty())
    }

    fn on_chan_open_confirm_validate(&self, port_id: &PortId, channel_id: &ChannelId) -> Result<
        (),
        ChannelError,
    > {
        Ok(())
    }

    fn on_chan_open_confirm_execute(&mut self, port_id: &PortId, channel_id: &ChannelId)
        -> Result<ModuleExtras, ChannelError> {
        Ok(ModuleExtras::empty())
    }

    fn on_chan_close_init_validate(&self, port_id: &PortId, channel_id: &ChannelId) -> Result<
        (),
        ChannelError,
    > {
        Ok(())
    }

    fn on_chan_close_init_execute(&mut self, port_id: &PortId, channel_id: &ChannelId) -> Result<
        ModuleExtras,
        ChannelError,
    > {
        Ok(ModuleExtras::empty())
    }

    fn on_chan_close_confirm_validate(&self, port_id: &PortId, channel_id: &ChannelId) -> Result<
        (),
        ChannelError,
    > {
        Ok(())
    }

    fn on_chan_close_confirm_execute(&mut self, port_id: &PortId, channel_id: &ChannelId)
        -> Result<ModuleExtras, ChannelError> {
        Ok(ModuleExtras::empty())
    }

    fn on_recv_packet_execute(&mut self, packet: &Packet) -> (ModuleExtras, Vec<u8>) {
        let mut ack: Vec<u8> = Vec::new();
        ack.push(1u8);
        (ModuleExtras::empty(), ack)
    }

    fn on_acknowledgement_packet_validate(&self, packet: &Packet, ack: &Vec<u8>) -> Result<
        (),
        PacketError,
    > {
        Ok(())
    }

    fn on_acknowledgement_packet_execute(&mut self, packet: &Packet, ack: &Vec<u8>) -> (
        ModuleExtras,
        Result<(), PacketError>,
    ) {
        (ModuleExtras::empty(), Ok(()))
    }

    fn on_timeout_packet_validate(&self, packet: &Packet) -> Result<(), PacketError> {
        Ok(())
    }

    fn on_timeout_packet_execute(&mut self, packet: &Packet) -> (
        ModuleExtras,
        Result<(), PacketError>,
    ) {
        (ModuleExtras::empty(), Ok(()))
    }
}

} // verus!
