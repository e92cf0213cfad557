//! Sending a packet: invoked by an application module on chain A, not by a
//! client message. On success the packet commitment is stored and the send
//! counter advances by exactly one.

use vstd::prelude::*;

use crate::chan_msgs::{Packet, PacketView};
use crate::channel::{ChannelEnd, State as ChannelState};
use crate::client::{client_status, ClientRecord, Status};
use crate::commitment::{compute_packet_commitment, packet_commitment_spec};
use crate::connection::{ConnectionEnd, State as ConnectionState};
use crate::context::{SendPacketExecutionContext, SendPacketValidationContext};
use crate::errors::{ChannelError, ClientError, ConnectionError, ContextError, PacketError};
use crate::events::{IbcEvent, MessageEvent};
use crate::path::{packet_key, port_channel_key};
use crate::timestamp::Timestamp;

verus! {

/// Whether the packet's timeouts still lie ahead of what the sender's
/// client knows of the receiving chain: the timeout height is unset or
/// above the client's latest height, or the timeout timestamp is set and
/// above the client's latest consensus timestamp.
pub open spec fn packet_timeouts_ahead(client: ClientRecord, pv: PacketView) -> bool {
    ||| match pv.timeout_height {
        None => true,
        Some(th) => client.latest_height.spec_lt(th),
    }
    ||| (pv.timeout_timestamp.spec_is_set() && client.latest_timestamp.nanos
        < pv.timeout_timestamp.nanos)
}

/// When a packet may be sent: the source channel exists, is `Open` and
/// points back at the packet's destination; its single connection is
/// `Open`; the client tracking the receiving chain is active; at least one
/// timeout is set and not already elapsed; and the packet carries exactly
/// the channel's next send sequence, which has room to advance.
pub open spec fn send_packet_ok(
    channels: Map<Seq<char>, ChannelEnd>,
    connections: Map<Seq<char>, ConnectionEnd>,
    clients: Map<Seq<char>, ClientRecord>,
    next_seq_send: Map<Seq<char>, u64>,
    host_timestamp: Timestamp,
    pv: PacketView,
) -> bool {
    let ck = port_channel_key(pv.source_port, pv.source_channel);
    &&& channels.contains_key(ck)
    &&& channels[ck].state == ChannelState::Open
    &&& channels[ck].counterparty.port_id@ == pv.destination_port
    &&& (channels[ck].counterparty.channel_id matches Some(c) && c@ == pv.destination_channel)
    &&& channels[ck].connection_hops@.len() == 1
    &&& {
        let conn_key = channels[ck].connection_hops@[0]@;
        &&& connections.contains_key(conn_key)
        &&& connections[conn_key].state == ConnectionState::Open
        &&& {
            let client_key = connections[conn_key].client_id@;
            &&& clients.contains_key(client_key)
            &&& client_status(clients[client_key], host_timestamp) == Status::Active
            &&& (pv.timeout_height is Some || pv.timeout_timestamp.spec_is_set())
            &&& packet_timeouts_ahead(clients[client_key], pv)
        }
    }
    &&& next_seq_send.contains_key(ck)
    &&& next_seq_send[ck] == pv.sequence
    &&& next_seq_send[ck] < u64::MAX
}

/// Read-only validation of a packet send, fit for mempool admission.
pub fn send_packet_validate<Ctx: SendPacketValidationContext>(ctx: &Ctx, packet: &Packet) -> (r:
    Result<(), ContextError>)
    requires
        ctx.wf(),
    ensures
        r is Ok <==> send_packet_ok(
            ctx.spec_channels(),
            ctx.spec_connections(),
            ctx.spec_clients(),
            ctx.spec_next_seq_send(),
            ctx.spec_host_timestamp(),
            packet@,
        ),
        !ctx.spec_channels().contains_key(
            port_channel_key(packet.source_port@, packet.source_channel@),
        ) ==> r == Err::<(), ContextError>(ContextError::Channel(ChannelError::ChannelNotFound)),
{
    let chan_end = match ctx.channel_end(&packet.source_port, &packet.source_channel) {
        Ok(c) => c,
        Err(e) => {
            return Err(ContextError::Channel(e));
        },
    };
    match chan_end.verify_state_matches(&ChannelState::Open) {
        Ok(()) => (),
        Err(e) => {
            return Err(ContextError::Channel(e));
        },
    }
    if !chan_end.counterparty.port_id.eq_id(&packet.destination_port) {
        return Err(ContextError::Channel(ChannelError::MissingCounterparty));
    }
    match &chan_end.counterparty.channel_id {
        Some(c) => {
            if !c.eq_id(&packet.destination_channel) {
                return Err(ContextError::Channel(ChannelError::MissingCounterparty));
            }
        },
        None => {
            return Err(ContextError::Channel(ChannelError::MissingCounterparty));
        },
    }
    proof {
        let ck = port_channel_key(packet.source_port@, packet.source_channel@);
        let stored = ctx.spec_channels()[ck];
        assert(chan_end.connection_hops.deep_view() == stored.connection_hops.deep_view());
        assert(chan_end.connection_hops.deep_view().len() == chan_end.connection_hops@.len());
        assert(stored.connection_hops.deep_view().len() == stored.connection_hops@.len());
    }
    if chan_end.connection_hops.len() != 1 {
        return Err(ContextError::Channel(ChannelError::UndefinedConnectionCounterparty));
    }
    proof {
        let ck = port_channel_key(packet.source_port@, packet.source_channel@);
        let stored = ctx.spec_channels()[ck];
        assert(chan_end.connection_hops.deep_view()[0] == chan_end.connection_hops@[0]@);
        assert(stored.connection_hops.deep_view()[0] == stored.connection_hops@[0]@);
    }
    let conn_end = match ctx.connection_end(&chan_end.connection_hops[0]) {
        Ok(c) => c,
        Err(e) => {
            return Err(ContextError::Connection(e));
        },
    };
    match conn_end.verify_state_matches(&ConnectionState::Open) {
        Ok(()) => (),
        Err(e) => {
            return Err(ContextError::Connection(e));
        },
    }
    let client = match ctx.client_record(&conn_end.client_id) {
        Ok(c) => c,
        Err(e) => {
            return Err(ContextError::Client(e));
        },
    };
    let host_timestamp = ctx.host_timestamp();
    let status = client.status(&host_timestamp);
    if !status.is_active() {
        return Err(ContextError::Client(ClientError::ClientNotActive { status }));
    }
    if packet.timeout_height.is_none() && !packet.timeout_timestamp.is_set() {
        return Err(ContextError::Packet(PacketError::MissingTimeout));
    }
    let height_ahead: bool = match &packet.timeout_height {
        None => true,
        Some(th) => client.latest_height.lt(th),
    };
    let timestamp_ahead: bool = packet.timeout_timestamp.is_set()
        && client.latest_timestamp.nanoseconds() < packet.timeout_timestamp.nanoseconds();
    if !height_ahead && !timestamp_ahead {
        return Err(ContextError::Packet(PacketError::PacketTimedOut));
    }
    let next_seq = match ctx.get_next_sequence_send(&packet.source_port, &packet.source_channel) {
        Ok(s) => s,
        Err(e) => {
            return Err(ContextError::Packet(e));
        },
    };
    if packet.sequence.value() != next_seq {
        return Err(
            ContextError::Packet(
                PacketError::PacketSequenceMismatch {
                    expected: next_seq,
                    actual: packet.sequence.value(),
                },
            ),
        );
    }
    if next_seq == u64::MAX {
        return Err(ContextError::Packet(PacketError::ZeroPacketSequence));
    }
    Ok(())
}

/// Sends a packet: on success the packet commitment is stored under the
/// packet's source and sequence, the send counter advances by exactly one,
/// and a `Message` and a `SendPacket` event are emitted. On failure
/// nothing changes.
pub fn send_packet_execute<Ctx: SendPacketExecutionContext>(ctx: &mut Ctx, packet: Packet) -> (r:
    Result<(), ContextError>)
    requires
        old(ctx).wf(),
    ensures
        final(ctx).wf(),
        r is Ok <==> send_packet_ok(
            old(ctx).spec_channels(),
            old(ctx).spec_connections(),
            old(ctx).spec_clients(),
            old(ctx).spec_next_seq_send(),
            old(ctx).spec_host_timestamp(),
            packet@,
        ),
        r is Err ==> {
            &&& final(ctx).spec_channels() == old(ctx).spec_channels()
            &&& final(ctx).spec_connections() == old(ctx).spec_connections()
            &&& final(ctx).spec_clients() == old(ctx).spec_clients()
            &&& final(ctx).spec_next_seq_send() == old(ctx).spec_next_seq_send()
            &&& final(ctx).spec_packet_commitments() == old(ctx).spec_packet_commitments()
            &&& final(ctx).spec_events() == old(ctx).spec_events()
        },
        r is Ok ==> {
            let ck = port_channel_key(packet.source_port@, packet.source_channel@);
            let pk = packet_key(packet.source_port@, packet.source_channel@, packet.sequence.value);
            &&& (exists|c: Vec<u8>|
                c@ == packet_commitment_spec(
                    packet.data@,
                    packet.timeout_height,
                    packet.timeout_timestamp,
                ) && final(ctx).spec_packet_commitments() == old(
                    ctx,
                ).spec_packet_commitments().insert(pk, c))
            &&& final(ctx).spec_next_seq_send() == old(ctx).spec_next_seq_send().insert(
                ck,
                (old(ctx).spec_next_seq_send()[ck] + 1) as u64,
            )
            &&& final(ctx).spec_events() == old(ctx).spec_events().push(
                IbcEvent::Message(MessageEvent::Channel),
            ).push(IbcEvent::SendPacket { packet })
            &&& final(ctx).spec_channels() == old(ctx).spec_channels()
            &&& final(ctx).spec_connections() == old(ctx).spec_connections()
            &&& final(ctx).spec_clients() == old(ctx).spec_clients()
        },
{
    match send_packet_validate(ctx, &packet) {
        Ok(()) => (),
        Err(e) => {
            return Err(e);
        },
    }
    let sequence = packet.sequence.value();
    let commitment = compute_packet_commitment(
        packet.data.as_slice(),
        &packet.timeout_height,
        &packet.timeout_timestamp,
    );
    ctx.store_packet_commitment(
        &packet.source_port,
        &packet.source_channel,
        sequence,
        commitment,
    );
    ctx.store_next_sequence_send(&packet.source_port, &packet.source_channel, sequence + 1);
    ctx.emit_ibc_event(IbcEvent::Message(MessageEvent::Channel));
    ctx.emit_ibc_event(IbcEvent::SendPacket { packet });
    Ok(())
}

} // verus!
