//! Receiving a packet on chain B: after proof and timeout checks, ordered
//! channels advance their receive counter, unordered channels write a
//! receipt, and an acknowledgement commitment is stored.

use vstd::prelude::*;

use crate::chan_msgs::{MsgRecvPacket, PacketView};
use crate::channel::{Order, State as ChannelState};
use crate::client::{client_status, Status};
use crate::commitment::{ack_commitment_spec, compute_ack_commitment};
use crate::connection::State as ConnectionState;
use crate::errors::{ChannelError, ClientError, ConnectionError, ContextError, PacketError};
use crate::events::{IbcEvent, MessageEvent};
use crate::height::Height;
use crate::host::{conn_delay_passed, HostState};
use crate::path::{height_key, packet_key, port_channel_key};
use crate::router::Module;

verus! {

/// When a packet is accepted on chain B: the signer is well formed; the
/// destination channel exists, is `Open` and points back at the packet's
/// source; its single connection is `Open`; the client tracking chain A is
/// active, covers the proof height, has a consensus state there, and the
/// connection's delay discipline holds; the packet has not timed out on
/// chain B's own clock and height; and the ordering discipline admits the
/// sequence: equality with the receive counter on ordered channels, no
/// prior receipt on unordered ones.
pub open spec fn recv_packet_core_ok(
    st: HostState,
    pv: PacketView,
    proof_height: Height,
    signer: Seq<char>,
) -> bool {
    let ck = port_channel_key(pv.destination_port, pv.destination_channel);
    &&& signer.len() > 0
    &&& st.channels@.contains_key(ck)
    &&& st.channels@[ck].state == ChannelState::Open
    &&& st.channels@[ck].counterparty.port_id@ == pv.source_port
    &&& (st.channels@[ck].counterparty.channel_id matches Some(c) && c@ == pv.source_channel)
    &&& st.channels@[ck].connection_hops@.len() == 1
    &&& {
        let conn_key = st.channels@[ck].connection_hops@[0]@;
        &&& st.connections@.contains_key(conn_key)
        &&& st.connections@[conn_key].state == ConnectionState::Open
        &&& {
            let client_key = st.connections@[conn_key].client_id@;
            &&& st.clients@.contains_key(client_key)
            &&& client_status(st.clients@[client_key], st.host_timestamp) == Status::Active
            &&& proof_height.spec_le(st.clients@[client_key].latest_height)
            &&& st.clients@[client_key].consensus_states@.contains_key(height_key(proof_height))
            &&& conn_delay_passed(
                st,
                proof_height,
                st.connections@[conn_key].delay_period_nanos,
                st.clients@[client_key].consensus_states@[height_key(proof_height)].timestamp,
            )
        }
    }
    &&& (pv.timeout_height matches Some(th) ==> st.host_height.spec_lt(th))
    &&& (pv.timeout_timestamp.spec_is_set() ==> st.host_timestamp.nanos
        < pv.timeout_timestamp.nanos)
}

pub open spec fn recv_packet_ok(
    st: HostState,
    pv: PacketView,
    proof_height: Height,
    signer: Seq<char>,
) -> bool {
    let ck = port_channel_key(pv.destination_port, pv.destination_channel);
    let pk = packet_key(pv.destination_port, pv.destination_channel, pv.sequence);
    &&& recv_packet_core_ok(st, pv, proof_height, signer)
    &&& match st.channels@[ck].ordering {
        Order::Ordered => st.next_seq_recv@.contains_key(ck) && st.next_seq_recv@[ck]
            == pv.sequence && pv.sequence < u64::MAX,
        Order::Unordered => !st.receipts@.contains_key(pk),
    }
}

/// Read-only validation of a packet receive. A sequence already receipted
/// on an unordered channel is rejected with `PacketAlreadyReceived`; a
/// sequence that is not the receive counter on an ordered channel is
/// rejected with `PacketSequenceMismatch`.
pub fn recv_packet_validate(
    ctx_b: &HostState,
    msg: &MsgRecvPacket,
    commitment_proof_verified: bool,
) -> (r: Result<(), ContextError>)
    requires
        ctx_b.well_formed(),
    ensures
        r is Ok <==> recv_packet_ok(*ctx_b, msg.packet@, msg.proof_height_on_a, msg.signer@)
            && commitment_proof_verified,
        (recv_packet_ok(*ctx_b, msg.packet@, msg.proof_height_on_a, msg.signer@)
            && !commitment_proof_verified) ==> r == Err::<(), ContextError>(
            ContextError::Packet(PacketError::InvalidProof),
        ),
        ({
            let ck = port_channel_key(msg.packet.destination_port@, msg.packet.destination_channel@);
            let pk = packet_key(
                msg.packet.destination_port@,
                msg.packet.destination_channel@,
                msg.packet.sequence.value,
            );
            recv_packet_core_ok(*ctx_b, msg.packet@, msg.proof_height_on_a, msg.signer@)
                && ctx_b.channels@[ck].ordering == Order::Unordered && ctx_b.receipts@.contains_key(
                pk,
            )
        }) ==> r == Err::<(), ContextError>(
            ContextError::Packet(PacketError::PacketAlreadyReceived),
        ),
        ({
            let ck = port_channel_key(msg.packet.destination_port@, msg.packet.destination_channel@);
            recv_packet_core_ok(*ctx_b, msg.packet@, msg.proof_height_on_a, msg.signer@)
                && ctx_b.channels@[ck].ordering == Order::Ordered
                && ctx_b.next_seq_recv@.contains_key(ck) && ctx_b.next_seq_recv@[ck]
                != msg.packet.sequence.value
        }) ==> r == Err::<(), ContextError>(
            ContextError::Packet(
                PacketError::PacketSequenceMismatch {
                    expected: ctx_b.next_seq_recv@[port_channel_key(
                        msg.packet.destination_port@,
                        msg.packet.destination_channel@,
                    )],
                    actual: msg.packet.sequence.value,
                },
            ),
        ),
{
    match ctx_b.validate_message_signer(&msg.signer) {
        Ok(()) => (),
        Err(e) => {
            return Err(e);
        },
    }
    let packet = &msg.packet;
    let chan_end_on_b = match ctx_b.channel_end(
        &packet.destination_port,
        &packet.destination_channel,
    ) {
        Ok(c) => c,
        Err(e) => {
            return Err(ContextError::Channel(e));
        },
    };
    match chan_end_on_b.verify_state_matches(&ChannelState::Open) {
        Ok(()) => (),
        Err(e) => {
            return Err(ContextError::Channel(e));
        },
    }
    if !chan_end_on_b.counterparty.port_id.eq_id(&packet.source_port) {
        return Err(ContextError::Channel(ChannelError::MissingCounterparty));
    }
    match &chan_end_on_b.counterparty.channel_id {
        Some(c) => {
            if !c.eq_id(&packet.source_channel) {
                return Err(ContextError::Channel(ChannelError::MissingCounterparty));
            }
        },
        None => {
            return Err(ContextError::Channel(ChannelError::MissingCounterparty));
        },
    }
    let ghost stored = ctx_b.channels@[port_channel_key(
        packet.destination_port@,
        packet.destination_channel@,
    )];
    proof {
        assert(chan_end_on_b.connection_hops.deep_view() == stored.connection_hops.deep_view());
        assert(chan_end_on_b.connection_hops.deep_view().len()
            == chan_end_on_b.connection_hops@.len());
        assert(stored.connection_hops.deep_view().len() == stored.connection_hops@.len());
    }
    if chan_end_on_b.connection_hops.len() != 1 {
        return Err(ContextError::Connection(ConnectionError::ConnectionNotFound));
    }
    proof {
        assert(chan_end_on_b.connection_hops.deep_view()[0]
            == chan_end_on_b.connection_hops@[0]@);
        assert(stored.connection_hops.deep_view()[0] == stored.connection_hops@[0]@);
    }
    let conn_end_on_b = match ctx_b.connection_end(&chan_end_on_b.connection_hops[0]) {
        Ok(c) => c,
        Err(e) => {
            return Err(ContextError::Connection(e));
        },
    };
    match conn_end_on_b.verify_state_matches(&ConnectionState::Open) {
        Ok(()) => (),
        Err(e) => {
            return Err(ContextError::Connection(e));
        },
    }
    let client = match ctx_b.client_record(&conn_end_on_b.client_id) {
        Ok(c) => c,
        Err(e) => {
            return Err(ContextError::Client(e));
        },
    };
    let host_timestamp = ctx_b.host_timestamp();
    let status = client.status(&host_timestamp);
    if !status.is_active() {
        return Err(ContextError::Client(ClientError::ClientNotActive { status }));
    }
    match client.validate_proof_height(&msg.proof_height_on_a) {
        Ok(()) => (),
        Err(e) => {
            return Err(ContextError::Client(e));
        },
    }
    let consensus_state = match client.consensus_state_at(&msg.proof_height_on_a) {
        Some(c) => c,
        None => {
            return Err(ContextError::Client(ClientError::ConsensusStateNotFound));
        },
    };
    match ctx_b.verify_conn_delay_passed(
        &msg.proof_height_on_a,
        conn_end_on_b.delay_period_nanos,
        &consensus_state.timestamp,
    ) {
        Ok(()) => (),
        Err(e) => {
            return Err(ContextError::Connection(e));
        },
    }
    match &packet.timeout_height {
        Some(th) => {
            if !ctx_b.host_height().lt(th) {
                return Err(ContextError::Packet(PacketError::PacketTimedOut));
            }
        },
        None => (),
    }
    if packet.timeout_timestamp.is_set() && ctx_b.host_timestamp().nanoseconds()
        >= packet.timeout_timestamp.nanoseconds() {
        return Err(ContextError::Packet(PacketError::PacketTimedOut));
    }
    match chan_end_on_b.ordering {
        Order::Ordered => {
            let next_seq = match ctx_b.get_next_sequence_recv(
                &packet.destination_port,
                &packet.destination_channel,
            ) {
                Ok(s) => s,
                Err(e) => {
                    return Err(ContextError::Packet(e));
                },
            };
            if packet.sequence.value() != next_seq {
                return Err(
                    ContextError::Packet(
                        PacketError::PacketSequenceMismatch {
                            expected: next_seq,
                            actual: packet.sequence.value(),
                        },
                    ),
                );
            }
            if next_seq == u64::MAX {
                return Err(ContextError::Packet(PacketError::ZeroPacketSequence));
            }
        },
        Order::Unordered => {
            if ctx_b.get_packet_receipt(
                &packet.destination_port,
                &packet.destination_channel,
                packet.sequence.value(),
            ) {
                return Err(ContextError::Packet(PacketError::PacketAlreadyReceived));
            }
        },
    }
    // The proof must show chain A stored this packet's commitment.
    if !commitment_proof_verified {
        return Err(ContextError::Packet(PacketError::InvalidProof));
    }
    Ok(())
}

/// Receives a packet: on success the ordering discipline is recorded (the
/// receive counter advances on ordered channels, a receipt is written on
/// unordered ones), the module's acknowledgement is committed, and a
/// `Message`, a `ReceivePacket` and a `WriteAcknowledgement` event are
/// emitted. On failure nothing changes.
pub fn recv_packet_execute<M: Module>(
    ctx_b: &mut HostState,
    module: &mut M,
    msg: MsgRecvPacket,
    commitment_proof_verified: bool,
) -> (r: Result<(), ContextError>)
    requires
        old(ctx_b).well_formed(),
    ensures
        final(ctx_b).well_formed(),
        r is Ok <==> recv_packet_ok(
            *old(ctx_b),
            msg.packet@,
            msg.proof_height_on_a,
            msg.signer@,
        ) && commitment_proof_verified,
        r is Err ==> *final(ctx_b) == *old(ctx_b),
        r is Ok ==> {
            let ck = port_channel_key(msg.packet.destination_port@, msg.packet.destination_channel@);
            let pk = packet_key(
                msg.packet.destination_port@,
                msg.packet.destination_channel@,
                msg.packet.sequence.value,
            );
            &&& match old(ctx_b).channels@[ck].ordering {
                Order::Ordered => {
                    &&& final(ctx_b).next_seq_recv@ == old(ctx_b).next_seq_recv@.insert(
                        ck,
                        (old(ctx_b).next_seq_recv@[ck] + 1) as u64,
                    )
                    &&& final(ctx_b).receipts == old(ctx_b).receipts
                },
                Order::Unordered => {
                    &&& final(ctx_b).receipts@ == old(ctx_b).receipts@.insert(pk, true)
                    &&& final(ctx_b).next_seq_recv == old(ctx_b).next_seq_recv
                },
            }
            &&& (exists|ack: Vec<u8>|
                final(ctx_b).acks@ == old(ctx_b).acks@.insert(pk, ack))
            &&& final(ctx_b).channels == old(ctx_b).channels
            &&& final(ctx_b).connections == old(ctx_b).connections
            &&& final(ctx_b).clients == old(ctx_b).clients
            &&& final(ctx_b).next_seq_send == old(ctx_b).next_seq_send
            &&& final(ctx_b).next_seq_ack == old(ctx_b).next_seq_ack
            &&& final(ctx_b).packet_commitments == old(ctx_b).packet_commitments
            &&& final(ctx_b).events@.len() >= old(ctx_b).events@.len() + 3
            &&& final(ctx_b).events@.subrange(0, old(ctx_b).events@.len() as int)
                == old(ctx_b).events@
            &&& final(ctx_b).events@[old(ctx_b).events@.len() as int] == IbcEvent::Message(
                MessageEvent::Channel,
            )
            &&& (final(ctx_b).events@[old(ctx_b).events@.len() as int + 1] matches
                IbcEvent::ReceivePacket { packet } && packet@ == msg.packet@)
            &&& (final(ctx_b).events@[old(ctx_b).events@.len() as int + 2] matches
                IbcEvent::WriteAcknowledgement { packet, ack } && packet@ == msg.packet@
                && final(ctx_b).acks@[pk]@ == ack_commitment_spec(ack@))
            &&& (forall|i: int|
                old(ctx_b).events@.len() + 3 <= i < final(ctx_b).events@.len()
                    ==> (#[trigger] final(ctx_b).events@[i]) is Module)
        },
{
    match recv_packet_validate(ctx_b, &msg, commitment_proof_verified) {
        Ok(()) => (),
        Err(e) => {
            return Err(e);
        },
    }
    let ghost ck = port_channel_key(
        msg.packet.destination_port@,
        msg.packet.destination_channel@,
    );
    let packet = msg.packet;
    let sequence = packet.sequence.value();

    // Ordering discipline.
    let chan_end_on_b = match ctx_b.channel_end(
        &packet.destination_port,
        &packet.destination_channel,
    ) {
        Ok(c) => c,
        Err(e) => {
            proof {
                assert(false);
            }
            return Err(ContextError::Channel(e));
        },
    };
    match chan_end_on_b.ordering {
        Order::Ordered => {
            let next_seq = match ctx_b.get_next_sequence_recv(
                &packet.destination_port,
                &packet.destination_channel,
            ) {
                Ok(s) => s,
                Err(e) => {
                    proof {
                        assert(false);
                    }
                    return Err(ContextError::Packet(e));
                },
            };
            let key = crate::path::port_channel_string(
                &packet.destination_port,
                &packet.destination_channel,
            );
            ctx_b.next_seq_recv.insert(key, next_seq + 1);
        },
        Order::Unordered => {
            let key = crate::path::packet_key_string(
                &packet.destination_port,
                &packet.destination_channel,
                sequence,
            );
            ctx_b.receipts.insert(key, true);
        },
    }

    // The module produces the acknowledgement, which is committed.
    let (extras, ack) = module.on_recv_packet_execute(&packet);
    let ack_commitment = compute_ack_commitment(ack.as_slice());
    let ack_key = crate::path::packet_key_string(
        &packet.destination_port,
        &packet.destination_channel,
        sequence,
    );
    ctx_b.acks.insert(ack_key, ack_commitment);

    let packet_for_write = packet.clone();
    ctx_b.emit_ibc_event(IbcEvent::Message(MessageEvent::Channel));
    ctx_b.emit_ibc_event(IbcEvent::ReceivePacket { packet });
    ctx_b.emit_ibc_event(IbcEvent::WriteAcknowledgement { packet: packet_for_write, ack });
    proof {
        let n0 = old(ctx_b).events@.len() as int;
        assert(ctx_b.events@.subrange(0, n0) =~= old(ctx_b).events@);
    }
    let ghost base_events = ctx_b.events@;
    let ghost mid = *ctx_b;
    let mut extras = extras;
    let n = extras.events.len();
    let mut i: usize = 0;
    while i < n
        invariant
            i <= n,
            ctx_b.well_formed(),
            extras.events@.len() == n - i,
            ctx_b.events@.len() >= base_events.len(),
            ctx_b.events@.subrange(0, base_events.len() as int) == base_events,
            forall|k: int|
                base_events.len() <= k < ctx_b.events@.len() ==> (
                #[trigger] ctx_b.events@[k]) is Module,
            ctx_b.logs == mid.logs,
            ctx_b.channels == mid.channels,
            ctx_b.connections == mid.connections,
            ctx_b.clients == mid.clients,
            ctx_b.next_seq_send == mid.next_seq_send,
            ctx_b.next_seq_recv == mid.next_seq_recv,
            ctx_b.next_seq_ack == mid.next_seq_ack,
            ctx_b.packet_commitments == mid.packet_commitments,
            ctx_b.receipts == mid.receipts,
            ctx_b.acks == mid.acks,
        decreases n - i,
    {
        let ghost pre = ctx_b.events@;
        let ev = extras.events.remove(0);
        ctx_b.emit_ibc_event(IbcEvent::Module(ev));
        proof {
            assert(ctx_b.events@.subrange(0, base_events.len() as int) =~= pre.subrange(
                0,
                base_events.len() as int,
            ));
        }
        i += 1;
    }
    proof {
        let n0 = old(ctx_b).events@.len() as int;
        assert forall|k: int| 0 <= k < base_events.len() implies ctx_b.events@[k]
            == base_events[k] by {
            assert(ctx_b.events@.subrange(0, base_events.len() as int)[k] == ctx_b.events@[k]);
        }
        assert(ctx_b.events@.subrange(0, n0) =~= old(ctx_b).events@) by {
            assert forall|k: int| 0 <= k < n0 implies ctx_b.events@[k] == old(
                ctx_b,
            ).events@[k] by {
                assert(ctx_b.events@.subrange(0, base_events.len() as int)[k]
                    == ctx_b.events@[k]);
                assert(base_events.subrange(0, n0)[k] == base_events[k]);
            }
        }
        assert(base_events[n0] == IbcEvent::Message(MessageEvent::Channel));
        assert(ctx_b.events@[n0] == base_events[n0]);
        assert(ctx_b.events@[n0 + 1] == base_events[n0 + 1]);
        assert(ctx_b.events@[n0 + 2] == base_events[n0 + 2]);
    }
    Ok(())
}

} // verus!
