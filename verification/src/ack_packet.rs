//! Acknowledging a packet on chain A: the sender's commitment is checked
//! against the packet it claims to be, then deleted; ordered channels
//! advance their acknowledgement counter.

use vstd::prelude::*;

use crate::chan_msgs::{MsgAcknowledgement, PacketView};
use crate::channel::{Order, State as ChannelState};
use crate::client::{client_status, Status};
use crate::commitment::{bytes_equal, compute_packet_commitment, packet_commitment_spec};
use crate::connection::State as ConnectionState;
use crate::errors::{ChannelError, ClientError, ConnectionError, ContextError, PacketError};
use crate::events::{IbcEvent, MessageEvent};
use crate::height::Height;
use crate::host::{conn_delay_passed, HostState};
use crate::path::{height_key, packet_key, port_channel_key};
use crate::router::Module;

verus! {

/// When an acknowledgement is accepted on chain A: the signer is well
/// formed; the source channel exists, is `Open` and points at the packet's
/// destination; its single connection is `Open`; the stored packet
/// commitment exists and equals the commitment recomputed from the claimed
/// packet; the client tracking chain B is active, covers the proof height,
/// has a consensus state there, and the delay discipline holds; and on an
/// ordered channel the packet carries exactly the next acknowledgement
/// sequence, which has room to advance.
pub open spec fn ack_packet_ok(
    st: HostState,
    pv: PacketView,
    proof_height: Height,
    signer: Seq<char>,
) -> bool {
    let ck = port_channel_key(pv.source_port, pv.source_channel);
    let pk = packet_key(pv.source_port, pv.source_channel, pv.sequence);
    &&& signer.len() > 0
    &&& st.channels@.contains_key(ck)
    &&& st.channels@[ck].state == ChannelState::Open
    &&& st.channels@[ck].counterparty.port_id@ == pv.destination_port
    &&& (st.channels@[ck].counterparty.channel_id matches Some(c) && c@ == pv.destination_channel)
    &&& st.channels@[ck].connection_hops@.len() == 1
    &&& st.packet_commitments@.contains_key(pk)
    &&& st.packet_commitments@[pk]@ == packet_commitment_spec(
        pv.data,
        pv.timeout_height,
        pv.timeout_timestamp,
    )
    &&& {
        let conn_key = st.channels@[ck].connection_hops@[0]@;
        &&& st.connections@.contains_key(conn_key)
        &&& st.connections@[conn_key].state == ConnectionState::Open
        &&& {
            let client_key = st.connections@[conn_key].client_id@;
            &&& st.clients@.contains_key(client_key)
            &&& client_status(st.clients@[client_key], st.host_timestamp) == Status::Active
            &&& proof_height.spec_le(st.clients@[client_key].latest_height)
            &&& st.clients@[client_key].consensus_states@.contains_key(height_key(proof_height))
            &&& conn_delay_passed(
                st,
                proof_height,
                st.connections@[conn_key].delay_period_nanos,
                st.clients@[client_key].consensus_states@[height_key(proof_height)].timestamp,
            )
        }
    }
    &&& match st.channels@[ck].ordering {
        Order::Ordered => st.next_seq_ack@.contains_key(ck) && st.next_seq_ack@[ck] == pv.sequence
            && pv.sequence < u64::MAX,
        Order::Unordered => true,
    }
}

/// Read-only validation of a packet acknowledgement. A missing commitment
/// is rejected with `PacketCommitmentNotFound`, one that does not match the
/// claimed packet with `PacketCommitmentMismatch`.
pub fn acknowledge_packet_validate(
    ctx_a: &HostState,
    msg: &MsgAcknowledgement,
    ack_proof_verified: bool,
) -> (r: Result<(), ContextError>)
    requires
        ctx_a.well_formed(),
    ensures
        r is Ok <==> ack_packet_ok(*ctx_a, msg.packet@, msg.proof_height_on_b, msg.signer@)
            && ack_proof_verified,
        (ack_packet_ok(*ctx_a, msg.packet@, msg.proof_height_on_b, msg.signer@)
            && !ack_proof_verified) ==> r == Err::<(), ContextError>(
            ContextError::Packet(PacketError::InvalidProof),
        ),
{
    match ctx_a.validate_message_signer(&msg.signer) {
        Ok(()) => (),
        Err(e) => {
            return Err(e);
        },
    }
    let packet = &msg.packet;
    let chan_end_on_a = match ctx_a.channel_end(&packet.source_port, &packet.source_channel) {
        Ok(c) => c,
        Err(e) => {
            return Err(ContextError::Channel(e));
        },
    };
    match chan_end_on_a.verify_state_matches(&ChannelState::Open) {
        Ok(()) => (),
        Err(e) => {
            return Err(ContextError::Channel(e));
        },
    }
    if !chan_end_on_a.counterparty.port_id.eq_id(&packet.destination_port) {
        return Err(ContextError::Channel(ChannelError::MissingCounterparty));
    }
    match &chan_end_on_a.counterparty.channel_id {
        Some(c) => {
            if !c.eq_id(&packet.destination_channel) {
                return Err(ContextError::Channel(ChannelError::MissingCounterparty));
            }
        },
        None => {
            return Err(ContextError::Channel(ChannelError::MissingCounterparty));
        },
    }
    let ghost stored = ctx_a.channels@[port_channel_key(
        packet.source_port@,
        packet.source_channel@,
    )];
    proof {
        assert(chan_end_on_a.connection_hops.deep_view() == stored.connection_hops.deep_view());
        assert(chan_end_on_a.connection_hops.deep_view().len()
            == chan_end_on_a.connection_hops@.len());
        assert(stored.connection_hops.deep_view().len() == stored.connection_hops@.len());
    }
    if chan_end_on_a.connection_hops.len() != 1 {
        return Err(ContextError::Connection(ConnectionError::ConnectionNotFound));
    }
    proof {
        assert(chan_end_on_a.connection_hops.deep_view()[0]
            == chan_end_on_a.connection_hops@[0]@);
        assert(stored.connection_hops.deep_view()[0] == stored.connection_hops@[0]@);
    }
    let commitment = match ctx_a.get_packet_commitment(
        &packet.source_port,
        &packet.source_channel,
        packet.sequence.value(),
    ) {
        Some(c) => c,
        None => {
            return Err(ContextError::Packet(PacketError::PacketCommitmentNotFound));
        },
    };
    let expected = compute_packet_commitment(
        packet.data.as_slice(),
        &packet.timeout_height,
        &packet.timeout_timestamp,
    );
    if !bytes_equal(commitment.as_slice(), expected.as_slice()) {
        return Err(ContextError::Packet(PacketError::PacketCommitmentMismatch));
    }
    let conn_end_on_a = match ctx_a.connection_end(&chan_end_on_a.connection_hops[0]) {
        Ok(c) => c,
        Err(e) => {
            return Err(ContextError::Connection(e));
        },
    };
    match conn_end_on_a.verify_state_matches(&ConnectionState::Open) {
        Ok(()) => (),
        Err(e) => {
            return Err(ContextError::Connection(e));
        },
    }
    let client = match ctx_a.client_record(&conn_end_on_a.client_id) {
        Ok(c) => c,
        Err(e) => {
            return Err(ContextError::Client(e));
        },
    };
    let host_timestamp = ctx_a.host_timestamp();
    let status = client.status(&host_timestamp);
    if !status.is_active() {
        return Err(ContextError::Client(ClientError::ClientNotActive { status }));
    }
    match client.validate_proof_height(&msg.proof_height_on_b) {
        Ok(()) => (),
        Err(e) => {
            return Err(ContextError::Client(e));
        },
    }
    let consensus_state = match client.consensus_state_at(&msg.proof_height_on_b) {
        Some(c) => c,
        None => {
            return Err(ContextError::Client(ClientError::ConsensusStateNotFound));
        },
    };
    match ctx_a.verify_conn_delay_passed(
        &msg.proof_height_on_b,
        conn_end_on_a.delay_period_nanos,
        &consensus_state.timestamp,
    ) {
        Ok(()) => (),
        Err(e) => {
            return Err(ContextError::Connection(e));
        },
    }
    match chan_end_on_a.ordering {
        Order::Ordered => {
            let next_seq = match ctx_a.get_next_sequence_ack(
                &packet.source_port,
                &packet.source_channel,
            ) {
                Ok(s) => s,
                Err(e) => {
                    return Err(ContextError::Packet(e));
                },
            };
            if packet.sequence.value() != next_seq {
                return Err(
                    ContextError::Packet(
                        PacketError::PacketSequenceMismatch {
                            expected: next_seq,
                            actual: packet.sequence.value(),
                        },
                    ),
                );
            }
            if next_seq == u64::MAX {
                return Err(ContextError::Packet(PacketError::ZeroPacketSequence));
            }
        },
        Order::Unordered => (),
    }
    // The proof must show chain B stored the acknowledgement commitment.
    if !ack_proof_verified {
        return Err(ContextError::Packet(PacketError::InvalidProof));
    }
    Ok(())
}

/// Acknowledges a packet: on success the packet commitment is deleted, the
/// acknowledgement counter advances by one on ordered channels, and a
/// `Message` and an `AcknowledgePacket` event are emitted. On failure
/// nothing changes.
pub fn acknowledge_packet_execute<M: Module>(
    ctx_a: &mut HostState,
    module: &mut M,
    msg: MsgAcknowledgement,
    ack_proof_verified: bool,
) -> (r: Result<(), ContextError>)
    requires
        old(ctx_a).well_formed(),
    ensures
        final(ctx_a).well_formed(),
        r is Ok ==> ack_packet_ok(*old(ctx_a), msg.packet@, msg.proof_height_on_b, msg.signer@)
            && ack_proof_verified,
        !(ack_packet_ok(*old(ctx_a), msg.packet@, msg.proof_height_on_b, msg.signer@)
            && ack_proof_verified) ==> r is Err,
        r is Err ==> *final(ctx_a) == *old(ctx_a),
        r is Ok ==> {
            let ck = port_channel_key(msg.packet.source_port@, msg.packet.source_channel@);
            let pk = packet_key(
                msg.packet.source_port@,
                msg.packet.source_channel@,
                msg.packet.sequence.value,
            );
            &&& final(ctx_a).packet_commitments@ == old(ctx_a).packet_commitments@.remove(pk)
            &&& match old(ctx_a).channels@[ck].ordering {
                Order::Ordered => final(ctx_a).next_seq_ack@ == old(ctx_a).next_seq_ack@.insert(
                    ck,
                    (old(ctx_a).next_seq_ack@[ck] + 1) as u64,
                ),
                Order::Unordered => final(ctx_a).next_seq_ack == old(ctx_a).next_seq_ack,
            }
            &&& final(ctx_a).channels == old(ctx_a).channels
            &&& final(ctx_a).connections == old(ctx_a).connections
            &&& final(ctx_a).clients == old(ctx_a).clients
            &&& final(ctx_a).next_seq_send == old(ctx_a).next_seq_send
            &&& final(ctx_a).next_seq_recv == old(ctx_a).next_seq_recv
            &&& final(ctx_a).receipts == old(ctx_a).receipts
            &&& final(ctx_a).acks == old(ctx_a).acks
            &&& final(ctx_a).events@.len() >= old(ctx_a).events@.len() + 2
            &&& final(ctx_a).events@.subrange(0, old(ctx_a).events@.len() as int)
                == old(ctx_a).events@
            &&& final(ctx_a).events@[old(ctx_a).events@.len() as int] == IbcEvent::Message(
                MessageEvent::Channel,
            )
            &&& (final(ctx_a).events@[old(ctx_a).events@.len() as int + 1] matches
                IbcEvent::AcknowledgePacket { packet } && packet@ == msg.packet@)
            &&& (forall|i: int|
                old(ctx_a).events@.len() + 2 <= i < final(ctx_a).events@.len()
                    ==> (#[trigger] final(ctx_a).events@[i]) is Module)
        },
{
    match acknowledge_packet_validate(ctx_a, &msg, ack_proof_verified) {
        Ok(()) => (),
        Err(e) => {
            return Err(e);
        },
    }
    let packet = msg.packet;
    let sequence = packet.sequence.value();

    // The module sees the acknowledgement before any state change.
    let (extras, cb_result) = module.on_acknowledgement_packet_execute(
        &packet,
        &msg.acknowledgement,
    );
    match cb_result {
        Ok(()) => (),
        Err(e) => {
            return Err(ContextError::Packet(e));
        },
    }

    // Delete the commitment: the packet's life cycle on this chain is over.
    let commitment_key = crate::path::packet_key_string(
        &packet.source_port,
        &packet.source_channel,
        sequence,
    );
    ctx_a.packet_commitments.remove(&commitment_key);

    let chan_end_on_a = match ctx_a.channel_end(&packet.source_port, &packet.source_channel) {
        Ok(c) => c,
        Err(e) => {
            proof {
                assert(false);
            }
            return Err(ContextError::Channel(e));
        },
    };
    match chan_end_on_a.ordering {
        Order::Ordered => {
            let next_seq = match ctx_a.get_next_sequence_ack(
                &packet.source_port,
                &packet.source_channel,
            ) {
                Ok(s) => s,
                Err(e) => {
                    proof {
                        assert(false);
                    }
                    return Err(ContextError::Packet(e));
                },
            };
            let key = crate::path::port_channel_string(
                &packet.source_port,
                &packet.source_channel,
            );
            ctx_a.next_seq_ack.insert(key, next_seq + 1);
        },
        Order::Unordered => (),
    }

    ctx_a.emit_ibc_event(IbcEvent::Message(MessageEvent::Channel));
    ctx_a.emit_ibc_event(IbcEvent::AcknowledgePacket { packet });
    proof {
        let n0 = old(ctx_a).events@.len() as int;
        assert(ctx_a.events@.subrange(0, n0) =~= old(ctx_a).events@);
    }
    let ghost base_events = ctx_a.events@;
    let ghost mid = *ctx_a;
    let mut extras = extras;
    let n = extras.events.len();
    let mut i: usize = 0;
    while i < n
        invariant
            i <= n,
            ctx_a.well_formed(),
            extras.events@.len() == n - i,
            ctx_a.events@.len() >= base_events.len(),
            ctx_a.events@.subrange(0, base_events.len() as int) == base_events,
            forall|k: int|
                base_events.len() <= k < ctx_a.events@.len() ==> (
                #[trigger] ctx_a.events@[k]) is Module,
            ctx_a.logs == mid.logs,
            ctx_a.channels == mid.channels,
            ctx_a.connections == mid.connections,
            ctx_a.clients == mid.clients,
            ctx_a.next_seq_send == mid.next_seq_send,
            ctx_a.next_seq_recv == mid.next_seq_recv,
            ctx_a.next_seq_ack == mid.next_seq_ack,
            ctx_a.packet_commitments == mid.packet_commitments,
            ctx_a.receipts == mid.receipts,
            ctx_a.acks == mid.acks,
        decreases n - i,
    {
        let ghost pre = ctx_a.events@;
        let ev = extras.events.remove(0);
        ctx_a.emit_ibc_event(IbcEvent::Module(ev));
        proof {
            assert(ctx_a.events@.subrange(0, base_events.len() as int) =~= pre.subrange(
                0,
                base_events.len() as int,
            ));
        }
        i += 1;
    }
    proof {
        let n0 = old(ctx_a).events@.len() as int;
        assert forall|k: int| 0 <= k < base_events.len() implies ctx_a.events@[k]
            == base_events[k] by {
            assert(ctx_a.events@.subrange(0, base_events.len() as int)[k] == ctx_a.events@[k]);
        }
        assert(ctx_a.events@.subrange(0, n0) =~= old(ctx_a).events@) by {
            assert forall|k: int| 0 <= k < n0 implies ctx_a.events@[k] == old(
                ctx_a,
            ).events@[k] by {
                assert(ctx_a.events@.subrange(0, base_events.len() as int)[k]
                    == ctx_a.events@[k]);
                assert(base_events.subrange(0, n0)[k] == base_events[k]);
            }
        }
        assert(ctx_a.events@[n0] == base_events[n0]);
        assert(ctx_a.events@[n0 + 1] == base_events[n0 + 1]);
    }
    Ok(())
}

} // verus!
