//! Timing out a packet on chain A: with proof that chain B never received
//! it and that the timeout has passed on chain B, the sender's commitment
//! is deleted; an ordered channel is closed, since its sequence discipline
//! can no longer be honoured.

use vstd::prelude::*;

use crate::chan_msgs::{MsgTimeout, MsgTimeoutOnClose, PacketView};
use crate::channel::{ChannelEnd, ChannelEndView, Order, State as ChannelState};
use crate::client::{client_status, Status};
use crate::commitment::{bytes_equal, compute_packet_commitment, packet_commitment_spec};
use crate::errors::{ChannelError, ClientError, ConnectionError, ContextError, PacketError};
use crate::events::{IbcEvent, MessageEvent};
use crate::host::{conn_delay_passed, HostState};
use crate::path::{height_key, packet_key, port_channel_key};
use crate::router::Module;
use crate::timestamp::Timestamp;

verus! {

/// The timeout has passed on the counterparty as of the proven consensus
/// state: its timestamp exceeds the packet's timeout timestamp, or the
/// proof height has reached the packet's timeout height.
pub open spec fn timeout_reached(
    pv: PacketView,
    proof_height: crate::height::Height,
    consensus_timestamp: Timestamp,
) -> bool {
    ||| (pv.timeout_timestamp.spec_is_set() && consensus_timestamp.nanos
        > pv.timeout_timestamp.nanos)
    ||| (pv.timeout_height matches Some(th) && th.spec_le(proof_height))
}

/// When a timeout is accepted on chain A: the signer is well formed; the
/// source channel exists, is `Open` and points at the packet's destination;
/// its single connection exists; the stored packet commitment exists and
/// matches the claimed packet; the client tracking chain B is active,
/// covers the proof height, has a consensus state there, and the delay
/// discipline holds; the timeout has passed on chain B as proven; and on an
/// ordered channel the proven receive counter has not passed the packet.
pub open spec fn timeout_packet_ok(
    st: HostState,
    pv: PacketView,
    next_seq_recv_on_b: u64,
    proof_height: crate::height::Height,
    signer: Seq<char>,
) -> bool {
    let ck = port_channel_key(pv.source_port, pv.source_channel);
    let pk = packet_key(pv.source_port, pv.source_channel, pv.sequence);
    &&& signer.len() > 0
    &&& st.channels@.contains_key(ck)
    &&& st.channels@[ck].state == ChannelState::Open
    &&& st.channels@[ck].counterparty.port_id@ == pv.destination_port
    &&& (st.channels@[ck].counterparty.channel_id matches Some(c) && c@ == pv.destination_channel)
    &&& st.channels@[ck].connection_hops@.len() == 1
    &&& st.packet_commitments@.contains_key(pk)
    &&& st.packet_commitments@[pk]@ == packet_commitment_spec(
        pv.data,
        pv.timeout_height,
        pv.timeout_timestamp,
    )
    &&& {
        let conn_key = st.channels@[ck].connection_hops@[0]@;
        &&& st.connections@.contains_key(conn_key)
        &&& {
            let client_key = st.connections@[conn_key].client_id@;
            &&& st.clients@.contains_key(client_key)
            &&& client_status(st.clients@[client_key], st.host_timestamp) == Status::Active
            &&& proof_height.spec_le(st.clients@[client_key].latest_height)
            &&& st.clients@[client_key].consensus_states@.contains_key(height_key(proof_height))
            &&& conn_delay_passed(
                st,
                proof_height,
                st.connections@[conn_key].delay_period_nanos,
                st.clients@[client_key].consensus_states@[height_key(proof_height)].timestamp,
            )
            &&& timeout_reached(
                pv,
                proof_height,
                st.clients@[client_key].consensus_states@[height_key(proof_height)].timestamp,
            )
        }
    }
    &&& match st.channels@[ck].ordering {
        Order::Ordered => next_seq_recv_on_b <= pv.sequence,
        Order::Unordered => true,
    }
}

/// Read-only validation of a packet timeout. A timeout that has not passed
/// on the counterparty is rejected with `PacketTimeoutNotReached`.
pub fn timeout_packet_validate(
    ctx_a: &HostState,
    msg: &MsgTimeout,
    unreceived_proof_verified: bool,
) -> (r: Result<(), ContextError>)
    requires
        ctx_a.well_formed(),
    ensures
        r is Ok <==> timeout_packet_ok(
            *ctx_a,
            msg.packet@,
            msg.next_seq_recv_on_b.value,
            msg.proof_height_on_b,
            msg.signer@,
        ) && unreceived_proof_verified,
        (timeout_packet_ok(
            *ctx_a,
            msg.packet@,
            msg.next_seq_recv_on_b.value,
            msg.proof_height_on_b,
            msg.signer@,
        ) && !unreceived_proof_verified) ==> r == Err::<(), ContextError>(
            ContextError::Packet(PacketError::InvalidProof),
        ),
{
    match ctx_a.validate_message_signer(&msg.signer) {
        Ok(()) => (),
        Err(e) => {
            return Err(e);
        },
    }
    let packet = &msg.packet;
    let chan_end_on_a = match ctx_a.channel_end(&packet.source_port, &packet.source_channel) {
        Ok(c) => c,
        Err(e) => {
            return Err(ContextError::Channel(e));
        },
    };
    match chan_end_on_a.verify_state_matches(&ChannelState::Open) {
        Ok(()) => (),
        Err(e) => {
            return Err(ContextError::Channel(e));
        },
    }
    if !chan_end_on_a.counterparty.port_id.eq_id(&packet.destination_port) {
        return Err(ContextError::Channel(ChannelError::MissingCounterparty));
    }
    match &chan_end_on_a.counterparty.channel_id {
        Some(c) => {
            if !c.eq_id(&packet.destination_channel) {
                return Err(ContextError::Channel(ChannelError::MissingCounterparty));
            }
        },
        None => {
            return Err(ContextError::Channel(ChannelError::MissingCounterparty));
        },
    }
    let ghost stored = ctx_a.channels@[port_channel_key(
        packet.source_port@,
        packet.source_channel@,
    )];
    proof {
        assert(chan_end_on_a.connection_hops.deep_view() == stored.connection_hops.deep_view());
        assert(chan_end_on_a.connection_hops.deep_view().len()
            == chan_end_on_a.connection_hops@.len());
        assert(stored.connection_hops.deep_view().len() == stored.connection_hops@.len());
    }
    if chan_end_on_a.connection_hops.len() != 1 {
        return Err(ContextError::Connection(ConnectionError::ConnectionNotFound));
    }
    proof {
        assert(chan_end_on_a.connection_hops.deep_view()[0]
            == chan_end_on_a.connection_hops@[0]@);
        assert(stored.connection_hops.deep_view()[0] == stored.connection_hops@[0]@);
    }
    let commitment = match ctx_a.get_packet_commitment(
        &packet.source_port,
        &packet.source_channel,
        packet.sequence.value(),
    ) {
        Some(c) => c,
        None => {
            return Err(ContextError::Packet(PacketError::PacketCommitmentNotFound));
        },
    };
    let expected = compute_packet_commitment(
        packet.data.as_slice(),
        &packet.timeout_height,
        &packet.timeout_timestamp,
    );
    if !bytes_equal(commitment.as_slice(), expected.as_slice()) {
        return Err(ContextError::Packet(PacketError::PacketCommitmentMismatch));
    }
    let conn_end_on_a = match ctx_a.connection_end(&chan_end_on_a.connection_hops[0]) {
        Ok(c) => c,
        Err(e) => {
            return Err(ContextError::Connection(e));
        },
    };
    let client = match ctx_a.client_record(&conn_end_on_a.client_id) {
        Ok(c) => c,
        Err(e) => {
            return Err(ContextError::Client(e));
        },
    };
    let host_timestamp = ctx_a.host_timestamp();
    let status = client.status(&host_timestamp);
    if !status.is_active() {
        return Err(ContextError::Client(ClientError::ClientNotActive { status }));
    }
    match client.validate_proof_height(&msg.proof_height_on_b) {
        Ok(()) => (),
        Err(e) => {
            return Err(ContextError::Client(e));
        },
    }
    let consensus_state = match client.consensus_state_at(&msg.proof_height_on_b) {
        Some(c) => c,
        None => {
            return Err(ContextError::Client(ClientError::ConsensusStateNotFound));
        },
    };
    match ctx_a.verify_conn_delay_passed(
        &msg.proof_height_on_b,
        conn_end_on_a.delay_period_nanos,
        &consensus_state.timestamp,
    ) {
        Ok(()) => (),
        Err(e) => {
            return Err(ContextError::Connection(e));
        },
    }
    let ts_reached: bool = packet.timeout_timestamp.is_set()
        && consensus_state.timestamp.nanoseconds() > packet.timeout_timestamp.nanoseconds();
    let height_reached: bool = match &packet.timeout_height {
        Some(th) => th.le(&msg.proof_height_on_b),
        None => false,
    };
    if !ts_reached && !height_reached {
        return Err(ContextError::Packet(PacketError::PacketTimeoutNotReached));
    }
    match chan_end_on_a.ordering {
        Order::Ordered => {
            // The proven receive counter on chain B must not have passed
            // the packet: otherwise it was received.
            if msg.next_seq_recv_on_b.value() > packet.sequence.value() {
                return Err(
                    ContextError::Packet(
                        PacketError::PacketSequenceMismatch {
                            expected: packet.sequence.value(),
                            actual: msg.next_seq_recv_on_b.value(),
                        },
                    ),
                );
            }
        },
        Order::Unordered => (),
    }
    if !unreceived_proof_verified {
        return Err(ContextError::Packet(PacketError::InvalidProof));
    }
    Ok(())
}

/// Times a packet out: on success the packet commitment is deleted, an
/// ordered channel moves to `Closed`, and a `Message` and a `TimeoutPacket`
/// event are emitted. On failure nothing changes.
pub fn timeout_packet_execute<M: Module>(
    ctx_a: &mut HostState,
    module: &mut M,
    msg: MsgTimeout,
    unreceived_proof_verified: bool,
) -> (r: Result<(), ContextError>)
    requires
        old(ctx_a).well_formed(),
    ensures
        final(ctx_a).well_formed(),
        r is Ok ==> timeout_packet_ok(
            *old(ctx_a),
            msg.packet@,
            msg.next_seq_recv_on_b.value,
            msg.proof_height_on_b,
            msg.signer@,
        ) && unreceived_proof_verified,
        !(timeout_packet_ok(
            *old(ctx_a),
            msg.packet@,
            msg.next_seq_recv_on_b.value,
            msg.proof_height_on_b,
            msg.signer@,
        ) && unreceived_proof_verified) ==> r is Err,
        r is Err ==> *final(ctx_a) == *old(ctx_a),
        r is Ok ==> {
            let ck = port_channel_key(msg.packet.source_port@, msg.packet.source_channel@);
            let pk = packet_key(
                msg.packet.source_port@,
                msg.packet.source_channel@,
                msg.packet.sequence.value,
            );
            &&& final(ctx_a).packet_commitments@ == old(ctx_a).packet_commitments@.remove(pk)
            &&& match old(ctx_a).channels@[ck].ordering {
                Order::Ordered => (exists|ce: ChannelEnd|
                    ce@ == (ChannelEndView {
                        state: ChannelState::Closed,
                        ..old(ctx_a).channels@[ck]@
                    }) && final(ctx_a).channels@ == old(ctx_a).channels@.insert(ck, ce)),
                Order::Unordered => final(ctx_a).channels == old(ctx_a).channels,
            }
            &&& final(ctx_a).connections == old(ctx_a).connections
            &&& final(ctx_a).clients == old(ctx_a).clients
            &&& final(ctx_a).next_seq_send == old(ctx_a).next_seq_send
            &&& final(ctx_a).next_seq_recv == old(ctx_a).next_seq_recv
            &&& final(ctx_a).next_seq_ack == old(ctx_a).next_seq_ack
            &&& final(ctx_a).receipts == old(ctx_a).receipts
            &&& final(ctx_a).acks == old(ctx_a).acks
            &&& final(ctx_a).events@.len() >= old(ctx_a).events@.len() + 2
            &&& final(ctx_a).events@.subrange(0, old(ctx_a).events@.len() as int)
                == old(ctx_a).events@
            &&& final(ctx_a).events@[old(ctx_a).events@.len() as int] == IbcEvent::Message(
                MessageEvent::Channel,
            )
            &&& (final(ctx_a).events@[old(ctx_a).events@.len() as int + 1] matches
                IbcEvent::TimeoutPacket { packet } && packet@ == msg.packet@)
            &&& (forall|i: int|
                old(ctx_a).events@.len() + 2 <= i < final(ctx_a).events@.len()
                    ==> (#[trigger] final(ctx_a).events@[i]) is Module)
        },
{
    match timeout_packet_validate(ctx_a, &msg, unreceived_proof_verified) {
        Ok(()) => (),
        Err(e) => {
            return Err(e);
        },
    }
    let packet = msg.packet;
    let sequence = packet.sequence.value();

    // The module hears about the timeout before any state change.
    let (extras, cb_result) = module.on_timeout_packet_execute(&packet);
    match cb_result {
        Ok(()) => (),
        Err(e) => {
            return Err(ContextError::Packet(e));
        },
    }

    // Delete the commitment; the packet can no longer be received.
    let commitment_key = crate::path::packet_key_string(
        &packet.source_port,
        &packet.source_channel,
        sequence,
    );
    ctx_a.packet_commitments.remove(&commitment_key);

    // An ordered channel cannot skip the sequence: close it.
    let chan_end_on_a = match ctx_a.channel_end(&packet.source_port, &packet.source_channel) {
        Ok(c) => c,
        Err(e) => {
            proof {
                assert(false);
            }
            return Err(ContextError::Channel(e));
        },
    };
    let ghost stored = old(ctx_a).channels@[port_channel_key(
        packet.source_port@,
        packet.source_channel@,
    )];
    let is_ordered = match chan_end_on_a.ordering {
        Order::Ordered => true,
        Order::Unordered => false,
    };
    if is_ordered {
        let mut chan_end_closed = chan_end_on_a;
        chan_end_closed.set_state(ChannelState::Closed);
        proof {
            assert(chan_end_closed@ =~~= (ChannelEndView {
                state: ChannelState::Closed,
                ..stored@
            }));
        }
        let key = crate::path::port_channel_string(&packet.source_port, &packet.source_channel);
        ctx_a.channels.insert(key, chan_end_closed);
    }

    ctx_a.emit_ibc_event(IbcEvent::Message(MessageEvent::Channel));
    ctx_a.emit_ibc_event(IbcEvent::TimeoutPacket { packet });
    proof {
        let n0 = old(ctx_a).events@.len() as int;
        assert(ctx_a.events@.subrange(0, n0) =~= old(ctx_a).events@);
    }
    let ghost base_events = ctx_a.events@;
    let ghost mid = *ctx_a;
    let mut extras = extras;
    let n = extras.events.len();
    let mut i: usize = 0;
    while i < n
        invariant
            i <= n,
            ctx_a.well_formed(),
            extras.events@.len() == n - i,
            ctx_a.events@.len() >= base_events.len(),
            ctx_a.events@.subrange(0, base_events.len() as int) == base_events,
            forall|k: int|
                base_events.len() <= k < ctx_a.events@.len() ==> (
                #[trigger] ctx_a.events@[k]) is Module,
            ctx_a.logs == mid.logs,
            ctx_a.channels == mid.channels,
            ctx_a.connections == mid.connections,
            ctx_a.clients == mid.clients,
            ctx_a.next_seq_send == mid.next_seq_send,
            ctx_a.next_seq_recv == mid.next_seq_recv,
            ctx_a.next_seq_ack == mid.next_seq_ack,
            ctx_a.packet_commitments == mid.packet_commitments,
            ctx_a.receipts == mid.receipts,
            ctx_a.acks == mid.acks,
        decreases n - i,
    {
        let ghost pre = ctx_a.events@;
        let ev = extras.events.remove(0);
        ctx_a.emit_ibc_event(IbcEvent::Module(ev));
        proof {
            assert(ctx_a.events@.subrange(0, base_events.len() as int) =~= pre.subrange(
                0,
                base_events.len() as int,
            ));
        }
        i += 1;
    }
    proof {
        let n0 = old(ctx_a).events@.len() as int;
        assert forall|k: int| 0 <= k < base_events.len() implies ctx_a.events@[k]
            == base_events[k] by {
            assert(ctx_a.events@.subrange(0, base_events.len() as int)[k] == ctx_a.events@[k]);
        }
        assert(ctx_a.events@.subrange(0, n0) =~= old(ctx_a).events@) by {
            assert forall|k: int| 0 <= k < n0 implies ctx_a.events@[k] == old(
                ctx_a,
            ).events@[k] by {
                assert(ctx_a.events@.subrange(0, base_events.len() as int)[k]
                    == ctx_a.events@[k]);
                assert(base_events.subrange(0, n0)[k] == base_events[k]);
            }
        }
        assert(ctx_a.events@[n0] == base_events[n0]);
        assert(ctx_a.events@[n0 + 1] == base_events[n0 + 1]);
    }
    Ok(())
}

/// When a timeout-on-close is accepted on chain A: as a packet timeout, but
/// in place of the elapsed-timeout requirement the counterparty channel is
/// proven `Closed`, so the packet can never be received.
pub open spec fn timeout_on_close_ok(
    st: HostState,
    pv: PacketView,
    next_seq_recv_on_b: u64,
    proof_height: crate::height::Height,
    signer: Seq<char>,
) -> bool {
    let ck = port_channel_key(pv.source_port, pv.source_channel);
    let pk = packet_key(pv.source_port, pv.source_channel, pv.sequence);
    &&& signer.len() > 0
    &&& st.channels@.contains_key(ck)
    &&& st.channels@[ck].state == ChannelState::Open
    &&& st.channels@[ck].counterparty.port_id@ == pv.destination_port
    &&& (st.channels@[ck].counterparty.channel_id matches Some(c) && c@ == pv.destination_channel)
    &&& st.channels@[ck].connection_hops@.len() == 1
    &&& st.packet_commitments@.contains_key(pk)
    &&& st.packet_commitments@[pk]@ == packet_commitment_spec(
        pv.data,
        pv.timeout_height,
        pv.timeout_timestamp,
    )
    &&& {
        let conn_key = st.channels@[ck].connection_hops@[0]@;
        &&& st.connections@.contains_key(conn_key)
        &&& st.connections@[conn_key].counterparty.connection_id is Some
        &&& {
            let client_key = st.connections@[conn_key].client_id@;
            &&& st.clients@.contains_key(client_key)
            &&& client_status(st.clients@[client_key], st.host_timestamp) == Status::Active
            &&& proof_height.spec_le(st.clients@[client_key].latest_height)
            &&& st.clients@[client_key].consensus_states@.contains_key(height_key(proof_height))
            &&& conn_delay_passed(
                st,
                proof_height,
                st.connections@[conn_key].delay_period_nanos,
                st.clients@[client_key].consensus_states@[height_key(proof_height)].timestamp,
            )
        }
    }
    &&& match st.channels@[ck].ordering {
        Order::Ordered => next_seq_recv_on_b <= pv.sequence,
        Order::Unordered => true,
    }
}

/// Read-only validation of a timeout-on-close: checks exactly the
/// `timeout_on_close_ok` conditions, then the membership proof of chain B's
/// closed channel end.
pub fn timeout_on_close_validate(
    ctx_a: &HostState,
    msg: &MsgTimeoutOnClose,
    unreceived_proof_verified: bool,
    close_proof_verified: bool,
) -> (r: Result<(), ContextError>)
    requires
        ctx_a.well_formed(),
    ensures
        r is Ok <==> timeout_on_close_ok(
            *ctx_a,
            msg.packet@,
            msg.next_seq_recv_on_b.value,
            msg.proof_height_on_b,
            msg.signer@,
        ) && unreceived_proof_verified && close_proof_verified,
        (timeout_on_close_ok(
            *ctx_a,
            msg.packet@,
            msg.next_seq_recv_on_b.value,
            msg.proof_height_on_b,
            msg.signer@,
        ) && !close_proof_verified) ==> r == Err::<(), ContextError>(
            ContextError::Channel(ChannelError::VerifyChannelFailed),
        ),
        (timeout_on_close_ok(
            *ctx_a,
            msg.packet@,
            msg.next_seq_recv_on_b.value,
            msg.proof_height_on_b,
            msg.signer@,
        ) && close_proof_verified && !unreceived_proof_verified) ==> r == Err::<
            (),
            ContextError,
        >(ContextError::Packet(PacketError::InvalidProof)),
{
    match ctx_a.validate_message_signer(&msg.signer) {
        Ok(()) => (),
        Err(e) => {
            return Err(e);
        },
    }
    let packet = &msg.packet;
    let chan_end_on_a = match ctx_a.channel_end(&packet.source_port, &packet.source_channel) {
        Ok(c) => c,
        Err(e) => {
            return Err(ContextError::Channel(e));
        },
    };
    match chan_end_on_a.verify_state_matches(&ChannelState::Open) {
        Ok(()) => (),
        Err(e) => {
            return Err(ContextError::Channel(e));
        },
    }
    if !chan_end_on_a.counterparty.port_id.eq_id(&packet.destination_port) {
        return Err(ContextError::Channel(ChannelError::MissingCounterparty));
    }
    match &chan_end_on_a.counterparty.channel_id {
        Some(c) => {
            if !c.eq_id(&packet.destination_channel) {
                return Err(ContextError::Channel(ChannelError::MissingCounterparty));
            }
        },
        None => {
            return Err(ContextError::Channel(ChannelError::MissingCounterparty));
        },
    }
    let ghost stored = ctx_a.channels@[port_channel_key(
        packet.source_port@,
        packet.source_channel@,
    )];
    proof {
        assert(chan_end_on_a.connection_hops.deep_view() == stored.connection_hops.deep_view());
        assert(chan_end_on_a.connection_hops.deep_view().len()
            == chan_end_on_a.connection_hops@.len());
        assert(stored.connection_hops.deep_view().len() == stored.connection_hops@.len());
    }
    if chan_end_on_a.connection_hops.len() != 1 {
        return Err(ContextError::Connection(ConnectionError::ConnectionNotFound));
    }
    proof {
        assert(chan_end_on_a.connection_hops.deep_view()[0]
            == chan_end_on_a.connection_hops@[0]@);
        assert(stored.connection_hops.deep_view()[0] == stored.connection_hops@[0]@);
    }
    let commitment = match ctx_a.get_packet_commitment(
        &packet.source_port,
        &packet.source_channel,
        packet.sequence.value(),
    ) {
        Some(c) => c,
        None => {
            return Err(ContextError::Packet(PacketError::PacketCommitmentNotFound));
        },
    };
    let expected = compute_packet_commitment(
        packet.data.as_slice(),
        &packet.timeout_height,
        &packet.timeout_timestamp,
    );
    if !bytes_equal(commitment.as_slice(), expected.as_slice()) {
        return Err(ContextError::Packet(PacketError::PacketCommitmentMismatch));
    }
    let conn_end_on_a = match ctx_a.connection_end(&chan_end_on_a.connection_hops[0]) {
        Ok(c) => c,
        Err(e) => {
            return Err(ContextError::Connection(e));
        },
    };
    match &conn_end_on_a.counterparty.connection_id {
        Some(_) => (),
        None => {
            return Err(ContextError::Channel(ChannelError::UndefinedConnectionCounterparty));
        },
    }
    let client = match ctx_a.client_record(&conn_end_on_a.client_id) {
        Ok(c) => c,
        Err(e) => {
            return Err(ContextError::Client(e));
        },
    };
    let host_timestamp = ctx_a.host_timestamp();
    let status = client.status(&host_timestamp);
    if !status.is_active() {
        return Err(ContextError::Client(ClientError::ClientNotActive { status }));
    }
    match client.validate_proof_height(&msg.proof_height_on_b) {
        Ok(()) => (),
        Err(e) => {
            return Err(ContextError::Client(e));
        },
    }
    let consensus_state = match client.consensus_state_at(&msg.proof_height_on_b) {
        Some(c) => c,
        None => {
            return Err(ContextError::Client(ClientError::ConsensusStateNotFound));
        },
    };
    match ctx_a.verify_conn_delay_passed(
        &msg.proof_height_on_b,
        conn_end_on_a.delay_period_nanos,
        &consensus_state.timestamp,
    ) {
        Ok(()) => (),
        Err(e) => {
            return Err(ContextError::Connection(e));
        },
    }
    match chan_end_on_a.ordering {
        Order::Ordered => {
            if msg.next_seq_recv_on_b.value() > packet.sequence.value() {
                return Err(
                    ContextError::Packet(
                        PacketError::PacketSequenceMismatch {
                            expected: packet.sequence.value(),
                            actual: msg.next_seq_recv_on_b.value(),
                        },
                    ),
                );
            }
        },
        Order::Unordered => (),
    }

    // The proof must show the channel end chain B stored when it closed its
    // side: `Closed`, pointing back at this port and channel.
    if !close_proof_verified {
        return Err(ContextError::Channel(ChannelError::VerifyChannelFailed));
    }
    if !unreceived_proof_verified {
        return Err(ContextError::Packet(PacketError::InvalidProof));
    }
    Ok(())
}

/// Times a packet out against a closed counterparty: the same effects as a
/// packet timeout, with the closed-channel proof in place of the elapsed
/// timeout. On failure nothing changes.
pub fn timeout_on_close_execute<M: Module>(
    ctx_a: &mut HostState,
    module: &mut M,
    msg: MsgTimeoutOnClose,
    unreceived_proof_verified: bool,
    close_proof_verified: bool,
) -> (r: Result<(), ContextError>)
    requires
        old(ctx_a).well_formed(),
    ensures
        final(ctx_a).well_formed(),
        r is Ok ==> timeout_on_close_ok(
            *old(ctx_a),
            msg.packet@,
            msg.next_seq_recv_on_b.value,
            msg.proof_height_on_b,
            msg.signer@,
        ) && unreceived_proof_verified && close_proof_verified,
        !(timeout_on_close_ok(
            *old(ctx_a),
            msg.packet@,
            msg.next_seq_recv_on_b.value,
            msg.proof_height_on_b,
            msg.signer@,
        ) && unreceived_proof_verified && close_proof_verified) ==> r is Err,
        r is Err ==> *final(ctx_a) == *old(ctx_a),
        r is Ok ==> {
            let ck = port_channel_key(msg.packet.source_port@, msg.packet.source_channel@);
            let pk = packet_key(
                msg.packet.source_port@,
                msg.packet.source_channel@,
                msg.packet.sequence.value,
            );
            &&& final(ctx_a).packet_commitments@ == old(ctx_a).packet_commitments@.remove(pk)
            &&& match old(ctx_a).channels@[ck].ordering {
                Order::Ordered => (exists|ce: ChannelEnd|
                    ce@ == (ChannelEndView {
                        state: ChannelState::Closed,
                        ..old(ctx_a).channels@[ck]@
                    }) && final(ctx_a).channels@ == old(ctx_a).channels@.insert(ck, ce)),
                Order::Unordered => final(ctx_a).channels == old(ctx_a).channels,
            }
            &&& final(ctx_a).connections == old(ctx_a).connections
            &&& final(ctx_a).clients == old(ctx_a).clients
            &&& final(ctx_a).next_seq_send == old(ctx_a).next_seq_send
            &&& final(ctx_a).next_seq_recv == old(ctx_a).next_seq_recv
            &&& final(ctx_a).next_seq_ack == old(ctx_a).next_seq_ack
            &&& final(ctx_a).receipts == old(ctx_a).receipts
            &&& final(ctx_a).acks == old(ctx_a).acks
            &&& final(ctx_a).events@.len() >= old(ctx_a).events@.len() + 2
            &&& final(ctx_a).events@.subrange(0, old(ctx_a).events@.len() as int)
                == old(ctx_a).events@
            &&& final(ctx_a).events@[old(ctx_a).events@.len() as int] == IbcEvent::Message(
                MessageEvent::Channel,
            )
            &&& (final(ctx_a).events@[old(ctx_a).events@.len() as int + 1] matches
                IbcEvent::TimeoutPacket { packet } && packet@ == msg.packet@)
            &&& (forall|i: int|
                old(ctx_a).events@.len() + 2 <= i < final(ctx_a).events@.len()
                    ==> (#[trigger] final(ctx_a).events@[i]) is Module)
        },
{
    match timeout_on_close_validate(ctx_a, &msg, unreceived_proof_verified, close_proof_verified) {
        Ok(()) => (),
        Err(e) => {
            return Err(e);
        },
    }
    let packet = msg.packet;
    let sequence = packet.sequence.value();

    // The module hears about the timeout before any state change.
    let (extras, cb_result) = module.on_timeout_packet_execute(&packet);
    match cb_result {
        Ok(()) => (),
        Err(e) => {
            return Err(ContextError::Packet(e));
        },
    }

    // Delete the commitment; the packet can no longer be received.
    let commitment_key = crate::path::packet_key_string(
        &packet.source_port,
        &packet.source_channel,
        sequence,
    );
    ctx_a.packet_commitments.remove(&commitment_key);

    // An ordered channel cannot skip the sequence: close it.
    let chan_end_on_a = match ctx_a.channel_end(&packet.source_port, &packet.source_channel) {
        Ok(c) => c,
        Err(e) => {
            proof {
                assert(false);
            }
            return Err(ContextError::Channel(e));
        },
    };
    let ghost stored = old(ctx_a).channels@[port_channel_key(
        packet.source_port@,
        packet.source_channel@,
    )];
    let is_ordered = match chan_end_on_a.ordering {
        Order::Ordered => true,
        Order::Unordered => false,
    };
    if is_ordered {
        let mut chan_end_closed = chan_end_on_a;
        chan_end_closed.set_state(ChannelState::Closed);
        proof {
            assert(chan_end_closed@ =~~= (ChannelEndView {
                state: ChannelState::Closed,
                ..stored@
            }));
        }
        let key = crate::path::port_channel_string(&packet.source_port, &packet.source_channel);
        ctx_a.channels.insert(key, chan_end_closed);
    }

    ctx_a.emit_ibc_event(IbcEvent::Message(MessageEvent::Channel));
    ctx_a.emit_ibc_event(IbcEvent::TimeoutPacket { packet });
    proof {
        let n0 = old(ctx_a).events@.len() as int;
        assert(ctx_a.events@.subrange(0, n0) =~= old(ctx_a).events@);
    }
    let ghost base_events = ctx_a.events@;
    let ghost mid = *ctx_a;
    let mut extras = extras;
    let n = extras.events.len();
    let mut i: usize = 0;
    while i < n
        invariant
            i <= n,
            ctx_a.well_formed(),
            extras.events@.len() == n - i,
            ctx_a.events@.len() >= base_events.len(),
            ctx_a.events@.subrange(0, base_events.len() as int) == base_events,
            forall|k: int|
                base_events.len() <= k < ctx_a.events@.len() ==> (
                #[trigger] ctx_a.events@[k]) is Module,
            ctx_a.logs == mid.logs,
            ctx_a.channels == mid.channels,
            ctx_a.connections == mid.connections,
            ctx_a.clients == mid.clients,
            ctx_a.next_seq_send == mid.next_seq_send,
            ctx_a.next_seq_recv == mid.next_seq_recv,
            ctx_a.next_seq_ack == mid.next_seq_ack,
            ctx_a.packet_commitments == mid.packet_commitments,
            ctx_a.receipts == mid.receipts,
            ctx_a.acks == mid.acks,
        decreases n - i,
    {
        let ghost pre = ctx_a.events@;
        let ev = extras.events.remove(0);
        ctx_a.emit_ibc_event(IbcEvent::Module(ev));
        proof {
            assert(ctx_a.events@.subrange(0, base_events.len() as int) =~= pre.subrange(
                0,
                base_events.len() as int,
            ));
        }
        i += 1;
    }
    proof {
        let n0 = old(ctx_a).events@.len() as int;
        assert forall|k: int| 0 <= k < base_events.len() implies ctx_a.events@[k]
            == base_events[k] by {
            assert(ctx_a.events@.subrange(0, base_events.len() as int)[k] == ctx_a.events@[k]);
        }
        assert(ctx_a.events@.subrange(0, n0) =~= old(ctx_a).events@) by {
            assert forall|k: int| 0 <= k < n0 implies ctx_a.events@[k] == old(
                ctx_a,
            ).events@[k] by {
                assert(ctx_a.events@.subrange(0, base_events.len() as int)[k]
                    == ctx_a.events@[k]);
                assert(base_events.subrange(0, n0)[k] == base_events[k]);
            }
        }
        assert(ctx_a.events@[n0] == base_events[n0]);
        assert(ctx_a.events@[n0 + 1] == base_events[n0 + 1]);
    }
    Ok(())
}

} // verus!
