use ibc_core::ack_packet::acknowledge_packet_execute;
use sha2::{Digest, Sha256};
use ibc_core::chan_close_confirm::{chan_close_confirm_execute, validate};
use ibc_core::chan_close_init::chan_close_init_execute;
use ibc_core::chan_msgs::{
    MsgAcknowledgement, MsgChannelCloseConfirm, MsgChannelCloseInit, MsgRecvPacket, MsgTimeout,
    MsgTimeoutOnClose, Packet,
};
use ibc_core::channel::{ChannelEnd, Counterparty, Order, State as ChannelState};
use ibc_core::client::{ClientRecord, ConsensusStateRecord};
use ibc_core::commitment::{
    compute_packet_commitment, CommitmentProofBytes, CommitmentPrefix, CommitmentRoot,
};
use ibc_core::conn_handshake::{conn_open_ack, conn_open_confirm, conn_open_init, dispatch_connection_msg};
use ibc_core::conn_msgs::{ConnectionMsg, MsgConnectionOpenAck, MsgConnectionOpenConfirm, MsgConnectionOpenInit};
use ibc_core::connection::{
    ConnectionEnd, Counterparty as ConnCounterparty, State as ConnectionState, Version,
};
use ibc_core::errors::{ChannelError, ContextError, PacketError};
use ibc_core::events::{IbcEvent, MessageEvent};
use ibc_core::height::Height;
use ibc_core::host::HostState;
use ibc_core::identifier::{ChannelId, ClientId, ConnectionId, PortId, Sequence};
use ibc_core::raw::Any;
use ibc_core::recv_packet::{recv_packet_execute, recv_packet_validate};
use ibc_core::router::AcceptingModule;
use ibc_core::send_packet::send_packet_execute;
use ibc_core::signer::Signer;
use ibc_core::store::Store;
use ibc_core::timeout_packet::{timeout_on_close_execute, timeout_on_close_validate, timeout_packet_execute};
use ibc_core::timestamp::Timestamp;

fn dummy_signer() -> Signer {
    Signer::from_string("cosmos1wxeyh7zgn4tctjzs0vtqpc6p5cxq5t2muzl7ng".to_string())
}

fn dummy_proof() -> CommitmentProofBytes {
    CommitmentProofBytes::try_from_vec(b"commitment_proof".to_vec()).unwrap()
}

fn client_id() -> ClientId {
    ClientId::from_str("07-tendermint-24").unwrap()
}

fn port() -> PortId {
    PortId::from_str("defaultPort").unwrap()
}

fn chan(n: u64) -> ChannelId {
    ChannelId::new(n)
}

/// A host at height `(0, 20)`, time `base_time`, with one active client
/// holding a consensus state at `(0, 10)`, one open connection and one open
/// channel bound to `defaultPort`/`channel-0`.
fn base_host(ordering: Order, delay_period_nanos: u64, consensus_ts: u64, host_ts: u64)
    -> HostState {
    let mut st = HostState::new(
        Height::new(0, 20).unwrap(),
        Timestamp::from_nanoseconds(host_ts),
        2_000_000_000,
    );

    let mut consensus_states: Store<ConsensusStateRecord> = Store::new();
    consensus_states.insert(
        "0-10".to_string(),
        ConsensusStateRecord {
            timestamp: Timestamp::from_nanoseconds(consensus_ts),
            root: CommitmentRoot::from_bytes(b"app_hash"),
        },
    );
    let record = ClientRecord {
        latest_height: Height::new(0, 10).unwrap(),
        frozen_height: None,
        trusting_period_nanos: 0,
        latest_timestamp: Timestamp::from_nanoseconds(consensus_ts),
        consensus_states,
    };
    st.clients.insert("07-tendermint-24".to_string(), record);

    let conn_end = ConnectionEnd::new(
        ConnectionState::Open,
        client_id(),
        ConnCounterparty::new(
            client_id(),
            Some(ConnectionId::new(0)),
            CommitmentPrefix::from_bytes(b"ibc"),
        ),
        vec![Version::compatible()],
        delay_period_nanos,
    );
    st.connections.insert("connection-2".to_string(), conn_end);

    let chan_end = ChannelEnd::new(
        ChannelState::Open,
        ordering,
        Counterparty::new(port(), Some(chan(1))),
        vec![ConnectionId::new(2)],
        "ics20-1".to_string(),
    )
    .unwrap();
    st.channels.insert("ports/defaultPort/channels/channel-0".to_string(), chan_end);

    st.next_seq_send.insert("ports/defaultPort/channels/channel-0".to_string(), 1);
    st.next_seq_recv.insert("ports/defaultPort/channels/channel-0".to_string(), 1);
    st.next_seq_ack.insert("ports/defaultPort/channels/channel-0".to_string(), 1);
    st
}

fn packet(sequence: u64, timeout_height: Option<Height>, timeout_ts: u64) -> Packet {
    Packet {
        sequence: Sequence::new(sequence),
        source_port: port(),
        source_channel: chan(0),
        destination_port: port(),
        destination_channel: chan(1),
        data: b"testdata".to_vec(),
        timeout_height,
        timeout_timestamp: Timestamp::from_nanoseconds(timeout_ts),
    }
}

/// An inbound packet: its source is the counterparty `channel-1`, its
/// destination this chain's `channel-0`.
fn inbound_packet(sequence: u64, timeout_height: Option<Height>, timeout_ts: u64) -> Packet {
    Packet {
        sequence: Sequence::new(sequence),
        source_port: port(),
        source_channel: chan(1),
        destination_port: port(),
        destination_channel: chan(0),
        data: b"testdata".to_vec(),
        timeout_height,
        timeout_timestamp: Timestamp::from_nanoseconds(timeout_ts),
    }
}

#[test]
fn test_chan_close_confirm_validate() {
    let context = base_host(Order::Unordered, 0, 1_000, 2_000);
    let msg_chan_close_confirm = MsgChannelCloseConfirm {
        port_id_on_b: port(),
        chan_id_on_b: chan(0),
        proof_chan_end_on_a: dummy_proof(),
        proof_height_on_a: Height::new(0, 10).unwrap(),
        signer: dummy_signer(),
    };

    let res = validate(&context, &msg_chan_close_confirm, true);
    assert!(
        res.is_ok(),
        "Validation expected to succeed (happy path). Error: {res:?}"
    );
}

#[test]
fn test_chan_close_confirm_execute() {
    let mut context = base_host(Order::Unordered, 0, 1_000, 2_000);
    let msg_chan_close_confirm = MsgChannelCloseConfirm {
        port_id_on_b: port(),
        chan_id_on_b: chan(0),
        proof_chan_end_on_a: dummy_proof(),
        proof_height_on_a: Height::new(0, 10).unwrap(),
        signer: dummy_signer(),
    };
    let mut module = AcceptingModule::new();

    let res = chan_close_confirm_execute(&mut context, &mut module, msg_chan_close_confirm);
    assert!(res.is_ok(), "Execution success: happy path");

    assert_eq!(context.events.len(), 2);
    assert!(matches!(context.events[0], IbcEvent::Message(MessageEvent::Channel)));
    assert!(matches!(context.events[1], IbcEvent::CloseConfirmChannel { .. }));

    let closed = context
        .channel_end(&port(), &chan(0))
        .unwrap();
    assert_eq!(closed.state, ChannelState::Closed);
}

#[test]
fn chan_close_init_closes_channel() {
    let mut context = base_host(Order::Unordered, 0, 1_000, 2_000);
    let msg = MsgChannelCloseInit {
        port_id_on_a: port(),
        chan_id_on_a: chan(0),
        signer: dummy_signer(),
    };
    let mut module = AcceptingModule::new();
    let res = chan_close_init_execute(&mut context, &mut module, msg);
    assert!(res.is_ok());
    let closed = context.channel_end(&port(), &chan(0)).unwrap();
    assert_eq!(closed.state, ChannelState::Closed);
    assert!(matches!(context.events[1], IbcEvent::CloseInitChannel { .. }));
}

#[test]
fn send_packet_stores_commitment_and_advances_counter() {
    let mut context = base_host(Order::Unordered, 0, 1_000, 2_000);
    let p = packet(1, Some(Height::new(0, 100).unwrap()), 0);
    let res = send_packet_execute(&mut context, p);
    assert!(res.is_ok(), "send expected to succeed: {res:?}");

    // The stored commitment is the spec's hash, computed independently.
    let stored = context
        .get_packet_commitment(&port(), &chan(0), 1)
        .expect("commitment must be present");
    let expected = {
        let mut buf: Vec<u8> = Vec::new();
        buf.extend_from_slice(&0u64.to_be_bytes());
        buf.extend_from_slice(&0u64.to_be_bytes());
        buf.extend_from_slice(&100u64.to_be_bytes());
        buf.extend_from_slice(Sha256::digest(b"testdata").as_slice());
        Sha256::digest(&buf).to_vec()
    };
    assert_eq!(stored, &expected);

    assert_eq!(context.get_next_sequence_send(&port(), &chan(0)).unwrap(), 2);
    assert_eq!(context.events.len(), 2);
    assert!(matches!(context.events[0], IbcEvent::Message(MessageEvent::Channel)));
    assert!(matches!(context.events[1], IbcEvent::SendPacket { .. }));

    // A packet that does not carry the next send sequence is rejected.
    let p = packet(7, Some(Height::new(0, 100).unwrap()), 0);
    let res = send_packet_execute(&mut context, p);
    assert!(matches!(
        res,
        Err(ContextError::Packet(PacketError::PacketSequenceMismatch { expected: 2, actual: 7 }))
    ));
}

#[test]
fn recv_packet_rejects_replays() {
    // Unordered: a receipt already written rejects the packet.
    let mut context = base_host(Order::Unordered, 0, 1_000, 2_000);
    let mut module = AcceptingModule::new();
    let p = inbound_packet(5, Some(Height::new(0, 100).unwrap()), 0);
    let msg = MsgRecvPacket {
        packet: p,
        proof_commitment_on_a: dummy_proof(),
        proof_height_on_a: Height::new(0, 10).unwrap(),
        signer: dummy_signer(),
    };
    let res = recv_packet_execute(&mut context, &mut module, msg, true);
    assert!(res.is_ok(), "first delivery accepted: {res:?}");
    assert!(context.get_packet_receipt(&port(), &chan(0), 5));

    let p = inbound_packet(5, Some(Height::new(0, 100).unwrap()), 0);
    let msg = MsgRecvPacket {
        packet: p,
        proof_commitment_on_a: dummy_proof(),
        proof_height_on_a: Height::new(0, 10).unwrap(),
        signer: dummy_signer(),
    };
    let res = recv_packet_execute(&mut context, &mut module, msg, true);
    assert!(matches!(
        res,
        Err(ContextError::Packet(PacketError::PacketAlreadyReceived))
    ));

    // Ordered: a sequence other than `next_sequence_recv` is rejected.
    let mut context = base_host(Order::Ordered, 0, 1_000, 2_000);
    let p = inbound_packet(5, Some(Height::new(0, 100).unwrap()), 0);
    let msg = MsgRecvPacket {
        packet: p,
        proof_commitment_on_a: dummy_proof(),
        proof_height_on_a: Height::new(0, 10).unwrap(),
        signer: dummy_signer(),
    };
    let res = recv_packet_execute(&mut context, &mut module, msg, true);
    assert!(matches!(
        res,
        Err(ContextError::Packet(PacketError::PacketSequenceMismatch { expected: 1, actual: 5 }))
    ));
}

#[test]
fn acknowledge_packet_removes_commitment() {
    let mut context = base_host(Order::Ordered, 0, 1_000, 2_000);
    let mut module = AcceptingModule::new();
    let th = Some(Height::new(0, 100).unwrap());
    let p = packet(1, th, 0);
    let commitment =
        compute_packet_commitment(&p.data, &p.timeout_height, &p.timeout_timestamp);
    context.packet_commitments.insert(
        "ports/defaultPort/channels/channel-0/sequences/1".to_string(),
        commitment,
    );

    let msg = MsgAcknowledgement {
        packet: p,
        acknowledgement: vec![1u8],
        proof_acked_on_b: dummy_proof(),
        proof_height_on_b: Height::new(0, 10).unwrap(),
        signer: dummy_signer(),
    };
    let res = acknowledge_packet_execute(&mut context, &mut module, msg, true);
    assert!(res.is_ok(), "ack expected to succeed: {res:?}");

    assert!(context.get_packet_commitment(&port(), &chan(0), 1).is_none());
    assert_eq!(context.get_next_sequence_ack(&port(), &chan(0)).unwrap(), 2);
    assert!(matches!(context.events[1], IbcEvent::AcknowledgePacket { .. }));

    // A second acknowledgement of the same packet no longer finds the
    // commitment.
    let p = packet(1, th, 0);
    let msg = MsgAcknowledgement {
        packet: p,
        acknowledgement: vec![1u8],
        proof_acked_on_b: dummy_proof(),
        proof_height_on_b: Height::new(0, 10).unwrap(),
        signer: dummy_signer(),
    };
    let res = acknowledge_packet_execute(&mut context, &mut module, msg, true);
    assert!(matches!(
        res,
        Err(ContextError::Packet(PacketError::PacketCommitmentNotFound))
    ));
}

#[test]
fn timeout_ordered_closes_channel() {
    // Packet at sequence 5; the counterparty's receive counter is proven to
    // be 3; the consensus time at the proof height is past the packet's
    // timeout timestamp.
    let mut context = base_host(Order::Ordered, 0, 9_000, 10_000);
    let mut module = AcceptingModule::new();
    let p = packet(5, None, 8_000);
    let commitment =
        compute_packet_commitment(&p.data, &p.timeout_height, &p.timeout_timestamp);
    context.packet_commitments.insert(
        "ports/defaultPort/channels/channel-0/sequences/5".to_string(),
        commitment,
    );

    let msg = MsgTimeout {
        packet: p,
        next_seq_recv_on_b: Sequence::new(3),
        proof_unreceived_on_b: dummy_proof(),
        proof_height_on_b: Height::new(0, 10).unwrap(),
        signer: dummy_signer(),
    };
    let res = timeout_packet_execute(&mut context, &mut module, msg, true);
    assert!(res.is_ok(), "timeout expected to succeed: {res:?}");

    assert!(context.get_packet_commitment(&port(), &chan(0), 5).is_none());
    let closed = context.channel_end(&port(), &chan(0)).unwrap();
    assert_eq!(closed.state, ChannelState::Closed);
    assert!(matches!(context.events[1], IbcEvent::TimeoutPacket { .. }));
}

#[test]
fn timeout_not_reached_is_rejected() {
    // The consensus time at the proof height has not passed the timeout.
    let mut context = base_host(Order::Ordered, 0, 7_000, 10_000);
    let mut module = AcceptingModule::new();
    let p = packet(1, None, 8_000);
    let commitment =
        compute_packet_commitment(&p.data, &p.timeout_height, &p.timeout_timestamp);
    context.packet_commitments.insert(
        "ports/defaultPort/channels/channel-0/sequences/1".to_string(),
        commitment,
    );
    let msg = MsgTimeout {
        packet: p,
        next_seq_recv_on_b: Sequence::new(1),
        proof_unreceived_on_b: dummy_proof(),
        proof_height_on_b: Height::new(0, 10).unwrap(),
        signer: dummy_signer(),
    };
    let res = timeout_packet_execute(&mut context, &mut module, msg, true);
    assert!(matches!(
        res,
        Err(ContextError::Packet(PacketError::PacketTimeoutNotReached))
    ));
}

#[test]
fn delay_period_thresholds() {
    // Delay period 10 s, block time bound 2 s: the block delay is 5.
    let delay = 10_000_000_000u64;
    let consensus_ts = 100_000_000_000u64;

    // 9 s of wall clock have passed: rejected.
    let context = base_host(Order::Unordered, delay, consensus_ts, consensus_ts + 9_000_000_000);
    let p = inbound_packet(1, Some(Height::new(0, 100).unwrap()), 0);
    let msg = MsgRecvPacket {
        packet: p,
        proof_commitment_on_a: dummy_proof(),
        proof_height_on_a: Height::new(0, 10).unwrap(),
        signer: dummy_signer(),
    };
    assert!(recv_packet_validate(&context, &msg, true).is_err());

    // 11 s have passed and the host is 10 blocks past the proof height:
    // accepted.
    let context = base_host(Order::Unordered, delay, consensus_ts, consensus_ts + 11_000_000_000);
    let p = inbound_packet(1, Some(Height::new(0, 100).unwrap()), 0);
    let msg = MsgRecvPacket {
        packet: p,
        proof_commitment_on_a: dummy_proof(),
        proof_height_on_a: Height::new(0, 10).unwrap(),
        signer: dummy_signer(),
    };
    assert!(recv_packet_validate(&context, &msg, true).is_ok());

    // 11 s have passed but the host is only 4 blocks past the proof height:
    // rejected.
    let context = base_host(Order::Unordered, delay, consensus_ts, consensus_ts + 11_000_000_000);
    let p = inbound_packet(1, Some(Height::new(0, 100).unwrap()), 0);
    let msg = MsgRecvPacket {
        packet: p,
        proof_commitment_on_a: dummy_proof(),
        proof_height_on_a: Height::new(0, 16).unwrap(),
        signer: dummy_signer(),
    };
    assert!(recv_packet_validate(&context, &msg, true).is_err());
}

#[test]
fn connection_handshake_edges() {
    let mut context = base_host(Order::Unordered, 0, 1_000, 2_000);

    // OpenInit allocates `connection-0` in `Init`.
    let msg = MsgConnectionOpenInit {
        client_id_on_a: client_id(),
        counterparty: ConnCounterparty::new(
            client_id(),
            None,
            CommitmentPrefix::from_bytes(b"ibc"),
        ),
        version: None,
        delay_period_nanos: 0,
        signer: dummy_signer(),
    };
    assert!(conn_open_init(&mut context, msg).is_ok());
    let end = context.connection_end(&ConnectionId::new(0)).unwrap();
    assert_eq!(end.state, ConnectionState::Init);

    // OpenAck moves `Init -> Open`.
    let msg = MsgConnectionOpenAck {
        conn_id_on_a: ConnectionId::new(0),
        conn_id_on_b: ConnectionId::new(9),
        client_state_of_a_on_b: Any::new("/dummy.ClientState".to_string(), vec![1]),
        proof_conn_end_on_b: dummy_proof(),
        proof_client_state_of_a_on_b: dummy_proof(),
        proof_consensus_state_of_a_on_b: dummy_proof(),
        proofs_height_on_b: Height::new(0, 10).unwrap(),
        consensus_height_of_a_on_b: Height::new(0, 10).unwrap(),
        version: Version::compatible(),
        signer: dummy_signer(),
    };
    assert!(conn_open_ack(&mut context, msg, true).is_ok());
    let end = context.connection_end(&ConnectionId::new(0)).unwrap();
    assert_eq!(end.state, ConnectionState::Open);

    // A second OpenAck is rejected: the end is no longer in `Init`.
    let msg = MsgConnectionOpenAck {
        conn_id_on_a: ConnectionId::new(0),
        conn_id_on_b: ConnectionId::new(9),
        client_state_of_a_on_b: Any::new("/dummy.ClientState".to_string(), vec![1]),
        proof_conn_end_on_b: dummy_proof(),
        proof_client_state_of_a_on_b: dummy_proof(),
        proof_consensus_state_of_a_on_b: dummy_proof(),
        proofs_height_on_b: Height::new(0, 10).unwrap(),
        consensus_height_of_a_on_b: Height::new(0, 10).unwrap(),
        version: Version::compatible(),
        signer: dummy_signer(),
    };
    assert!(conn_open_ack(&mut context, msg, true).is_err());

    // OpenConfirm is rejected on an `Open` end and accepted on `TryOpen`.
    let msg = MsgConnectionOpenConfirm {
        conn_id_on_b: ConnectionId::new(0),
        proof_conn_end_on_a: dummy_proof(),
        proof_height_on_a: Height::new(0, 10).unwrap(),
        signer: dummy_signer(),
    };
    assert!(conn_open_confirm(&mut context, msg, true).is_err());

    let tryopen = ConnectionEnd::new(
        ConnectionState::TryOpen,
        client_id(),
        ConnCounterparty::new(
            client_id(),
            Some(ConnectionId::new(4)),
            CommitmentPrefix::from_bytes(b"ibc"),
        ),
        vec![Version::compatible()],
        0,
    );
    context.connections.insert("connection-7".to_string(), tryopen);
    let msg = MsgConnectionOpenConfirm {
        conn_id_on_b: ConnectionId::from_str("connection-7").unwrap(),
        proof_conn_end_on_a: dummy_proof(),
        proof_height_on_a: Height::new(0, 10).unwrap(),
        signer: dummy_signer(),
    };
    assert!(conn_open_confirm(&mut context, msg, true).is_ok());
    let end = context
        .connection_end(&ConnectionId::from_str("connection-7").unwrap())
        .unwrap();
    assert_eq!(end.state, ConnectionState::Open);
}

#[test]
fn dispatch_routes_by_message_kind() {
    let mut context = base_host(Order::Unordered, 0, 1_000, 2_000);
    let msg = ConnectionMsg::OpenInit(MsgConnectionOpenInit {
        client_id_on_a: client_id(),
        counterparty: ConnCounterparty::new(
            client_id(),
            None,
            CommitmentPrefix::from_bytes(b"ibc"),
        ),
        version: None,
        delay_period_nanos: 0,
        signer: dummy_signer(),
    });
    assert!(dispatch_connection_msg(&mut context, msg, true).is_ok());
    assert_eq!(
        context.connection_end(&ConnectionId::new(0)).unwrap().state,
        ConnectionState::Init
    );
    // A confirm for a connection still in `Init` is dispatched and rejected.
    let msg = ConnectionMsg::OpenConfirm(MsgConnectionOpenConfirm {
        conn_id_on_b: ConnectionId::new(0),
        proof_conn_end_on_a: dummy_proof(),
        proof_height_on_a: Height::new(0, 10).unwrap(),
        signer: dummy_signer(),
    });
    assert!(dispatch_connection_msg(&mut context, msg, true).is_err());
}

#[test]
fn timeout_on_close_accepts_closed_counterparty() {
    // No timeout has passed, but chain B's channel is proven closed.
    let mut context = base_host(Order::Unordered, 0, 1_000, 2_000);
    let p = packet(1, Some(Height::new(0, 100).unwrap()), 0);
    let commitment =
        compute_packet_commitment(&p.data, &p.timeout_height, &p.timeout_timestamp);
    context.packet_commitments.insert(
        "ports/defaultPort/channels/channel-0/sequences/1".to_string(),
        commitment,
    );
    let msg = MsgTimeoutOnClose {
        packet: p,
        next_seq_recv_on_b: Sequence::new(1),
        proof_unreceived_on_b: dummy_proof(),
        proof_close_on_b: dummy_proof(),
        proof_height_on_b: Height::new(0, 10).unwrap(),
        signer: dummy_signer(),
    };
    assert!(timeout_on_close_validate(&context, &msg, true, true).is_ok());

    // Without the stored commitment the claim is rejected.
    let context = base_host(Order::Unordered, 0, 1_000, 2_000);
    let p = packet(1, Some(Height::new(0, 100).unwrap()), 0);
    let msg = MsgTimeoutOnClose {
        packet: p,
        next_seq_recv_on_b: Sequence::new(1),
        proof_unreceived_on_b: dummy_proof(),
        proof_close_on_b: dummy_proof(),
        proof_height_on_b: Height::new(0, 10).unwrap(),
        signer: dummy_signer(),
    };
    assert!(matches!(
        timeout_on_close_validate(&context, &msg, true, true),
        Err(ContextError::Packet(PacketError::PacketCommitmentNotFound))
    ));
}

#[test]
fn unverified_proofs_are_rejected() {
    // A close-confirm whose channel-end proof the verifier rejected.
    let context = base_host(Order::Unordered, 0, 1_000, 2_000);
    let msg = MsgChannelCloseConfirm {
        port_id_on_b: port(),
        chan_id_on_b: chan(0),
        proof_chan_end_on_a: dummy_proof(),
        proof_height_on_a: Height::new(0, 10).unwrap(),
        signer: dummy_signer(),
    };
    assert!(matches!(
        validate(&context, &msg, false),
        Err(ContextError::Channel(ChannelError::VerifyChannelFailed))
    ));

    // A receive whose commitment proof the verifier rejected.
    let context = base_host(Order::Unordered, 0, 1_000, 2_000);
    let p = inbound_packet(1, Some(Height::new(0, 100).unwrap()), 0);
    let msg = MsgRecvPacket {
        packet: p,
        proof_commitment_on_a: dummy_proof(),
        proof_height_on_a: Height::new(0, 10).unwrap(),
        signer: dummy_signer(),
    };
    assert!(matches!(
        recv_packet_validate(&context, &msg, false),
        Err(ContextError::Packet(PacketError::InvalidProof))
    ));
}

#[test]
fn timeout_on_close_execute_closes_ordered_channel() {
    let mut context = base_host(Order::Ordered, 0, 1_000, 2_000);
    let mut module = AcceptingModule::new();
    let p = packet(5, Some(Height::new(0, 100).unwrap()), 0);
    let commitment =
        compute_packet_commitment(&p.data, &p.timeout_height, &p.timeout_timestamp);
    context.packet_commitments.insert(
        "ports/defaultPort/channels/channel-0/sequences/5".to_string(),
        commitment,
    );
    let msg = MsgTimeoutOnClose {
        packet: p,
        next_seq_recv_on_b: Sequence::new(3),
        proof_unreceived_on_b: dummy_proof(),
        proof_close_on_b: dummy_proof(),
        proof_height_on_b: Height::new(0, 10).unwrap(),
        signer: dummy_signer(),
    };
    let res = timeout_on_close_execute(&mut context, &mut module, msg, true, true);
    assert!(res.is_ok(), "timeout on close expected to succeed: {res:?}");
    assert!(context.get_packet_commitment(&port(), &chan(0), 5).is_none());
    let closed = context.channel_end(&port(), &chan(0)).unwrap();
    assert_eq!(closed.state, ChannelState::Closed);
    assert!(matches!(context.events[1], IbcEvent::TimeoutPacket { .. }));
}
