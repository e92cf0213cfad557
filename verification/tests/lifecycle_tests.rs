use ibc_core::chan_msgs::{
    MsgChannelOpenAck, MsgChannelOpenConfirm, MsgChannelOpenInit, MsgChannelOpenTry,
};
use ibc_core::chan_open::{chan_open_ack, chan_open_confirm, chan_open_init, chan_open_try};
use ibc_core::channel::{ChannelEnd, Counterparty, Order, State as ChannelState};
use ibc_core::client::{ClientRecord, ConsensusStateRecord, Status};
use ibc_core::client_lifecycle::{create_client, update_client, update_client_on_misbehaviour};
use ibc_core::commitment::{CommitmentPrefix, CommitmentProofBytes, CommitmentRoot};
use ibc_core::connection::{
    ConnectionEnd, Counterparty as ConnCounterparty, State as ConnectionState, Version,
};
use ibc_core::height::Height;
use ibc_core::host::HostState;
use ibc_core::identifier::{ChannelId, ClientId, ConnectionId, PortId};
use ibc_core::router::AcceptingModule;
use ibc_core::signer::Signer;
use ibc_core::store::Store;
use ibc_core::timestamp::Timestamp;

fn dummy_signer() -> Signer {
    Signer::from_string("cosmos1wxeyh7zgn4tctjzs0vtqpc6p5cxq5t2muzl7ng".to_string())
}

fn dummy_proof() -> CommitmentProofBytes {
    CommitmentProofBytes::try_from_vec(b"commitment_proof".to_vec()).unwrap()
}

fn client_id() -> ClientId {
    ClientId::from_str("07-tendermint-24").unwrap()
}

fn port() -> PortId {
    PortId::from_str("transfer").unwrap()
}

fn host_with_client_and_connection() -> HostState {
    let mut st = HostState::new(
        Height::new(0, 20).unwrap(),
        Timestamp::from_nanoseconds(2_000),
        2_000_000_000,
    );
    let mut consensus_states: Store<ConsensusStateRecord> = Store::new();
    consensus_states.insert(
        "0-10".to_string(),
        ConsensusStateRecord {
            timestamp: Timestamp::from_nanoseconds(1_000),
            root: CommitmentRoot::from_bytes(b"app_hash"),
        },
    );
    st.clients.insert(
        "07-tendermint-24".to_string(),
        ClientRecord {
            latest_height: Height::new(0, 10).unwrap(),
            frozen_height: None,
            trusting_period_nanos: 0,
            latest_timestamp: Timestamp::from_nanoseconds(1_000),
            consensus_states,
        },
    );
    let conn_end = ConnectionEnd::new(
        ConnectionState::Open,
        client_id(),
        ConnCounterparty::new(
            client_id(),
            Some(ConnectionId::new(0)),
            CommitmentPrefix::from_bytes(b"ibc"),
        ),
        vec![Version::compatible()],
        0,
    );
    st.connections.insert("connection-2".to_string(), conn_end);
    st
}

#[test]
fn channel_open_handshake_edges() {
    let mut ctx = host_with_client_and_connection();
    let mut module = AcceptingModule::new();

    // Init allocates `channel-0` in `Init`.
    let msg = MsgChannelOpenInit {
        port_id_on_a: port(),
        connection_hops_on_a: vec![ConnectionId::new(2)],
        port_id_on_b: port(),
        ordering: Order::Unordered,
        version_proposal: "ics20-1".to_string(),
        signer: dummy_signer(),
    };
    assert!(chan_open_init(&mut ctx, &mut module, msg).is_ok());
    let end = ctx.channel_end(&port(), &ChannelId::new(0)).unwrap();
    assert_eq!(end.state, ChannelState::Init);
    assert_eq!(end.version, "ics20-1");
    assert_eq!(ctx.get_next_sequence_send(&port(), &ChannelId::new(0)).unwrap(), 1);

    // Ack moves `Init -> Open` and records the counterparty channel.
    let msg = MsgChannelOpenAck {
        port_id_on_a: port(),
        chan_id_on_a: ChannelId::new(0),
        chan_id_on_b: ChannelId::new(9),
        version_on_b: "ics20-1".to_string(),
        proof_chan_end_on_b: dummy_proof(),
        proof_height_on_b: Height::new(0, 10).unwrap(),
        signer: dummy_signer(),
    };
    assert!(chan_open_ack(&mut ctx, &mut module, msg, true).is_ok());
    let end = ctx.channel_end(&port(), &ChannelId::new(0)).unwrap();
    assert_eq!(end.state, ChannelState::Open);
    assert_eq!(end.counterparty.channel_id, Some(ChannelId::new(9)));

    // A second Ack is rejected: the end is no longer in `Init`.
    let msg = MsgChannelOpenAck {
        port_id_on_a: port(),
        chan_id_on_a: ChannelId::new(0),
        chan_id_on_b: ChannelId::new(9),
        version_on_b: "ics20-1".to_string(),
        proof_chan_end_on_b: dummy_proof(),
        proof_height_on_b: Height::new(0, 10).unwrap(),
        signer: dummy_signer(),
    };
    assert!(chan_open_ack(&mut ctx, &mut module, msg, true).is_err());

    // Try on chain B allocates `channel-1` in `TryOpen`; Confirm opens it.
    let msg = MsgChannelOpenTry {
        port_id_on_b: port(),
        connection_hops_on_b: vec![ConnectionId::new(2)],
        port_id_on_a: port(),
        chan_id_on_a: ChannelId::new(0),
        version_supported_on_a: "ics20-1".to_string(),
        proof_chan_end_on_a: dummy_proof(),
        proof_height_on_a: Height::new(0, 10).unwrap(),
        ordering: Order::Unordered,
        signer: dummy_signer(),
    };
    assert!(chan_open_try(&mut ctx, &mut module, msg, true).is_ok());
    let end = ctx.channel_end(&port(), &ChannelId::new(1)).unwrap();
    assert_eq!(end.state, ChannelState::TryOpen);

    let msg = MsgChannelOpenConfirm {
        port_id_on_b: port(),
        chan_id_on_b: ChannelId::new(1),
        proof_chan_end_on_a: dummy_proof(),
        proof_height_on_a: Height::new(0, 10).unwrap(),
        signer: dummy_signer(),
    };
    assert!(chan_open_confirm(&mut ctx, &mut module, msg, true).is_ok());
    let end = ctx.channel_end(&port(), &ChannelId::new(1)).unwrap();
    assert_eq!(end.state, ChannelState::Open);

    // Confirm on an already-open end is rejected.
    let msg = MsgChannelOpenConfirm {
        port_id_on_b: port(),
        chan_id_on_b: ChannelId::new(1),
        proof_chan_end_on_a: dummy_proof(),
        proof_height_on_a: Height::new(0, 10).unwrap(),
        signer: dummy_signer(),
    };
    assert!(chan_open_confirm(&mut ctx, &mut module, msg, true).is_err());
}

#[test]
fn client_lifecycle_create_update_freeze() {
    let mut ctx = HostState::new(
        Height::new(0, 20).unwrap(),
        Timestamp::from_nanoseconds(5_000),
        2_000_000_000,
    );
    let cid = ClientId::from_str("07-tendermint-0").unwrap();

    assert!(create_client(
        &mut ctx,
        cid.clone(),
        Height::new(0, 10).unwrap(),
        0,
        Timestamp::from_nanoseconds(1_000),
        CommitmentRoot::from_bytes(b"root10"),
        dummy_signer(),
    )
    .is_ok());
    // A second creation under the same identifier is rejected.
    assert!(create_client(
        &mut ctx,
        cid.clone(),
        Height::new(0, 10).unwrap(),
        0,
        Timestamp::from_nanoseconds(1_000),
        CommitmentRoot::from_bytes(b"root10"),
        dummy_signer(),
    )
    .is_err());

    // An update writes the consensus state and advances the latest height.
    assert!(update_client(
        &mut ctx,
        cid.clone(),
        Height::new(0, 12).unwrap(),
        Timestamp::from_nanoseconds(2_000),
        CommitmentRoot::from_bytes(b"root12"),
        dummy_signer(),
    )
    .is_ok());
    let rec = ctx.client_record(&cid).unwrap();
    assert_eq!(rec.latest_height, Height::new(0, 12).unwrap());
    assert!(rec.consensus_state_at(&Height::new(0, 10).unwrap()).is_some());
    assert!(rec.consensus_state_at(&Height::new(0, 12).unwrap()).is_some());

    // A conflicting write at an existing height is rejected: consensus
    // states are immutable.
    assert!(update_client(
        &mut ctx,
        cid.clone(),
        Height::new(0, 12).unwrap(),
        Timestamp::from_nanoseconds(9_999),
        CommitmentRoot::from_bytes(b"different"),
        dummy_signer(),
    )
    .is_err());
    // Re-submitting the identical header is idempotent and accepted.
    assert!(update_client(
        &mut ctx,
        cid.clone(),
        Height::new(0, 12).unwrap(),
        Timestamp::from_nanoseconds(2_000),
        CommitmentRoot::from_bytes(b"root12"),
        dummy_signer(),
    )
    .is_ok());

    // Freezing on misbehaviour makes the client reject everything after.
    assert!(update_client_on_misbehaviour(
        &mut ctx,
        cid.clone(),
        Height::new(0, 12).unwrap(),
        dummy_signer(),
    )
    .is_ok());
    let rec = ctx.client_record(&cid).unwrap();
    assert_eq!(rec.status(&ctx.host_timestamp()), Status::Frozen);
    assert!(update_client(
        &mut ctx,
        cid,
        Height::new(0, 13).unwrap(),
        Timestamp::from_nanoseconds(3_000),
        CommitmentRoot::from_bytes(b"root13"),
        dummy_signer(),
    )
    .is_err());
}

#[test]
fn expired_client_is_not_active() {
    let mut consensus_states: Store<ConsensusStateRecord> = Store::new();
    consensus_states.insert(
        "0-10".to_string(),
        ConsensusStateRecord {
            timestamp: Timestamp::from_nanoseconds(1_000),
            root: CommitmentRoot::from_bytes(b"app_hash"),
        },
    );
    let rec = ClientRecord {
        latest_height: Height::new(0, 10).unwrap(),
        frozen_height: None,
        trusting_period_nanos: 500,
        latest_timestamp: Timestamp::from_nanoseconds(1_000),
        consensus_states,
    };
    // Inside the trusting period the client is active; past it, expired.
    assert_eq!(rec.status(&Timestamp::from_nanoseconds(1_400)), Status::Active);
    assert_eq!(rec.status(&Timestamp::from_nanoseconds(1_500)), Status::Expired);
}

#[test]
fn channel_end_requires_single_hop() {
    let err = ChannelEnd::new(
        ChannelState::Init,
        Order::Unordered,
        Counterparty::new(port(), None),
        vec![],
        "ics20-1".to_string(),
    );
    assert!(err.is_err());
    let err = ChannelEnd::new(
        ChannelState::Init,
        Order::Unordered,
        Counterparty::new(port(), None),
        vec![ConnectionId::new(0), ConnectionId::new(1)],
        "ics20-1".to_string(),
    );
    assert!(err.is_err());
}
