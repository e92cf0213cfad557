use ibc_core::chan_msgs::{MsgChannelCloseInit, MsgTimeout};
use ibc_core::client_msgs::MsgCreateClient;
use ibc_core::conn_msgs::MsgConnectionOpenTry;
use ibc_core::errors::{ConnectionError, PacketError};
use ibc_core::raw::{
    Any, RawCounterparty, RawDuration, RawFraction, RawHeight, RawMsgChannelCloseInit,
    RawMsgConnectionOpenTry, RawMsgCreateClient, RawMsgTimeout, RawPacket, RawTmClientState,
    RawTmConsensusState, RawTmTimestamp, RawVersion,
};
use ibc_core::signer::Signer;
use ibc_core::tm_consensus::{ConsensusState, TmClientState, TmTime};

fn dummy_bech32_account() -> String {
    "cosmos1wxeyh7zgn4tctjzs0vtqpc6p5cxq5t2muzl7ng".to_string()
}

fn dummy_proof() -> Vec<u8> {
    "Y29tbWl0bWVudF9wcm9vZg==".as_bytes().to_vec()
}

fn dummy_raw_counterparty(conn_id: Option<u64>) -> RawCounterparty {
    let connection_id = match conn_id {
        Some(id) => format!("connection-{}", id),
        None => "".to_string(),
    };
    RawCounterparty {
        client_id: "07-tendermint-0".to_string(),
        connection_id,
        prefix: Some(b"ibc".to_vec()),
    }
}

fn compatible_raw_versions() -> Vec<RawVersion> {
    vec![RawVersion {
        identifier: "1".to_string(),
        features: vec!["ORDER_ORDERED".to_string(), "ORDER_UNORDERED".to_string()],
    }]
}

fn dummy_raw_msg_conn_open_try(proof_height: u64, consensus_height: u64) -> RawMsgConnectionOpenTry {
    RawMsgConnectionOpenTry {
        client_id: "07-tendermint-0".to_string(),
        previous_connection_id: "connection-0".to_string(),
        client_state: Some(Any::new(
            "/dummy.ClientState".to_string(),
            vec![1, 2, 3],
        )),
        counterparty: Some(dummy_raw_counterparty(Some(0))),
        delay_period: 0,
        counterparty_versions: compatible_raw_versions(),
        proof_init: dummy_proof(),
        proof_height: Some(RawHeight { revision_number: 0, revision_height: proof_height }),
        proof_consensus: dummy_proof(),
        consensus_height: Some(RawHeight { revision_number: 0, revision_height: consensus_height }),
        proof_client: dummy_proof(),
        signer: dummy_bech32_account(),
        host_consensus_state_proof: vec![],
    }
}

#[test]
fn parse_connection_open_try_msg() {
    struct Test {
        name: String,
        raw: RawMsgConnectionOpenTry,
        want_pass: bool,
    }

    let default_try_msg = dummy_raw_msg_conn_open_try(10, 34);

    let tests: Vec<Test> = vec![
        Test {
            name: "Good parameters".to_string(),
            raw: default_try_msg.clone(),
            want_pass: true,
        },
        Test {
            name: "Bad client id, name too short".to_string(),
            raw: RawMsgConnectionOpenTry {
                client_id: "client".to_string(),
                ..default_try_msg.clone()
            },
            want_pass: false,
        },
        Test {
            name: "Bad destination connection id, name too long".to_string(),
            raw: RawMsgConnectionOpenTry {
                counterparty: Some(RawCounterparty {
                    connection_id:
                        "abcdasdfasdfsdfasfdwefwfsdfsfsfasfwewvxcvdvwgadvaadsefghijklmnopqrstu"
                            .to_string(),
                    ..dummy_raw_counterparty(Some(0))
                }),
                ..default_try_msg.clone()
            },
            want_pass: false,
        },
        Test {
            name: "Correct destination client id with lower/upper case and special chars"
                .to_string(),
            raw: RawMsgConnectionOpenTry {
                counterparty: Some(RawCounterparty {
                    client_id: "ClientId_".to_string(),
                    ..dummy_raw_counterparty(Some(0))
                }),
                ..default_try_msg.clone()
            },
            want_pass: true,
        },
        Test {
            name: "Bad counterparty versions, empty versions vec".to_string(),
            raw: RawMsgConnectionOpenTry {
                counterparty_versions: Vec::new(),
                ..default_try_msg.clone()
            },
            want_pass: false,
        },
        Test {
            name: "Bad counterparty versions, empty version string".to_string(),
            raw: RawMsgConnectionOpenTry {
                counterparty_versions: Vec::new(),
                ..default_try_msg.clone()
            },
            want_pass: false,
        },
        Test {
            name: "Bad proof height, height is 0".to_string(),
            raw: RawMsgConnectionOpenTry {
                proof_height: Some(RawHeight { revision_number: 1, revision_height: 0 }),
                ..default_try_msg.clone()
            },
            want_pass: false,
        },
        Test {
            name: "Bad consensus height, height is 0".to_string(),
            raw: RawMsgConnectionOpenTry {
                proof_height: Some(RawHeight { revision_number: 1, revision_height: 0 }),
                ..default_try_msg.clone()
            },
            want_pass: false,
        },
        Test {
            name: "Empty proof".to_string(),
            raw: RawMsgConnectionOpenTry { proof_init: b"".to_vec(), ..default_try_msg },
            want_pass: false,
        },
    ];

    for test in tests {
        let msg = MsgConnectionOpenTry::try_from_raw(test.raw.clone());

        assert_eq!(
            test.want_pass,
            msg.is_ok(),
            "MsgConnOpenTry::new failed for test {}, \nmsg {:?} with error {:?}",
            test.name,
            test.raw,
            msg.err(),
        );
    }
}

#[test]
fn conn_open_try_to_and_from() {
    let raw = dummy_raw_msg_conn_open_try(10, 34);
    let msg = MsgConnectionOpenTry::try_from_raw(raw.clone()).unwrap();
    let raw_back = MsgConnectionOpenTry::try_from_raw(raw.clone()).unwrap().into_raw();
    let msg_back = MsgConnectionOpenTry::try_from_raw(raw_back.clone()).unwrap();
    assert_eq!(raw, raw_back);
    assert_eq!(msg, msg_back);
}

fn dummy_raw_msg_chan_close_init() -> RawMsgChannelCloseInit {
    RawMsgChannelCloseInit {
        port_id: "defaultPort".to_string(),
        channel_id: "channel-0".to_string(),
        signer: dummy_bech32_account(),
    }
}

#[test]
fn parse_channel_close_init_msg() {
    struct Test {
        name: String,
        raw: RawMsgChannelCloseInit,
        want_pass: bool,
    }

    let default_raw_msg = dummy_raw_msg_chan_close_init();

    let tests: Vec<Test> = vec![
        Test {
            name: "Good parameters".to_string(),
            raw: default_raw_msg.clone(),
            want_pass: true,
        },
        Test {
            name: "Correct port".to_string(),
            raw: RawMsgChannelCloseInit {
                port_id: "p34".to_string(),
                ..default_raw_msg.clone()
            },
            want_pass: true,
        },
        Test {
            name: "Bad port, name too short".to_string(),
            raw: RawMsgChannelCloseInit {
                port_id: "p".to_string(),
                ..default_raw_msg.clone()
            },
            want_pass: false,
        },
        Test {
            name: "Bad port, name too long".to_string(),
            raw: RawMsgChannelCloseInit {
                port_id: "abcdefsdfasdfasdfasdfasdfasdfadsfasdgafsgadfasdfasdfasdfsdfasdfaghijklmnopqrstuabcdefsdfasdfasdfasdfasdfasdfadsfasdgafsgadfasdfasdfasdfsdfasdfaghijklmnopqrstu".to_string(),
                ..default_raw_msg.clone()
            },
            want_pass: false,
        },
        Test {
            name: "Correct channel identifier".to_string(),
            raw: RawMsgChannelCloseInit {
                channel_id: "channel-34".to_string(),
                ..default_raw_msg.clone()
            },
            want_pass: true,
        },
        Test {
            name: "Bad channel, name too short".to_string(),
            raw: RawMsgChannelCloseInit {
                channel_id: "chshort".to_string(),
                ..default_raw_msg.clone()
            },
            want_pass: false,
        },
        Test {
            name: "Bad channel, name too long".to_string(),
            raw: RawMsgChannelCloseInit {
                channel_id: "channel-128391283791827398127398791283912837918273981273987912839".to_string(),
                ..default_raw_msg
            },
            want_pass: false,
        },
    ];

    for test in tests {
        let msg = MsgChannelCloseInit::try_from_raw(test.raw.clone());

        assert_eq!(
            test.want_pass,
            msg.is_ok(),
            "MsgChanCloseInit::try_from failed for test {}, \nmsg {:?} with error {:?}",
            test.name,
            test.raw,
            msg.err(),
        );
    }
}

#[test]
fn chan_close_init_to_and_from() {
    let raw = dummy_raw_msg_chan_close_init();
    let msg = MsgChannelCloseInit::try_from_raw(raw.clone()).unwrap();
    let raw_back = MsgChannelCloseInit::try_from_raw(raw.clone()).unwrap().into_raw();
    let msg_back = MsgChannelCloseInit::try_from_raw(raw_back.clone()).unwrap();
    assert_eq!(raw, raw_back);
    assert_eq!(msg, msg_back);
}

fn dummy_raw_packet(timeout_height: u64, timeout_timestamp: u64) -> RawPacket {
    RawPacket {
        sequence: 1,
        source_port: "defaultPort".to_string(),
        source_channel: "channel-0".to_string(),
        destination_port: "defaultPort".to_string(),
        destination_channel: "channel-1".to_string(),
        data: b"testdata".to_vec(),
        timeout_height: Some(RawHeight { revision_number: 0, revision_height: timeout_height }),
        timeout_timestamp,
    }
}

fn dummy_raw_msg_timeout(
    proof_height: u64,
    timeout_height: u64,
    timeout_timestamp: u64,
) -> RawMsgTimeout {
    RawMsgTimeout {
        packet: Some(dummy_raw_packet(timeout_height, timeout_timestamp)),
        proof_unreceived: dummy_proof(),
        proof_height: Some(RawHeight { revision_number: 0, revision_height: proof_height }),
        next_sequence_recv: 1,
        signer: dummy_bech32_account(),
    }
}

#[test]
fn msg_timeout_try_from_raw() {
    struct Test {
        name: String,
        raw: RawMsgTimeout,
        want_pass: bool,
    }

    let proof_height = 50;
    let timeout_height = proof_height;
    let timeout_timestamp = 0;
    let default_raw_msg = dummy_raw_msg_timeout(proof_height, timeout_height, timeout_timestamp);

    let tests: Vec<Test> = vec![
        Test {
            name: "Good parameters".to_string(),
            raw: default_raw_msg.clone(),
            want_pass: true,
        },
        Test {
            name: "Missing packet".to_string(),
            raw: RawMsgTimeout { packet: None, ..default_raw_msg.clone() },
            want_pass: false,
        },
        Test {
            name: "Missing proof".to_string(),
            raw: RawMsgTimeout { proof_unreceived: Vec::new(), ..default_raw_msg.clone() },
            want_pass: false,
        },
        Test {
            name: "Missing proof height".to_string(),
            raw: RawMsgTimeout { proof_height: None, ..default_raw_msg.clone() },
            want_pass: false,
        },
        Test {
            name: "Empty signer".to_string(),
            raw: RawMsgTimeout { signer: dummy_bech32_account(), ..default_raw_msg },
            want_pass: true,
        },
    ];

    for test in tests {
        let res_msg = MsgTimeout::try_from_raw(test.raw.clone());

        assert_eq!(
            res_msg.is_ok(),
            test.want_pass,
            "MsgTimeout::try_from failed for test {} \nraw message: {:?} with error: {:?}",
            test.name,
            test.raw,
            res_msg.err()
        );
    }
}

#[test]
fn timeout_to_and_from() {
    let raw = dummy_raw_msg_timeout(15, 20, 0);
    let msg = MsgTimeout::try_from_raw(raw.clone()).unwrap();
    let raw_back = MsgTimeout::try_from_raw(raw.clone()).unwrap().into_raw();
    let msg_back = MsgTimeout::try_from_raw(raw_back.clone()).unwrap();
    assert_eq!(raw, raw_back);
    assert_eq!(msg, msg_back);
}

#[test]
fn msg_create_client_serialization() {
    let signer = Signer::from_string(dummy_bech32_account());

    let client_state = Any::new("/dummy.ClientState".to_string(), vec![7, 7, 7]);
    let consensus_state = Any::new("/dummy.ConsensusState".to_string(), vec![8, 8]);

    let msg = MsgCreateClient::new(client_state, consensus_state, signer);

    let raw = msg.into_raw();
    let msg_back = MsgCreateClient::try_from_raw(raw.clone()).unwrap();
    let raw_back = MsgCreateClient::try_from_raw(raw.clone()).unwrap().into_raw();
    let msg_back2 = MsgCreateClient::try_from_raw(raw_back.clone()).unwrap();
    assert_eq!(msg_back, msg_back2);
    assert_eq!(raw, raw_back);
}

#[test]
fn msg_create_client_missing_fields() {
    let raw = RawMsgCreateClient {
        client_state: None,
        consensus_state: Some(Any::new("/dummy.ConsensusState".to_string(), vec![])),
        signer: dummy_bech32_account(),
    };
    assert!(MsgCreateClient::try_from_raw(raw).is_err());

    let raw = RawMsgCreateClient {
        client_state: Some(Any::new("/dummy.ClientState".to_string(), vec![])),
        consensus_state: None,
        signer: dummy_bech32_account(),
    };
    assert!(MsgCreateClient::try_from_raw(raw).is_err());
}

#[test]
fn tm_consensus_state_round_trip() {
    let raw = RawTmConsensusState {
        timestamp: Some(RawTmTimestamp { seconds: 1_700_000_000, nanos: 123_456_789 }),
        root: Some(vec![9u8; 32]),
        next_validators_hash: vec![3u8; 32],
    };
    let cs = ConsensusState::try_from_raw(raw.clone()).unwrap();
    assert_eq!(cs.timestamp, TmTime { seconds: 1_700_000_000, nanos: 123_456_789 });
    assert_eq!(
        cs.timestamp().nanoseconds(),
        1_700_000_000u64 * 1_000_000_000 + 123_456_789
    );
    let raw_back = cs.into_raw();
    assert_eq!(raw, raw_back);

    // Missing root, missing timestamp, or a wrong-size hash are rejected.
    let bad = RawTmConsensusState { root: None, ..raw.clone() };
    assert!(ConsensusState::try_from_raw(bad).is_err());
    let bad = RawTmConsensusState { timestamp: None, ..raw.clone() };
    assert!(ConsensusState::try_from_raw(bad).is_err());
    let bad = RawTmConsensusState { next_validators_hash: vec![3u8; 31], ..raw };
    assert!(ConsensusState::try_from_raw(bad).is_err());
}

#[test]
fn conn_open_try_error_values() {
    let default_try_msg = dummy_raw_msg_conn_open_try(10, 34);

    let raw = RawMsgConnectionOpenTry {
        proof_height: Some(RawHeight { revision_number: 1, revision_height: 0 }),
        ..default_try_msg.clone()
    };
    assert!(matches!(
        MsgConnectionOpenTry::try_from_raw(raw),
        Err(ConnectionError::MissingProofHeight)
    ));

    let raw = RawMsgConnectionOpenTry { proof_height: None, ..default_try_msg.clone() };
    assert!(matches!(
        MsgConnectionOpenTry::try_from_raw(raw),
        Err(ConnectionError::MissingProofHeight)
    ));

    let raw = RawMsgConnectionOpenTry {
        consensus_height: Some(RawHeight { revision_number: 0, revision_height: 0 }),
        ..default_try_msg.clone()
    };
    assert!(matches!(
        MsgConnectionOpenTry::try_from_raw(raw),
        Err(ConnectionError::MissingConsensusHeight)
    ));

    let raw = RawMsgConnectionOpenTry { proof_init: Vec::new(), ..default_try_msg.clone() };
    assert!(matches!(
        MsgConnectionOpenTry::try_from_raw(raw),
        Err(ConnectionError::InvalidProof)
    ));

    let raw = RawMsgConnectionOpenTry { proof_client: Vec::new(), ..default_try_msg };
    assert!(matches!(
        MsgConnectionOpenTry::try_from_raw(raw),
        Err(ConnectionError::InvalidProof)
    ));
}

#[test]
fn msg_timeout_error_values() {
    let default_raw_msg = dummy_raw_msg_timeout(50, 50, 0);

    let raw = RawMsgTimeout { proof_unreceived: Vec::new(), ..default_raw_msg.clone() };
    assert!(matches!(MsgTimeout::try_from_raw(raw), Err(PacketError::InvalidProof)));

    let raw = RawMsgTimeout { proof_height: None, ..default_raw_msg.clone() };
    assert!(matches!(MsgTimeout::try_from_raw(raw), Err(PacketError::MissingHeight)));

    let raw = RawMsgTimeout {
        proof_height: Some(RawHeight { revision_number: 2, revision_height: 0 }),
        ..default_raw_msg
    };
    assert!(matches!(MsgTimeout::try_from_raw(raw), Err(PacketError::MissingHeight)));
}

fn dummy_raw_tm_client_state() -> RawTmClientState {
    RawTmClientState {
        chain_id: "testchain-1".to_string(),
        trust_level: Some(RawFraction { numerator: 1, denominator: 3 }),
        trusting_period: Some(RawDuration { seconds: 1_209_600, nanos: 0 }),
        unbonding_period: Some(RawDuration { seconds: 1_814_400, nanos: 0 }),
        max_clock_drift: Some(RawDuration { seconds: 3, nanos: 0 }),
        frozen_height: Some(RawHeight { revision_number: 0, revision_height: 0 }),
        latest_height: Some(RawHeight { revision_number: 1, revision_height: 40 }),
        upgrade_path: vec!["upgrade".to_string(), "upgradedIBCState".to_string()],
        allow_update_after_expiry: false,
        allow_update_after_misbehaviour: false,
    }
}

#[test]
fn tm_client_state_round_trip() {
    let raw = dummy_raw_tm_client_state();
    let cs = TmClientState::try_from_raw(raw.clone()).unwrap();
    assert_eq!(cs.chain_id, "testchain-1");
    assert_eq!(cs.trusting_period_nanos, 1_209_600_000_000_000);
    assert_eq!(cs.latest_height, ibc_core::height::Height::new(1, 40).unwrap());
    assert_eq!(cs.frozen_height, None);
    let raw_back = cs.into_raw();
    assert_eq!(raw, raw_back);
    let cs_back = TmClientState::try_from_raw(raw_back).unwrap();
    assert_eq!(cs_back.trusting_period_nanos, 1_209_600_000_000_000);

    // A trust level below one third, a trusting period at or above the
    // unbonding period, or a missing latest height are rejected.
    let bad = RawTmClientState {
        trust_level: Some(RawFraction { numerator: 1, denominator: 4 }),
        ..dummy_raw_tm_client_state()
    };
    assert!(TmClientState::try_from_raw(bad).is_err());
    let bad = RawTmClientState {
        trusting_period: Some(RawDuration { seconds: 1_814_400, nanos: 0 }),
        ..dummy_raw_tm_client_state()
    };
    assert!(TmClientState::try_from_raw(bad).is_err());
    let bad = RawTmClientState { latest_height: None, ..dummy_raw_tm_client_state() };
    assert!(TmClientState::try_from_raw(bad).is_err());
}
