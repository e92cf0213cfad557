use ibc_core::commitment::{
    compute_ack_commitment, u64_be_bytes, CommitmentPath, CommitmentProofBytes,
};
use ibc_core::height::Height;
use ibc_core::identifier::{u64_to_dec, ChannelId, ClientId, ConnectionId, PortId};
use ibc_core::path::{key_string, Path};
use sha2::{Digest, Sha256};

#[test]
fn canonical_store_keys() {
    let port_id = PortId::from_str("transfer").unwrap();
    let channel_id = ChannelId::new(34);
    let client_id = ClientId::from_str("07-tendermint-5").unwrap();
    let connection_id = ConnectionId::new(2);

    assert_eq!(
        key_string(&Path::ClientState { client_id: client_id.clone() }),
        "clients/07-tendermint-5/clientState"
    );
    assert_eq!(
        key_string(&Path::ClientConsensusState {
            client_id,
            height: Height::new(3, 17).unwrap(),
        }),
        "clients/07-tendermint-5/consensusStates/3-17"
    );
    assert_eq!(key_string(&Path::Connection { connection_id }), "connections/connection-2");
    assert_eq!(
        key_string(&Path::ChannelEnd {
            port_id: port_id.clone(),
            channel_id: channel_id.clone(),
        }),
        "channelEnds/ports/transfer/channels/channel-34"
    );
    assert_eq!(
        key_string(&Path::SeqSend { port_id: port_id.clone(), channel_id: channel_id.clone() }),
        "nextSequenceSend/ports/transfer/channels/channel-34"
    );
    assert_eq!(
        key_string(&Path::Commitment { port_id, channel_id, sequence: 7 }),
        "commitments/ports/transfer/channels/channel-34/sequences/7"
    );
}

#[test]
fn commitment_path_from_path() {
    let p = Path::Receipt {
        port_id: PortId::from_str("transfer").unwrap(),
        channel_id: ChannelId::new(0),
        sequence: 5,
    };
    let cp = CommitmentPath::from_path(&p);
    assert_eq!(cp.as_str(), "receipts/ports/transfer/channels/channel-0/sequences/5");
}

#[test]
fn identifiers_are_validated() {
    assert!(PortId::from_str("p").is_err());
    assert!(PortId::from_str("p3").is_ok());
    assert!(ClientId::from_str("client").is_err());
    assert!(ClientId::from_str("ClientId_").is_ok());
    assert!(ChannelId::from_str("chshort").is_err());
    assert!(ChannelId::from_str("channel-34").is_ok());
    assert!(ConnectionId::from_str("short-1").is_err());
    assert!(ConnectionId::from_str("connection-11").is_ok());
    // The allowed alphabet excludes whitespace and exotic punctuation.
    assert!(PortId::from_str("bad port").is_err());
    assert!(PortId::from_str("ok.port_name+with-specials#[]<>").is_ok());
}

#[test]
fn decimal_rendering() {
    assert_eq!(u64_to_dec(0), "0");
    assert_eq!(u64_to_dec(34), "34");
    assert_eq!(u64_to_dec(u64::MAX), "18446744073709551615");
    assert_eq!(ConnectionId::new(0).as_str(), "connection-0");
    assert_eq!(ChannelId::new(128).as_str(), "channel-128");
}

#[test]
fn height_ordering_and_arithmetic() {
    assert!(Height::new(0, 0).is_err());
    let h = Height::new(1, 5).unwrap();
    assert!(h.lt(&Height::new(2, 1).unwrap()));
    assert!(h.lt(&Height::new(1, 6).unwrap()));
    assert!(!h.lt(&Height::new(1, 5).unwrap()));
    assert!(h.le(&Height::new(1, 5).unwrap()));
    assert_eq!(h.increment().unwrap(), Height::new(1, 6).unwrap());
    assert_eq!(h.sub(4).unwrap(), Height::new(1, 1).unwrap());
    assert!(h.sub(5).is_err());
}

#[test]
fn ack_commitment_is_a_real_digest() {
    // The commitment is the SHA-256 of the acknowledgement bytes, not the
    // bytes themselves.
    let ack = vec![1u8];
    let commitment = compute_ack_commitment(&ack);
    assert_ne!(commitment, ack);
    assert_eq!(commitment, Sha256::digest(&[1u8]).to_vec());
    // The known digest of the empty string.
    let empty = compute_ack_commitment(&[]);
    assert_eq!(
        empty,
        vec![
            0xe3u8, 0xb0, 0xc4, 0x42, 0x98, 0xfc, 0x1c, 0x14, 0x9a, 0xfb, 0xf4, 0xc8, 0x99, 0x6f,
            0xb9, 0x24, 0x27, 0xae, 0x41, 0xe4, 0x64, 0x9b, 0x93, 0x4c, 0xa4, 0x95, 0x99, 0x1b,
            0x78, 0x52, 0xb8, 0x55,
        ]
    );
}

#[test]
fn big_endian_bytes() {
    assert_eq!(u64_be_bytes(0x0102030405060708), vec![1u8, 2, 3, 4, 5, 6, 7, 8]);
    assert_eq!(u64_be_bytes(1), 1u64.to_be_bytes().to_vec());
}

#[test]
fn proof_bytes_must_be_nonempty() {
    assert!(CommitmentProofBytes::try_from_vec(Vec::new()).is_none());
    assert!(CommitmentProofBytes::try_from_vec(vec![1u8]).is_some());
}
