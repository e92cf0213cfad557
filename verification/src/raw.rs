//! Wire-shaped message records: plain-value mirrors of the protocol-buffer
//! types that cross the boundary. Nothing here is validated; the domain
//! types own the validation.

use vstd::prelude::*;

verus! {

/// A protobuf `Any`: a type URL and opaque encoded bytes.
#[derive(Clone, Debug, PartialEq, Eq)]
pub struct Any {
    pub type_url: String,
    pub value: Vec<u8>,
}

#[verifier::ext_equal]
pub struct AnyView {
    pub type_url: Seq<char>,
    pub value: Seq<u8>,
}

impl View for Any {
    type V = AnyView;

    open spec fn view(&self) -> AnyView {
        AnyView { type_url: self.type_url@, value: self.value@ }
    }
}

impl Any {
    pub fn new(type_url: String, value: Vec<u8>) -> (r: Any)
        ensures
            r@.type_url == type_url@,
            r@.value == value@,
    {
        Any { type_url, value }
    }

    pub fn clone_any(&self) -> (r: Any)
        ensures
            r@ == self@,
    {
        Any { type_url: self.type_url.clone(), value: self.value.clone() }
    }
}

/// A wire height; unvalidated, both fields may be zero.
#[derive(Clone, Copy, Debug, PartialEq, Eq, Structural)]
pub struct RawHeight {
    pub revision_number: u64,
    pub revision_height: u64,
}

/// A wire packet.
#[derive(Clone, Debug, PartialEq, Eq)]
pub struct RawPacket {
    pub sequence: u64,
    pub source_port: String,
    pub source_channel: String,
    pub destination_port: String,
    pub destination_channel: String,
    pub data: Vec<u8>,
    pub timeout_height: Option<RawHeight>,
    pub timeout_timestamp: u64,
}

#[verifier::ext_equal]
pub struct RawPacketView {
    pub sequence: u64,
    pub source_port: Seq<char>,
    pub source_channel: Seq<char>,
    pub destination_port: Seq<char>,
    pub destination_channel: Seq<char>,
    pub data: Seq<u8>,
    pub timeout_height: Option<RawHeight>,
    pub timeout_timestamp: u64,
}

impl View for RawPacket {
    type V = RawPacketView;

    open spec fn view(&self) -> RawPacketView {
        RawPacketView {
            sequence: self.sequence,
            source_port: self.source_port@,
            source_channel: self.source_channel@,
            destination_port: self.destination_port@,
            destination_channel: self.destination_channel@,
            data: self.data@,
            timeout_height: self.timeout_height,
            timeout_timestamp: self.timeout_timestamp,
        }
    }
}

/// The wire form of the packet-timeout message.
#[derive(Clone, Debug, PartialEq, Eq)]
pub struct RawMsgTimeout {
    pub packet: Option<RawPacket>,
    pub proof_unreceived: Vec<u8>,
    pub proof_height: Option<RawHeight>,
    pub next_sequence_recv: u64,
    pub signer: String,
}

#[verifier::ext_equal]
pub struct RawMsgTimeoutView {
    pub packet: Option<RawPacketView>,
    pub proof_unreceived: Seq<u8>,
    pub proof_height: Option<RawHeight>,
    pub next_sequence_recv: u64,
    pub signer: Seq<char>,
}

impl View for RawMsgTimeout {
    type V = RawMsgTimeoutView;

    open spec fn view(&self) -> RawMsgTimeoutView {
        RawMsgTimeoutView {
            packet: match self.packet {
                Some(p) => Some(p@),
                None => None,
            },
            proof_unreceived: self.proof_unreceived@,
            proof_height: self.proof_height,
            next_sequence_recv: self.next_sequence_recv,
            signer: self.signer@,
        }
    }
}

/// The wire form of the first channel-closure message.
#[derive(Clone, Debug, PartialEq, Eq)]
pub struct RawMsgChannelCloseInit {
    pub port_id: String,
    pub channel_id: String,
    pub signer: String,
}

#[verifier::ext_equal]
pub struct RawMsgChannelCloseInitView {
    pub port_id: Seq<char>,
    pub channel_id: Seq<char>,
    pub signer: Seq<char>,
}

impl View for RawMsgChannelCloseInit {
    type V = RawMsgChannelCloseInitView;

    open spec fn view(&self) -> RawMsgChannelCloseInitView {
        RawMsgChannelCloseInitView {
            port_id: self.port_id@,
            channel_id: self.channel_id@,
            signer: self.signer@,
        }
    }
}

/// The wire form of the second channel-closure message.
#[derive(Clone, Debug, PartialEq, Eq)]
pub struct RawMsgChannelCloseConfirm {
    pub port_id: String,
    pub channel_id: String,
    pub proof_init: Vec<u8>,
    pub proof_height: Option<RawHeight>,
    pub signer: String,
}

#[verifier::ext_equal]
pub struct RawMsgChannelCloseConfirmView {
    pub port_id: Seq<char>,
    pub channel_id: Seq<char>,
    pub proof_init: Seq<u8>,
    pub proof_height: Option<RawHeight>,
    pub signer: Seq<char>,
}

impl View for RawMsgChannelCloseConfirm {
    type V = RawMsgChannelCloseConfirmView;

    open spec fn view(&self) -> RawMsgChannelCloseConfirmView {
        RawMsgChannelCloseConfirmView {
            port_id: self.port_id@,
            channel_id: self.channel_id@,
            proof_init: self.proof_init@,
            proof_height: self.proof_height,
            signer: self.signer@,
        }
    }
}

/// The wire form of the client-creation message.
#[derive(Clone, Debug, PartialEq, Eq)]
pub struct RawMsgCreateClient {
    pub client_state: Option<Any>,
    pub consensus_state: Option<Any>,
    pub signer: String,
}

#[verifier::ext_equal]
pub struct RawMsgCreateClientView {
    pub client_state: Option<AnyView>,
    pub consensus_state: Option<AnyView>,
    pub signer: Seq<char>,
}

impl View for RawMsgCreateClient {
    type V = RawMsgCreateClientView;

    open spec fn view(&self) -> RawMsgCreateClientView {
        RawMsgCreateClientView {
            client_state: match self.client_state {
                Some(a) => Some(a@),
                None => None,
            },
            consensus_state: match self.consensus_state {
                Some(a) => Some(a@),
                None => None,
            },
            signer: self.signer@,
        }
    }
}

/// The wire form of a connection counterparty: its client, an optional
/// connection identifier, and its store prefix.
#[derive(Clone, Debug, PartialEq, Eq)]
pub struct RawCounterparty {
    pub client_id: String,
    pub connection_id: String,
    pub prefix: Option<Vec<u8>>,
}

#[verifier::ext_equal]
pub struct RawCounterpartyView {
    pub client_id: Seq<char>,
    pub connection_id: Seq<char>,
    pub prefix: Option<Seq<u8>>,
}

impl View for RawCounterparty {
    type V = RawCounterpartyView;

    open spec fn view(&self) -> RawCounterpartyView {
        RawCounterpartyView {
            client_id: self.client_id@,
            connection_id: self.connection_id@,
            prefix: match self.prefix {
                Some(ref p) => Some(p@),
                None => None,
            },
        }
    }
}

/// The wire form of a connection version.
#[derive(Clone, Debug, PartialEq, Eq)]
pub struct RawVersion {
    pub identifier: String,
    pub features: Vec<String>,
}

#[verifier::ext_equal]
pub struct RawVersionView {
    pub identifier: Seq<char>,
    pub features: Seq<Seq<char>>,
}

impl View for RawVersion {
    type V = RawVersionView;

    open spec fn view(&self) -> RawVersionView {
        RawVersionView {
            identifier: self.identifier@,
            features: self.features.deep_view(),
        }
    }
}

impl DeepView for RawVersion {
    type V = RawVersionView;

    open spec fn deep_view(&self) -> RawVersionView {
        self@
    }
}

/// The wire form of the second connection-handshake message.
#[derive(Clone, Debug, PartialEq, Eq)]
pub struct RawMsgConnectionOpenTry {
    pub client_id: String,
    pub previous_connection_id: String,
    pub client_state: Option<Any>,
    pub counterparty: Option<RawCounterparty>,
    pub delay_period: u64,
    pub counterparty_versions: Vec<RawVersion>,
    pub proof_height: Option<RawHeight>,
    pub proof_init: Vec<u8>,
    pub proof_consensus: Vec<u8>,
    pub consensus_height: Option<RawHeight>,
    pub proof_client: Vec<u8>,
    pub signer: String,
    pub host_consensus_state_proof: Vec<u8>,
}

#[verifier::ext_equal]
pub struct RawMsgConnectionOpenTryView {
    pub client_id: Seq<char>,
    pub previous_connection_id: Seq<char>,
    pub client_state: Option<AnyView>,
    pub counterparty: Option<RawCounterpartyView>,
    pub delay_period: u64,
    pub counterparty_versions: Seq<RawVersionView>,
    pub proof_height: Option<RawHeight>,
    pub proof_init: Seq<u8>,
    pub proof_consensus: Seq<u8>,
    pub consensus_height: Option<RawHeight>,
    pub proof_client: Seq<u8>,
    pub signer: Seq<char>,
    pub host_consensus_state_proof: Seq<u8>,
}

impl View for RawMsgConnectionOpenTry {
    type V = RawMsgConnectionOpenTryView;

    open spec fn view(&self) -> RawMsgConnectionOpenTryView {
        RawMsgConnectionOpenTryView {
            client_id: self.client_id@,
            previous_connection_id: self.previous_connection_id@,
            client_state: match self.client_state {
                Some(ref a) => Some(a@),
                None => None,
            },
            counterparty: match self.counterparty {
                Some(ref c) => Some(c@),
                None => None,
            },
            delay_period: self.delay_period,
            counterparty_versions: self.counterparty_versions.deep_view(),
            proof_height: self.proof_height,
            proof_init: self.proof_init@,
            proof_consensus: self.proof_consensus@,
            consensus_height: self.consensus_height,
            proof_client: self.proof_client@,
            signer: self.signer@,
            host_consensus_state_proof: self.host_consensus_state_proof@,
        }
    }
}

/// A wire protobuf timestamp: seconds and nanosecond remainder.
#[derive(Clone, Copy, Debug, PartialEq, Eq, Structural)]
pub struct RawTmTimestamp {
    pub seconds: i64,
    pub nanos: i32,
}

/// The wire form of a Tendermint consensus state.
#[derive(Clone, Debug, PartialEq, Eq)]
pub struct RawTmConsensusState {
    pub timestamp: Option<RawTmTimestamp>,
    pub root: Option<Vec<u8>>,
    pub next_validators_hash: Vec<u8>,
}

#[verifier::ext_equal]
pub struct RawTmConsensusStateView {
    pub timestamp: Option<RawTmTimestamp>,
    pub root: Option<Seq<u8>>,
    pub next_validators_hash: Seq<u8>,
}

impl View for RawTmConsensusState {
    type V = RawTmConsensusStateView;

    open spec fn view(&self) -> RawTmConsensusStateView {
        RawTmConsensusStateView {
            timestamp: self.timestamp,
            root: match self.root {
                Some(ref r) => Some(r@),
                None => None,
            },
            next_validators_hash: self.next_validators_hash@,
        }
    }
}

/// A wire protobuf duration: whole seconds and a nanosecond remainder.
#[derive(Clone, Copy, Debug, PartialEq, Eq, Structural)]
pub struct RawDuration {
    pub seconds: i64,
    pub nanos: i32,
}

/// A wire fraction, used for the trust threshold.
#[derive(Clone, Copy, Debug, PartialEq, Eq, Structural)]
pub struct RawFraction {
    pub numerator: u64,
    pub denominator: u64,
}

/// The wire form of a Tendermint client state. The verifier's proof
/// specifications are the light-client implementation's own and stay at the
/// boundary.
#[derive(Clone, Debug, PartialEq, Eq)]
pub struct RawTmClientState {
    pub chain_id: String,
    pub trust_level: Option<RawFraction>,
    pub trusting_period: Option<RawDuration>,
    pub unbonding_period: Option<RawDuration>,
    pub max_clock_drift: Option<RawDuration>,
    pub frozen_height: Option<RawHeight>,
    pub latest_height: Option<RawHeight>,
    pub upgrade_path: Vec<String>,
    pub allow_update_after_expiry: bool,
    pub allow_update_after_misbehaviour: bool,
}

#[verifier::ext_equal]
pub struct RawTmClientStateView {
    pub chain_id: Seq<char>,
    pub trust_level: Option<RawFraction>,
    pub trusting_period: Option<RawDuration>,
    pub unbonding_period: Option<RawDuration>,
    pub max_clock_drift: Option<RawDuration>,
    pub frozen_height: Option<RawHeight>,
    pub latest_height: Option<RawHeight>,
    pub upgrade_path: Seq<Seq<char>>,
    pub allow_update_after_expiry: bool,
    pub allow_update_after_misbehaviour: bool,
}

impl View for RawTmClientState {
    type V = RawTmClientStateView;

    open spec fn view(&self) -> RawTmClientStateView {
        RawTmClientStateView {
            chain_id: self.chain_id@,
            trust_level: self.trust_level,
            trusting_period: self.trusting_period,
            unbonding_period: self.unbonding_period,
            max_clock_drift: self.max_clock_drift,
            frozen_height: self.frozen_height,
            latest_height: self.latest_height,
            upgrade_path: self.upgrade_path.deep_view(),
            allow_update_after_expiry: self.allow_update_after_expiry,
            allow_update_after_misbehaviour: self.allow_update_after_misbehaviour,
        }
    }
}

} // verus!
